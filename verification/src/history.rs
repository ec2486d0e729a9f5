//! One tab's navigation state: a single growable history with a cursor.

use crate::table::TabId;
use vstd::prelude::*;

verus! {

/// Mathematical value of a history entry.
pub struct EntryView {
    pub url: Seq<char>,
    pub title: Seq<char>,
    pub timestamp: u64,
}

/// One visited page. The title is filled in when the page reports it.
#[derive(Debug)]
pub struct NavigationHistoryEntry {
    pub url: String,
    pub title: String,
    /// Milliseconds since the Unix epoch at which the entry was appended.
    pub timestamp: u64,
}

impl View for NavigationHistoryEntry {
    type V = EntryView;

    open spec fn view(&self) -> EntryView {
        EntryView { url: self.url@, title: self.title@, timestamp: self.timestamp }
    }
}

impl Clone for NavigationHistoryEntry {
    fn clone(&self) -> (copy: Self)
        ensures
            copy@ == self@,
    {
        NavigationHistoryEntry {
            url: self.url.clone(),
            title: self.title.clone(),
            timestamp: self.timestamp,
        }
    }
}

/// Mathematical value of a tab's navigation state.
pub struct TabView {
    pub tab_id: Seq<char>,
    pub url: Seq<char>,
    pub title: Seq<char>,
    pub is_loading: bool,
    pub can_go_back: bool,
    pub can_go_forward: bool,
    pub history: Seq<EntryView>,
    pub history_index: int,
}

impl TabView {
    /// The invariants every registered tab keeps: the cursor lies inside a
    /// non-empty history, the two flags say whether the cursor has a
    /// neighbour on that side, and the current URL is the one under the
    /// cursor.
    pub open spec fn wf(self) -> bool {
        &&& 0 <= self.history_index < self.history.len()
        &&& self.can_go_back == (self.history_index > 0)
        &&& self.can_go_forward == (self.history_index < self.history.len() - 1)
        &&& self.url == self.history[self.history_index].url
    }

    /// The entry appended by a navigation: no title yet.
    pub open spec fn visit(url: Seq<char>, timestamp: u64) -> EntryView {
        EntryView { url, title: Seq::empty(), timestamp }
    }

    /// A tab as it is right after registration: one seed entry, loading.
    pub open spec fn fresh(tab_id: Seq<char>, url: Seq<char>, timestamp: u64) -> TabView {
        TabView {
            tab_id,
            url,
            title: Seq::empty(),
            is_loading: true,
            can_go_back: false,
            can_go_forward: false,
            history: seq![Self::visit(url, timestamp)],
            history_index: 0,
        }
    }

    /// A forward navigation: everything after the cursor is dropped, the new
    /// entry is appended and becomes current.
    pub open spec fn navigate(self, url: Seq<char>, timestamp: u64) -> TabView {
        TabView {
            url,
            can_go_back: self.history_index + 1 > 0,
            can_go_forward: false,
            history: self.history.take(self.history_index + 1).push(Self::visit(url, timestamp)),
            history_index: self.history_index + 1,
            ..self
        }
    }

    /// The page under the cursor reported its title.
    pub open spec fn retitle(self, title: Seq<char>) -> TabView {
        TabView {
            title,
            history: self.history.update(
                self.history_index,
                EntryView { title, ..self.history[self.history_index] },
            ),
            ..self
        }
    }

    /// The loading flag changed; nothing else does.
    pub open spec fn with_loading(self, is_loading: bool) -> TabView {
        TabView { is_loading, ..self }
    }

    /// The cursor placed on `index`, with flags and URL derived from it.
    pub open spec fn at(self, index: int) -> TabView {
        TabView {
            url: self.history[index].url,
            can_go_back: index > 0,
            can_go_forward: index < self.history.len() - 1,
            history_index: index,
            ..self
        }
    }

    /// One step back, or the same state when the cursor is at the start.
    pub open spec fn back(self) -> TabView {
        if self.history_index > 0 {
            self.at(self.history_index - 1)
        } else {
            self
        }
    }

    /// One step forward, or the same state when the cursor is at the end.
    pub open spec fn forward(self) -> TabView {
        if self.history_index < self.history.len() - 1 {
            self.at(self.history_index + 1)
        } else {
            self
        }
    }

    /// The URL a step back hands to the engine, if the step can be taken.
    pub open spec fn back_target(self) -> Option<Seq<char>> {
        if self.history_index > 0 {
            Some(self.history[self.history_index - 1].url)
        } else {
            None
        }
    }

    /// The URL a step forward hands to the engine, if the step can be taken.
    pub open spec fn forward_target(self) -> Option<Seq<char>> {
        if self.history_index < self.history.len() - 1 {
            Some(self.history[self.history_index + 1].url)
        } else {
            None
        }
    }
}

impl TabView {
    /// `steps` steps back in a row.
    pub open spec fn back_by(self, steps: nat) -> TabView
        decreases steps,
    {
        if steps == 0 {
            self
        } else {
            self.back().back_by((steps - 1) as nat)
        }
    }

    /// `steps` steps forward in a row.
    pub open spec fn forward_by(self, steps: nat) -> TabView
        decreases steps,
    {
        if steps == 0 {
            self
        } else {
            self.forward().forward_by((steps - 1) as nat)
        }
    }

    /// Registration and every event keep the invariants of a tab.
    pub proof fn lemma_invariants_kept(self, url: Seq<char>, title: Seq<char>, timestamp: u64, is_loading: bool)
        requires
            self.wf(),
        ensures
            Self::fresh(self.tab_id, url, timestamp).wf(),
            self.navigate(url, timestamp).wf(),
            self.retitle(title).wf(),
            self.with_loading(is_loading).wf(),
            self.back().wf(),
            self.forward().wf(),
    {
    }

    /// A navigation keeps the entries up to the cursor, drops every entry
    /// after it and appends the new one, so the history is two longer than
    /// the old cursor. The new entry is the last one and the cursor is on
    /// it, so no number of steps forward moves the tab: what was dropped
    /// cannot be reached again.
    pub proof fn lemma_navigate_truncates(self, url: Seq<char>, timestamp: u64, steps: nat)
        requires
            self.wf(),
        ensures
            self.navigate(url, timestamp).history.len() == self.history_index + 2,
            self.navigate(url, timestamp).history_index == self.history_index + 1,
            self.navigate(url, timestamp).history.take(self.history_index + 1)
                == self.history.take(self.history_index + 1),
            self.navigate(url, timestamp).history.last() == Self::visit(url, timestamp),
            self.navigate(url, timestamp).url == url,
            self.navigate(url, timestamp).can_go_back,
            !self.navigate(url, timestamp).can_go_forward,
            self.navigate(url, timestamp).forward_target() is None,
            self.navigate(url, timestamp).forward_by(steps) == self.navigate(url, timestamp),
        decreases steps,
    {
        let next = self.navigate(url, timestamp);
        assert(next.history.take(self.history_index + 1) =~= self.history.take(
            self.history_index + 1,
        ));
        if steps > 0 {
            self.lemma_navigate_truncates(url, timestamp, (steps - 1) as nat);
        }
    }

    /// Steps back that stay inside the history land on the entry that many
    /// places before the cursor.
    pub proof fn lemma_back_by(self, steps: nat)
        requires
            self.wf(),
            steps <= self.history_index,
        ensures
            self.back_by(steps) == self.at(self.history_index - steps),
            self.back_by(steps).wf(),
        decreases steps,
    {
        if steps > 0 {
            self.back().lemma_back_by((steps - 1) as nat);
        }
    }

    /// Steps forward that stay inside the history land on the entry that
    /// many places after the cursor.
    pub proof fn lemma_forward_by(self, steps: nat)
        requires
            self.wf(),
            self.history_index + steps <= self.history.len() - 1,
        ensures
            self.forward_by(steps) == self.at(self.history_index + steps),
            self.forward_by(steps).wf(),
        decreases steps,
    {
        if steps > 0 {
            self.forward().lemma_forward_by((steps - 1) as nat);
        }
    }

    /// Going back some number of entries and then forward as many returns
    /// the tab to the state it was in: cursor, current URL and every other
    /// field.
    pub proof fn lemma_back_forward_inverse(self, steps: nat)
        requires
            self.wf(),
            steps <= self.history_index,
        ensures
            self.back_by(steps).forward_by(steps) == self,
            self.back_by(steps).forward_by(steps).history_index == self.history_index,
            self.back_by(steps).forward_by(steps).url == self.url,
    {
        self.lemma_back_by(steps);
        self.back_by(steps).lemma_forward_by(steps);
    }

    /// Going forward some number of entries and then back as many returns
    /// the tab to the state it was in.
    pub proof fn lemma_forward_back_inverse(self, steps: nat)
        requires
            self.wf(),
            self.history_index + steps <= self.history.len() - 1,
        ensures
            self.forward_by(steps).back_by(steps) == self,
    {
        self.lemma_forward_by(steps);
        self.forward_by(steps).lemma_back_by(steps);
    }

    /// A step back from the first entry, and a step forward from the last,
    /// hands back no URL and leaves every field as it was.
    pub proof fn lemma_boundary_steps(self)
        ensures
            self.history_index == 0 ==> self.back() == self && self.back_target() is None,
            self.history_index == self.history.len() - 1 ==> self.forward() == self
                && self.forward_target() is None,
    {
    }
}

/// Navigation state of one tab.
#[derive(Debug)]
pub struct CefBrowserInfo {
    pub tab_id: String,
    pub url: String,
    pub title: String,
    pub is_loading: bool,
    pub can_go_back: bool,
    pub can_go_forward: bool,
    pub history: Vec<NavigationHistoryEntry>,
    pub history_index: usize,
}

impl View for CefBrowserInfo {
    type V = TabView;

    open spec fn view(&self) -> TabView {
        TabView {
            tab_id: self.tab_id@,
            url: self.url@,
            title: self.title@,
            is_loading: self.is_loading,
            can_go_back: self.can_go_back,
            can_go_forward: self.can_go_forward,
            history: self.history@.map_values(|e: NavigationHistoryEntry| e@),
            history_index: self.history_index as int,
        }
    }
}

impl Clone for CefBrowserInfo {
    fn clone(&self) -> (copy: Self)
        ensures
            copy@ == self@,
    {
        let mut history: Vec<NavigationHistoryEntry> = Vec::new();
        let mut i: usize = 0;
        while i < self.history.len()
            invariant
                i <= self.history.len(),
                history@.len() == i,
                forall|j: int| 0 <= j < i ==> (#[trigger] history@[j])@ == self.history@[j]@,
            decreases self.history.len() - i,
        {
            history.push(self.history[i].clone());
            i += 1;
        }
        let copy = CefBrowserInfo {
            tab_id: self.tab_id.clone(),
            url: self.url.clone(),
            title: self.title.clone(),
            is_loading: self.is_loading,
            can_go_back: self.can_go_back,
            can_go_forward: self.can_go_forward,
            history,
            history_index: self.history_index,
        };
        assert(copy@.history =~= self@.history);
        copy
    }
}

impl CefBrowserInfo {
    /// The state of a tab that has just been opened on `url`.
    pub fn new(tab_id: String, url: String, timestamp: u64) -> (tab: Self)
        ensures
            tab@ == TabView::fresh(tab_id@, url@, timestamp),
            tab@.wf(),
    {
        let mut history: Vec<NavigationHistoryEntry> = Vec::new();
        history.push(NavigationHistoryEntry { url: url.clone(), title: String::new(), timestamp });
        let tab = CefBrowserInfo {
            tab_id,
            url,
            title: String::new(),
            is_loading: true,
            can_go_back: false,
            can_go_forward: false,
            history,
            history_index: 0,
        };
        assert(tab@.history =~= seq![TabView::visit(url@, timestamp)]);
        tab
    }

    /// Whether the state keeps the invariants of a registered tab.
    pub fn is_well_formed(&self) -> (ok: bool)
        ensures
            ok == self@.wf(),
    {
        if self.history_index >= self.history.len() {
            return false;
        }
        self.can_go_back == (self.history_index > 0)
            && self.can_go_forward == (self.history_index < self.history.len() - 1)
            && self.url == self.history[self.history_index].url
    }

    /// Records a forward navigation to `url` at time `timestamp`.
    pub fn record_url(&mut self, url: String, timestamp: u64)
        requires
            old(self)@.wf(),
        ensures
            final(self)@ == old(self)@.navigate(url@, timestamp),
            final(self)@.wf(),
    {
        if self.history_index < self.history.len() - 1 {
            self.history.truncate(self.history_index + 1);
        }
        self.history.push(NavigationHistoryEntry { url: url.clone(), title: String::new(), timestamp });
        self.url = url;
        self.history_index = self.history.len() - 1;
        self.can_go_back = self.history_index > 0;
        self.can_go_forward = false;
        assert(self@.history =~= old(self)@.navigate(url@, timestamp).history);
    }

    /// Records the title of the page under the cursor.
    pub fn record_title(&mut self, title: String)
        requires
            old(self)@.wf(),
        ensures
            final(self)@ == old(self)@.retitle(title@),
            final(self)@.wf(),
    {
        self.title = title.clone();
        let i = self.history_index;
        let entry = &mut self.history[i];
        entry.title = title;
        assert(self@.history =~= old(self)@.retitle(title@).history);
    }

    /// Moves the cursor one entry back and returns the URL now current, or
    /// returns `None` and changes nothing when the cursor is at the start.
    pub fn step_back(&mut self) -> (target: Option<String>)
        requires
            old(self)@.wf(),
        ensures
            final(self)@ == old(self)@.back(),
            final(self)@.wf(),
            target.is_some() == (old(self)@.history_index > 0),
            target.is_some() ==> target.unwrap()@ == final(self)@.url,
    {
        if self.history_index > 0 {
            self.history_index -= 1;
            self.can_go_back = self.history_index > 0;
            self.can_go_forward = true;
            let url = self.history[self.history_index].url.clone();
            self.url = url.clone();
            Some(url)
        } else {
            None
        }
    }

    /// Moves the cursor one entry forward and returns the URL now current,
    /// or returns `None` and changes nothing when the cursor is at the end.
    pub fn step_forward(&mut self) -> (target: Option<String>)
        requires
            old(self)@.wf(),
        ensures
            final(self)@ == old(self)@.forward(),
            final(self)@.wf(),
            target.is_some() == (old(self)@.history_index < old(self)@.history.len() - 1),
            target.is_some() ==> target.unwrap()@ == final(self)@.url,
    {
        if self.history_index < self.history.len() - 1 {
            self.history_index += 1;
            self.can_go_forward = self.history_index < self.history.len() - 1;
            self.can_go_back = true;
            let url = self.history[self.history_index].url.clone();
            self.url = url.clone();
            Some(url)
        } else {
            None
        }
    }
}

/// The identifiers of a sequence of tabs, in order.
pub open spec fn tab_ids(tabs: Seq<CefBrowserInfo>) -> Seq<TabId> {
    tabs.map_values(|t: CefBrowserInfo| t.tab_id@)
}

/// The values of a sequence of tabs, in order.
pub open spec fn tab_views(tabs: Seq<CefBrowserInfo>) -> Seq<TabView> {
    tabs.map_values(|t: CefBrowserInfo| t@)
}

} // verus!
