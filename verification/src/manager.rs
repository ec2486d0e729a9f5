//! The navigation state manager: one navigation state per registered tab.

use crate::clock::now_millis;
use crate::error::{AppError, ArgumentFault};
use crate::history::{tab_ids, tab_views, CefBrowserInfo, TabView};
use crate::table::{
    lemma_table_absent, lemma_table_len, lemma_table_push, lemma_table_remove, lemma_table_row,
    lemma_table_update, lists, only_changed_at, table, TabId,
};
use vstd::prelude::*;

verus! {

/// What holds of the tabs of every manager: finitely many, each keeping the
/// invariants of a navigation state, each filed under its own identifier.
pub open spec fn valid_tabs(tabs: Map<TabId, TabView>) -> bool {
    &&& tabs.dom().finite()
    &&& forall|id: TabId| #[trigger]
        tabs.contains_key(id) ==> tabs[id].wf() && tabs[id].tab_id == id
}

/// The URL handed back by a step through history, as contracts see it.
pub open spec fn target_view(target: Option<String>) -> Option<Seq<char>> {
    match target {
        Some(url) => Some(url@),
        None => None,
    }
}

/// Owns the navigation state of every registered tab.
pub struct CefBrowserManager {
    tabs: Vec<CefBrowserInfo>,
}

impl View for CefBrowserManager {
    type V = Map<TabId, TabView>;

    /// The registered tabs, by identifier.
    closed spec fn view(&self) -> Map<TabId, TabView> {
        table(tab_ids(self.tabs@), tab_views(self.tabs@))
    }
}

impl CefBrowserManager {
    /// No identifier is stored twice and every stored state is well formed.
    pub closed spec fn wf(&self) -> bool {
        &&& tab_ids(self.tabs@).no_duplicates()
        &&& forall|i: int| 0 <= i < self.tabs@.len() ==> (#[trigger] self.tabs@[i])@.wf()
    }

    /// A well-formed manager holds valid tabs.
    pub proof fn lemma_valid(&self)
        requires
            self.wf(),
        ensures
            valid_tabs(self@),
    {
        let ids = tab_ids(self.tabs@);
        let rows = tab_views(self.tabs@);
        lemma_table_len(ids, rows);
        assert forall|id: TabId| #[trigger] self@.contains_key(id) implies self@[id].wf()
            && self@[id].tab_id == id by {
            let i = choose|i: int| 0 <= i < ids.len() && ids[i] == id;
            lemma_table_row(ids, rows, i);
            assert(self.tabs@[i]@.wf());
        }
    }

    /// A manager without tabs.
    pub fn new() -> (manager: Self)
        ensures
            manager.wf(),
            manager@ == Map::<TabId, TabView>::empty(),
    {
        let manager = CefBrowserManager { tabs: Vec::new() };
        assert(manager@ =~= Map::<TabId, TabView>::empty());
        manager
    }

    /// Where the tab named `tab_id` is stored, if it is registered.
    fn position(&self, tab_id: &str) -> (found: Option<usize>)
        requires
            self.wf(),
        ensures
            match found {
                Some(i) => i < self.tabs@.len() && self.tabs@[i as int].tab_id@ == tab_id@
                    && self@.contains_key(tab_id@) && self@[tab_id@] == self.tabs@[i as int]@,
                None => !self@.contains_key(tab_id@),
            },
    {
        let key: String = tab_id.to_owned();
        let mut i: usize = 0;
        while i < self.tabs.len()
            invariant
                self.wf(),
                i <= self.tabs@.len(),
                key@ == tab_id@,
                forall|j: int| 0 <= j < i ==> (#[trigger] self.tabs@[j]).tab_id@ != tab_id@,
            decreases self.tabs@.len() - i,
        {
            if self.tabs[i].tab_id == key {
                proof {
                    lemma_table_row(tab_ids(self.tabs@), tab_views(self.tabs@), i as int);
                }
                return Some(i);
            }
            i += 1;
        }
        proof {
            lemma_table_absent(tab_ids(self.tabs@), tab_views(self.tabs@), tab_id@);
        }
        None
    }

    /// Files `tab` under its own identifier, replacing what was there.
    fn put(&mut self, tab: CefBrowserInfo)
        requires
            old(self).wf(),
            tab@.wf(),
        ensures
            final(self).wf(),
            final(self)@ == old(self)@.insert(tab@.tab_id, tab@),
    {
        let ghost ids = tab_ids(self.tabs@);
        let ghost rows = tab_views(self.tabs@);
        let ghost row = tab@;
        match self.position(tab.tab_id.as_str()) {
            Some(i) => {
                let slot = &mut self.tabs[i];
                *slot = tab;
                proof {
                    assert(tab_ids(self.tabs@) =~= ids);
                    assert(tab_views(self.tabs@) =~= rows.update(i as int, row));
                    lemma_table_update(ids, rows, i as int, row);
                }
            },
            None => {
                self.tabs.push(tab);
                proof {
                    assert(tab_ids(self.tabs@) =~= ids.push(row.tab_id));
                    assert(tab_views(self.tabs@) =~= rows.push(row));
                    lemma_table_push(ids, rows, row.tab_id, row);
                }
            },
        }
    }

    /// The tab stored at `i` was changed in place and kept its identifier:
    /// the map changed at that identifier and nowhere else.
    proof fn lemma_slot_changed(before: Seq<CefBrowserInfo>, after: Seq<CefBrowserInfo>, i: int)
        requires
            tab_ids(before).no_duplicates(),
            0 <= i < before.len(),
            after == before.update(i, after[i]),
            after[i].tab_id@ == before[i].tab_id@,
        ensures
            tab_ids(after) == tab_ids(before),
            table(tab_ids(after), tab_views(after)) == table(
                tab_ids(before),
                tab_views(before),
            ).insert(before[i].tab_id@, after[i]@),
    {
        assert(tab_ids(after) =~= tab_ids(before));
        assert(tab_views(after) =~= tab_views(before).update(i, after[i]@));
        lemma_table_update(tab_ids(before), tab_views(before), i, after[i]@);
    }

    /// Registers `tab_id` on `url` at time `timestamp`: one seed entry, cursor
    /// on it, loading, no neighbour on either side. A tab already registered
    /// under that identifier is replaced, history included.
    pub fn register_browser_at(&mut self, tab_id: String, url: String, timestamp: u64) -> (done:
        Result<(), AppError>)
        requires
            old(self).wf(),
        ensures
            final(self).wf(),
            done is Ok,
            final(self)@ == old(self)@.insert(tab_id@, TabView::fresh(tab_id@, url@, timestamp)),
            only_changed_at(old(self)@, final(self)@, tab_id@),
    {
        self.put(CefBrowserInfo::new(tab_id, url, timestamp));
        Ok(())
    }

    /// Registers `tab_id` on `url`, stamping the seed entry with the current
    /// time.
    pub fn register_browser(&mut self, tab_id: String, url: String) -> (done: Result<(), AppError>)
        requires
            old(self).wf(),
        ensures
            final(self).wf(),
            done is Ok,
            final(self)@.contains_key(tab_id@),
            final(self)@ == old(self)@.insert(
                tab_id@,
                TabView::fresh(tab_id@, url@, final(self)@[tab_id@].history[0].timestamp),
            ),
            only_changed_at(old(self)@, final(self)@, tab_id@),
    {
        self.register_browser_at(tab_id, url, now_millis())
    }

    /// Forgets `tab_id`. Nothing happens when it is not registered.
    pub fn unregister_browser(&mut self, tab_id: &str) -> (done: Result<(), AppError>)
        requires
            old(self).wf(),
        ensures
            final(self).wf(),
            done is Ok,
            final(self)@ == old(self)@.remove(tab_id@),
            only_changed_at(old(self)@, final(self)@, tab_id@),
    {
        let ghost ids = tab_ids(self.tabs@);
        let ghost rows = tab_views(self.tabs@);
        match self.position(tab_id) {
            Some(i) => {
                self.tabs.remove(i);
                proof {
                    assert(tab_ids(self.tabs@) =~= ids.remove(i as int));
                    assert(tab_views(self.tabs@) =~= rows.remove(i as int));
                    lemma_table_remove(ids, rows, i as int);
                }
            },
            None => {
                assert(self@ =~= old(self)@.remove(tab_id@));
            },
        }
        Ok(())
    }

    /// A snapshot of the state of `tab_id`, or `None` when it is not
    /// registered.
    pub fn get_browser(&self, tab_id: &str) -> (found: Result<Option<CefBrowserInfo>, AppError>)
        requires
            self.wf(),
        ensures
            found is Ok,
            match found.unwrap() {
                Some(tab) => self@.contains_key(tab_id@) && tab@ == self@[tab_id@],
                None => !self@.contains_key(tab_id@),
            },
    {
        match self.position(tab_id) {
            Some(i) => Ok(Some(self.tabs[i].clone())),
            None => Ok(None),
        }
    }

    /// Files `info` under `tab_id`, replacing what was there. The state is
    /// refused, and nothing changes, unless it keeps the invariants of a
    /// navigation state and carries `tab_id` as its identifier.
    pub fn update_browser(&mut self, tab_id: &str, info: CefBrowserInfo) -> (done: Result<
        (),
        AppError,
    >)
        requires
            old(self).wf(),
        ensures
            final(self).wf(),
            only_changed_at(old(self)@, final(self)@, tab_id@),
            match done {
                Ok(_) => info@.wf() && info@.tab_id == tab_id@ && final(self)@ == old(self)@.insert(
                    tab_id@,
                    info@,
                ),
                Err(e) => e == AppError::InvalidArgument(ArgumentFault::InconsistentState) && !(
                info@.wf() && info@.tab_id == tab_id@) && final(self)@ == old(self)@,
            },
    {
        let key: String = tab_id.to_owned();
        if info.is_well_formed() && info.tab_id == key {
            self.put(info);
            Ok(())
        } else {
            Err(AppError::InvalidArgument(ArgumentFault::InconsistentState))
        }
    }

    /// Records at time `timestamp` that `tab_id` navigated to `url`: the
    /// entries after the cursor are dropped, an entry for `url` is appended
    /// and the cursor moves onto it.
    pub fn on_url_change_at(&mut self, tab_id: &str, url: String, timestamp: u64) -> (done: Result<
        (),
        AppError,
    >)
        requires
            old(self).wf(),
        ensures
            final(self).wf(),
            only_changed_at(old(self)@, final(self)@, tab_id@),
            match done {
                Ok(_) => old(self)@.contains_key(tab_id@) && final(self)@ == old(self)@.insert(
                    tab_id@,
                    old(self)@[tab_id@].navigate(url@, timestamp),
                ),
                Err(e) => e == AppError::UnknownTab && !old(self)@.contains_key(tab_id@) && final(self)@ == old(self)@,
            },
    {
        match self.position(tab_id) {
            Some(i) => {
                let tab = &mut self.tabs[i];
                tab.record_url(url, timestamp);
                proof {
                    Self::lemma_slot_changed(old(self).tabs@, self.tabs@, i as int);
                }
                Ok(())
            },
            None => Err(AppError::UnknownTab),
        }
    }

    /// Records that `tab_id` navigated to `url`, stamping the new entry with
    /// the current time.
    pub fn on_url_change(&mut self, tab_id: &str, url: String) -> (done: Result<(), AppError>)
        requires
            old(self).wf(),
        ensures
            final(self).wf(),
            only_changed_at(old(self)@, final(self)@, tab_id@),
            match done {
                Ok(_) => old(self)@.contains_key(tab_id@) && final(self)@.contains_key(tab_id@)
                    && final(self)@ == old(self)@.insert(
                    tab_id@,
                    old(self)@[tab_id@].navigate(
                        url@,
                        final(self)@[tab_id@].history.last().timestamp,
                    ),
                ),
                Err(e) => e == AppError::UnknownTab && !old(self)@.contains_key(tab_id@) && final(self)@ == old(self)@,
            },
    {
        self.on_url_change_at(tab_id, url, now_millis())
    }

    /// Records the title that the current page of `tab_id` reported: it
    /// becomes the tab's title and the title of the entry under the cursor.
    pub fn on_title_change(&mut self, tab_id: &str, title: String) -> (done: Result<(), AppError>)
        requires
            old(self).wf(),
        ensures
            final(self).wf(),
            only_changed_at(old(self)@, final(self)@, tab_id@),
            match done {
                Ok(_) => old(self)@.contains_key(tab_id@) && final(self)@ == old(self)@.insert(
                    tab_id@,
                    old(self)@[tab_id@].retitle(title@),
                ),
                Err(e) => e == AppError::UnknownTab && !old(self)@.contains_key(tab_id@) && final(self)@ == old(self)@,
            },
    {
        match self.position(tab_id) {
            Some(i) => {
                let tab = &mut self.tabs[i];
                tab.record_title(title);
                proof {
                    Self::lemma_slot_changed(old(self).tabs@, self.tabs@, i as int);
                }
                Ok(())
            },
            None => Err(AppError::UnknownTab),
        }
    }

    /// Sets the loading flag of `tab_id`; no other field changes.
    pub fn on_loading_state_change(&mut self, tab_id: &str, is_loading: bool) -> (done: Result<
        (),
        AppError,
    >)
        requires
            old(self).wf(),
        ensures
            final(self).wf(),
            only_changed_at(old(self)@, final(self)@, tab_id@),
            match done {
                Ok(_) => old(self)@.contains_key(tab_id@) && final(self)@ == old(self)@.insert(
                    tab_id@,
                    old(self)@[tab_id@].with_loading(is_loading),
                ),
                Err(e) => e == AppError::UnknownTab && !old(self)@.contains_key(tab_id@) && final(self)@ == old(self)@,
            },
    {
        match self.position(tab_id) {
            Some(i) => {
                let tab = &mut self.tabs[i];
                tab.is_loading = is_loading;
                proof {
                    Self::lemma_slot_changed(old(self).tabs@, self.tabs@, i as int);
                }
                Ok(())
            },
            None => Err(AppError::UnknownTab),
        }
    }

    /// Moves the cursor of `tab_id` one entry back and returns the URL now
    /// current, for the engine to load. With the cursor on the first entry
    /// it returns `None` and changes nothing.
    pub fn on_go_back(&mut self, tab_id: &str) -> (done: Result<Option<String>, AppError>)
        requires
            old(self).wf(),
        ensures
            final(self).wf(),
            only_changed_at(old(self)@, final(self)@, tab_id@),
            match done {
                Ok(target) => old(self)@.contains_key(tab_id@) && final(self)@ == old(self)@.insert(tab_id@, old(self)@[tab_id@].back()) && target_view(target) == old(self)@[tab_id@].back_target() && (old(self)@[tab_id@].history_index == 0 ==> target
                    is None && final(self)@ == old(self)@),
                Err(e) => e == AppError::UnknownTab && !old(self)@.contains_key(tab_id@) && final(self)@ == old(self)@,
            },
    {
        match self.position(tab_id) {
            Some(i) => {
                let tab = &mut self.tabs[i];
                let target = tab.step_back();
                proof {
                    Self::lemma_slot_changed(old(self).tabs@, self.tabs@, i as int);
                    if old(self)@[tab_id@].history_index == 0 {
                        assert(self@ =~= old(self)@);
                    }
                }
                Ok(target)
            },
            None => Err(AppError::UnknownTab),
        }
    }

    /// Moves the cursor of `tab_id` one entry forward and returns the URL
    /// now current, for the engine to load. With the cursor on the last
    /// entry it returns `None` and changes nothing.
    pub fn on_go_forward(&mut self, tab_id: &str) -> (done: Result<Option<String>, AppError>)
        requires
            old(self).wf(),
        ensures
            final(self).wf(),
            only_changed_at(old(self)@, final(self)@, tab_id@),
            match done {
                Ok(target) => old(self)@.contains_key(tab_id@) && final(self)@ == old(self)@.insert(tab_id@, old(self)@[tab_id@].forward()) && target_view(target) == old(self)@[tab_id@].forward_target() && (old(self)@[tab_id@].history_index == old(self)@[tab_id@].history.len() - 1 ==> target is None && final(self)@ == old(self)@),
                Err(e) => e == AppError::UnknownTab && !old(self)@.contains_key(tab_id@) && final(self)@ == old(self)@,
            },
    {
        match self.position(tab_id) {
            Some(i) => {
                let tab = &mut self.tabs[i];
                let target = tab.step_forward();
                proof {
                    Self::lemma_slot_changed(old(self).tabs@, self.tabs@, i as int);
                    if old(self)@[tab_id@].history_index == old(self)@[tab_id@].history.len() - 1 {
                        assert(self@ =~= old(self)@);
                    }
                }
                Ok(target)
            },
            None => Err(AppError::UnknownTab),
        }
    }

    /// Snapshots of all registered tabs, each once, in no particular order.
    pub fn get_all_browsers(&self) -> (all: Result<Vec<CefBrowserInfo>, AppError>)
        requires
            self.wf(),
        ensures
            all is Ok,
            lists(tab_ids(all.unwrap()@), tab_views(all.unwrap()@), self@),
    {
        let mut out: Vec<CefBrowserInfo> = Vec::new();
        let mut i: usize = 0;
        while i < self.tabs.len()
            invariant
                i <= self.tabs@.len(),
                out@.len() == i,
                forall|j: int| 0 <= j < i ==> (#[trigger] out@[j])@ == self.tabs@[j]@,
            decreases self.tabs@.len() - i,
        {
            out.push(self.tabs[i].clone());
            i += 1;
        }
        proof {
            assert(tab_ids(out@) =~= tab_ids(self.tabs@));
            assert(tab_views(out@) =~= tab_views(self.tabs@));
        }
        Ok(out)
    }
}

impl Default for CefBrowserManager {
    fn default() -> (manager: Self)
        ensures
            manager.wf(),
            manager@ == Map::<TabId, TabView>::empty(),
    {
        CefBrowserManager::new()
    }
}

} // verus!
