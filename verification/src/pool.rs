//! The instance visibility pool: where each tab's surface sits on screen,
//! and which one is shown.
//!
//! Positions and sizes are logical pixels held as the bit pattern of an
//! IEEE 754 double (`f64::to_bits`); the pool stores them and hands them
//! back without looking inside.

use crate::error::AppError;
use crate::table::{
    lemma_table_absent, lemma_table_len, lemma_table_push, lemma_table_remove, lemma_table_row,
    lemma_table_update, lists, only_changed_at, table, TabId,
};
use vstd::prelude::*;

verus! {

/// Mathematical value of an instance record.
pub struct InstanceView {
    pub tab_id: Seq<char>,
    pub is_visible: bool,
    pub x: u64,
    pub y: u64,
    pub width: u64,
    pub height: u64,
}

/// A placed, sized surface that belongs to one tab.
#[derive(Debug)]
pub struct CefInstance {
    pub tab_id: String,
    pub is_visible: bool,
    /// Bit pattern of the horizontal position.
    pub x: u64,
    /// Bit pattern of the vertical position.
    pub y: u64,
    /// Bit pattern of the width.
    pub width: u64,
    /// Bit pattern of the height.
    pub height: u64,
}

impl View for CefInstance {
    type V = InstanceView;

    open spec fn view(&self) -> InstanceView {
        InstanceView {
            tab_id: self.tab_id@,
            is_visible: self.is_visible,
            x: self.x,
            y: self.y,
            width: self.width,
            height: self.height,
        }
    }
}

impl Clone for CefInstance {
    fn clone(&self) -> (copy: Self)
        ensures
            copy@ == self@,
    {
        CefInstance {
            tab_id: self.tab_id.clone(),
            is_visible: self.is_visible,
            x: self.x,
            y: self.y,
            width: self.width,
            height: self.height,
        }
    }
}

/// The identifiers of a sequence of instances, in order.
pub open spec fn instance_ids(instances: Seq<CefInstance>) -> Seq<TabId> {
    instances.map_values(|r: CefInstance| r.tab_id@)
}

/// The values of a sequence of instances, in order.
pub open spec fn instance_views(instances: Seq<CefInstance>) -> Seq<InstanceView> {
    instances.map_values(|r: CefInstance| r@)
}

/// What holds of the records of every pool: finitely many, each filed under
/// its own identifier.
pub open spec fn valid_instances(pool: Map<TabId, InstanceView>) -> bool {
    &&& pool.dom().finite()
    &&& forall|id: TabId| #[trigger] pool.contains_key(id) ==> pool[id].tab_id == id
}

/// The identifiers of the records that are marked visible.
pub open spec fn visible_ids(pool: Map<TabId, InstanceView>) -> Set<TabId> {
    pool.dom().filter(|id: TabId| pool[id].is_visible)
}

/// How many records are marked visible.
pub open spec fn visible_count(pool: Map<TabId, InstanceView>) -> nat {
    visible_ids(pool).len()
}

/// The pool after `id` was shown: the same records in the same places, of
/// which the one named `id`, if there is one, is visible and no other is.
pub open spec fn shown(pool: Map<TabId, InstanceView>, id: TabId) -> Map<TabId, InstanceView> {
    Map::new(
        |k: TabId| pool.contains_key(k),
        |k: TabId| InstanceView { is_visible: k == id, ..pool[k] },
    )
}

/// The record `r` with its visibility flag set to `is_visible`.
pub open spec fn with_visibility(r: InstanceView, is_visible: bool) -> InstanceView {
    InstanceView { is_visible, ..r }
}

/// The record `r` moved and resized.
pub open spec fn with_bounds(r: InstanceView, x: u64, y: u64, width: u64, height: u64) -> InstanceView {
    InstanceView { x, y, width, height, ..r }
}

/// Filing one more record under a new identifier raises the number of
/// visible records by one if the record is visible, and leaves it otherwise.
pub proof fn lemma_visible_count_insert(pool: Map<TabId, InstanceView>, id: TabId, r: InstanceView)
    requires
        pool.dom().finite(),
        !pool.contains_key(id),
    ensures
        visible_ids(pool).finite(),
        visible_count(pool.insert(id, r)) == visible_count(pool) + if r.is_visible {
            1nat
        } else {
            0nat
        },
{
    let before = visible_ids(pool);
    let after = visible_ids(pool.insert(id, r));
    pool.dom().lemma_len_filter(|k: TabId| pool[k].is_visible);
    if r.is_visible {
        assert(after =~= before.insert(id));
    } else {
        assert(after =~= before);
    }
}

/// After a show at most one record is visible; if the identifier shown is
/// registered, exactly one is, and it is that one.
pub proof fn lemma_show_exclusive(pool: Map<TabId, InstanceView>, id: TabId)
    requires
        pool.dom().finite(),
    ensures
        visible_count(shown(pool, id)) <= 1,
        pool.contains_key(id) ==> visible_count(shown(pool, id)) == 1 && shown(
            pool,
            id,
        )[id].is_visible,
        forall|other: TabId|
            other != id && #[trigger] shown(pool, id).contains_key(other) ==> !shown(
                pool,
                id,
            )[other].is_visible,
{
    if pool.contains_key(id) {
        assert(visible_ids(shown(pool, id)) =~= set![id]);
    } else {
        assert(visible_ids(shown(pool, id)) =~= Set::<TabId>::empty());
    }
}

/// Owns the placement and visibility of every registered instance.
pub struct CefInstancePool {
    instances: Vec<CefInstance>,
}

impl View for CefInstancePool {
    type V = Map<TabId, InstanceView>;

    /// The registered instances, by identifier.
    closed spec fn view(&self) -> Map<TabId, InstanceView> {
        table(instance_ids(self.instances@), instance_views(self.instances@))
    }
}

impl CefInstancePool {
    /// No identifier is stored twice.
    pub closed spec fn wf(&self) -> bool {
        instance_ids(self.instances@).no_duplicates()
    }

    /// A well-formed pool holds valid records.
    pub proof fn lemma_valid(&self)
        requires
            self.wf(),
        ensures
            valid_instances(self@),
    {
        let ids = instance_ids(self.instances@);
        let rows = instance_views(self.instances@);
        lemma_table_len(ids, rows);
        assert forall|id: TabId| #[trigger] self@.contains_key(id) implies self@[id].tab_id
            == id by {
            let i = choose|i: int| 0 <= i < ids.len() && ids[i] == id;
            lemma_table_row(ids, rows, i);
        }
    }

    /// A pool without instances.
    pub fn new() -> (pool: Self)
        ensures
            pool.wf(),
            pool@ == Map::<TabId, InstanceView>::empty(),
    {
        let pool = CefInstancePool { instances: Vec::new() };
        assert(pool@ =~= Map::<TabId, InstanceView>::empty());
        pool
    }

    /// Where the instance named `tab_id` is stored, if it is registered.
    fn position(&self, tab_id: &str) -> (found: Option<usize>)
        requires
            self.wf(),
        ensures
            match found {
                Some(i) => i < self.instances@.len() && self.instances@[i as int].tab_id@
                    == tab_id@ && self@.contains_key(tab_id@) && self@[tab_id@]
                    == self.instances@[i as int]@,
                None => !self@.contains_key(tab_id@),
            },
    {
        let key: String = tab_id.to_owned();
        let mut i: usize = 0;
        while i < self.instances.len()
            invariant
                self.wf(),
                i <= self.instances@.len(),
                key@ == tab_id@,
                forall|j: int| 0 <= j < i ==> (#[trigger] self.instances@[j]).tab_id@ != tab_id@,
            decreases self.instances@.len() - i,
        {
            if self.instances[i].tab_id == key {
                proof {
                    lemma_table_row(
                        instance_ids(self.instances@),
                        instance_views(self.instances@),
                        i as int,
                    );
                }
                return Some(i);
            }
            i += 1;
        }
        proof {
            lemma_table_absent(
                instance_ids(self.instances@),
                instance_views(self.instances@),
                tab_id@,
            );
        }
        None
    }

    /// The record stored at `i` was changed in place and kept its
    /// identifier: the map changed at that identifier and nowhere else.
    proof fn lemma_slot_changed(before: Seq<CefInstance>, after: Seq<CefInstance>, i: int)
        requires
            instance_ids(before).no_duplicates(),
            0 <= i < before.len(),
            after == before.update(i, after[i]),
            after[i].tab_id@ == before[i].tab_id@,
        ensures
            instance_ids(after) == instance_ids(before),
            table(instance_ids(after), instance_views(after)) == table(
                instance_ids(before),
                instance_views(before),
            ).insert(before[i].tab_id@, after[i]@),
    {
        assert(instance_ids(after) =~= instance_ids(before));
        assert(instance_views(after) =~= instance_views(before).update(i, after[i]@));
        lemma_table_update(instance_ids(before), instance_views(before), i, after[i]@);
    }

    /// Registers an instance for `tab_id` at the given place, visible. An
    /// instance already registered under that identifier is replaced. No
    /// other instance is hidden: after two registrations both are visible.
    pub fn register_instance(&mut self, tab_id: String, x: u64, y: u64, width: u64, height: u64) -> (done:
        Result<(), AppError>)
        requires
            old(self).wf(),
        ensures
            final(self).wf(),
            done is Ok,
            final(self)@ == old(self)@.insert(
                tab_id@,
                (InstanceView { tab_id: tab_id@, is_visible: true, x, y, width, height }),
            ),
            only_changed_at(old(self)@, final(self)@, tab_id@),
    {
        let ghost ids = instance_ids(self.instances@);
        let ghost rows = instance_views(self.instances@);
        let found = self.position(tab_id.as_str());
        let record = CefInstance { tab_id, is_visible: true, x, y, width, height };
        let ghost row = record@;
        match found {
            Some(i) => {
                let slot = &mut self.instances[i];
                *slot = record;
                proof {
                    Self::lemma_slot_changed(old(self).instances@, self.instances@, i as int);
                }
            },
            None => {
                self.instances.push(record);
                proof {
                    assert(instance_ids(self.instances@) =~= ids.push(row.tab_id));
                    assert(instance_views(self.instances@) =~= rows.push(row));
                    lemma_table_push(ids, rows, row.tab_id, row);
                }
            },
        }
        Ok(())
    }

    /// Removes the instance of `tab_id`. The visibility of the others is
    /// left as it is.
    pub fn unregister_instance(&mut self, tab_id: &str) -> (done: Result<(), AppError>)
        requires
            old(self).wf(),
        ensures
            final(self).wf(),
            only_changed_at(old(self)@, final(self)@, tab_id@),
            match done {
                Ok(_) => old(self)@.contains_key(tab_id@) && final(self)@ == old(self)@.remove(
                    tab_id@,
                ),
                Err(e) => e == AppError::UnknownTab && !old(self)@.contains_key(tab_id@) && final(self)@
                    == old(self)@,
            },
    {
        let ghost ids = instance_ids(self.instances@);
        let ghost rows = instance_views(self.instances@);
        match self.position(tab_id) {
            Some(i) => {
                self.instances.remove(i);
                proof {
                    assert(instance_ids(self.instances@) =~= ids.remove(i as int));
                    assert(instance_views(self.instances@) =~= rows.remove(i as int));
                    lemma_table_remove(ids, rows, i as int);
                }
                Ok(())
            },
            None => Err(AppError::UnknownTab),
        }
    }

    /// A snapshot of the instance of `tab_id`, or `None` when there is none.
    pub fn get_instance(&self, tab_id: &str) -> (found: Result<Option<CefInstance>, AppError>)
        requires
            self.wf(),
        ensures
            found is Ok,
            match found.unwrap() {
                Some(r) => self@.contains_key(tab_id@) && r@ == self@[tab_id@],
                None => !self@.contains_key(tab_id@),
            },
    {
        match self.position(tab_id) {
            Some(i) => Ok(Some(self.instances[i].clone())),
            None => Ok(None),
        }
    }

    /// Shows the instance of `tab_id` and hides every other one. When
    /// `tab_id` is not registered this hides every instance and still
    /// succeeds. Either way at most one instance is visible afterwards.
    pub fn show_instance(&mut self, tab_id: &str) -> (done: Result<(), AppError>)
        requires
            old(self).wf(),
        ensures
            final(self).wf(),
            done is Ok,
            final(self)@ == shown(old(self)@, tab_id@),
            visible_count(final(self)@) <= 1,
            old(self)@.contains_key(tab_id@) ==> visible_count(final(self)@) == 1 && final(self)@[tab_id@].is_visible,
    {
        let key: String = tab_id.to_owned();
        let ghost ids = instance_ids(self.instances@);
        let ghost rows = instance_views(self.instances@);
        let mut i: usize = 0;
        while i < self.instances.len()
            invariant
                i <= self.instances@.len(),
                key@ == tab_id@,
                ids.no_duplicates(),
                ids.len() == rows.len(),
                instance_ids(self.instances@) == ids,
                forall|j: int|
                    0 <= j < i ==> (#[trigger] self.instances@[j])@ == with_visibility(
                        rows[j],
                        ids[j] == tab_id@,
                    ),
                forall|j: int|
                    i <= j < self.instances@.len() ==> (#[trigger] self.instances@[j])@ == rows[j],
            decreases self.instances@.len() - i,
        {
            let ghost before = self.instances@;
            let hit = self.instances[i].tab_id == key;
            let slot = &mut self.instances[i];
            slot.is_visible = hit;
            proof {
                assert(instance_ids(self.instances@) =~= instance_ids(before));
                assert(ids[i as int] == before[i as int].tab_id@);
            }
            i += 1;
        }
        proof {
            let now = instance_views(self.instances@);
            let target = shown(old(self)@, tab_id@);
            assert forall|k: TabId| self@.contains_key(k) == target.contains_key(k) by {}
            assert forall|k: TabId| self@.contains_key(k) implies self@[k] == target[k] by {
                let j = choose|j: int| 0 <= j < ids.len() && ids[j] == k;
                lemma_table_row(ids, now, j);
                lemma_table_row(ids, rows, j);
            }
            assert(self@ =~= target);
            lemma_table_len(ids, rows);
            lemma_show_exclusive(old(self)@, tab_id@);
        }
        Ok(())
    }

    /// Hides the instance of `tab_id`; no other record changes.
    pub fn hide_instance(&mut self, tab_id: &str) -> (done: Result<(), AppError>)
        requires
            old(self).wf(),
        ensures
            final(self).wf(),
            only_changed_at(old(self)@, final(self)@, tab_id@),
            match done {
                Ok(_) => old(self)@.contains_key(tab_id@) && final(self)@ == old(self)@.insert(
                    tab_id@,
                    with_visibility(old(self)@[tab_id@], false),
                ),
                Err(e) => e == AppError::UnknownTab && !old(self)@.contains_key(tab_id@) && final(self)@
                    == old(self)@,
            },
    {
        match self.position(tab_id) {
            Some(i) => {
                let slot = &mut self.instances[i];
                slot.is_visible = false;
                proof {
                    Self::lemma_slot_changed(old(self).instances@, self.instances@, i as int);
                }
                Ok(())
            },
            None => Err(AppError::UnknownTab),
        }
    }

    /// Moves and resizes the instance of `tab_id`. When `tab_id` is not
    /// registered nothing changes, and that is no error: an update may
    /// arrive after the instance was torn down.
    pub fn update_instance_bounds(&mut self, tab_id: &str, x: u64, y: u64, width: u64, height: u64) -> (done:
        Result<(), AppError>)
        requires
            old(self).wf(),
        ensures
            final(self).wf(),
            done is Ok,
            only_changed_at(old(self)@, final(self)@, tab_id@),
            final(self)@ == if old(self)@.contains_key(tab_id@) {
                old(self)@.insert(tab_id@, with_bounds(old(self)@[tab_id@], x, y, width, height))
            } else {
                old(self)@
            },
    {
        match self.position(tab_id) {
            Some(i) => {
                let slot = &mut self.instances[i];
                slot.x = x;
                slot.y = y;
                slot.width = width;
                slot.height = height;
                proof {
                    Self::lemma_slot_changed(old(self).instances@, self.instances@, i as int);
                }
            },
            None => {},
        }
        Ok(())
    }

    /// Snapshots of all registered instances, each once, in no particular
    /// order.
    pub fn get_all_instances(&self) -> (all: Result<Vec<CefInstance>, AppError>)
        requires
            self.wf(),
        ensures
            all is Ok,
            lists(instance_ids(all.unwrap()@), instance_views(all.unwrap()@), self@),
    {
        let mut out: Vec<CefInstance> = Vec::new();
        let mut i: usize = 0;
        while i < self.instances.len()
            invariant
                i <= self.instances@.len(),
                out@.len() == i,
                forall|j: int| 0 <= j < i ==> (#[trigger] out@[j])@ == self.instances@[j]@,
            decreases self.instances@.len() - i,
        {
            out.push(self.instances[i].clone());
            i += 1;
        }
        proof {
            assert(instance_ids(out@) =~= instance_ids(self.instances@));
            assert(instance_views(out@) =~= instance_views(self.instances@));
        }
        Ok(out)
    }

    /// How many instances are marked visible.
    pub fn get_visible_instance_count(&self) -> (count: Result<usize, AppError>)
        requires
            self.wf(),
        ensures
            count is Ok,
            count.unwrap() == visible_count(self@),
    {
        let ghost ids = instance_ids(self.instances@);
        let ghost rows = instance_views(self.instances@);
        let mut n: usize = 0;
        let mut i: usize = 0;
        proof {
            assert(table(ids.take(0), rows.take(0)).dom() =~= Set::<TabId>::empty());
            assert(visible_ids(table(ids.take(0), rows.take(0))) =~= Set::<TabId>::empty());
        }
        while i < self.instances.len()
            invariant
                self.wf(),
                ids == instance_ids(self.instances@),
                rows == instance_views(self.instances@),
                i <= self.instances@.len(),
                n <= i,
                n == visible_count(table(ids.take(i as int), rows.take(i as int))),
            decreases self.instances@.len() - i,
        {
            proof {
                let k0 = ids.take(i as int);
                let r0 = rows.take(i as int);
                assert(k0.no_duplicates());
                assert(!k0.contains(ids[i as int])) by {
                    if k0.contains(ids[i as int]) {
                        let j = choose|j: int| 0 <= j < k0.len() && k0[j] == ids[i as int];
                        assert(ids[j] == ids[i as int]);
                    }
                }
                lemma_table_len(k0, r0);
                lemma_table_push(k0, r0, ids[i as int], rows[i as int]);
                assert(ids.take(i + 1) =~= k0.push(ids[i as int]));
                assert(rows.take(i + 1) =~= r0.push(rows[i as int]));
                lemma_visible_count_insert(table(k0, r0), ids[i as int], rows[i as int]);
            }
            if self.instances[i].is_visible {
                n += 1;
            }
            i += 1;
        }
        proof {
            assert(ids.take(i as int) =~= ids);
            assert(rows.take(i as int) =~= rows);
        }
        Ok(n)
    }

    /// How many instances are registered.
    pub fn get_instance_count(&self) -> (count: Result<usize, AppError>)
        requires
            self.wf(),
        ensures
            count is Ok,
            count.unwrap() == self@.dom().len(),
    {
        proof {
            lemma_table_len(instance_ids(self.instances@), instance_views(self.instances@));
        }
        Ok(self.instances.len())
    }
}

impl Default for CefInstancePool {
    fn default() -> (pool: Self)
        ensures
            pool.wf(),
            pool@ == Map::<TabId, InstanceView>::empty(),
    {
        CefInstancePool::new()
    }
}

} // verus!
