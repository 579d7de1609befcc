//! Importing events from a calendar file: which events are stored, which
//! are skipped as already known, and how the import went.
//!
//! The store is the caller's: for each event the session says whether to
//! store it, and the caller hands back what the store answered.

use vstd::prelude::*;
use crate::commands::{is_duplicate_event, same_import, Event};

verus! {

/// A known event has the candidate's title, start and end.
pub open spec fn is_known(existing: Seq<Event>, candidate: Event) -> bool {
    exists|i: int| 0 <= i < existing.len() && same_import(existing[i], candidate)
}

/// An import under way.
#[derive(Debug)]
pub struct ImportSession {
    /// The stored events, including the ones this import created.
    pub existing: Vec<Event>,
    pub imported_count: usize,
    pub failed_count: usize,
    pub duplicate_count: usize,
    /// Only the first event is imported, and it is opened for editing.
    pub edit_before_import: bool,
    /// How many events were offered to `should_store`.
    pub offered_count: usize,
    /// Events passed over because only the first is imported for editing.
    pub skipped_count: usize,
    /// The stored event to open for editing (edit-before-import only).
    pub edit_target: Option<i64>,
}

impl ImportSession {
    /// An import into a store that holds `existing`; with
    /// `edit_before_import`, only the first event is imported and then
    /// opened for editing.
    pub fn new(existing: Vec<Event>, edit_before_import: bool) -> (r: Self)
        ensures
            r.existing@ == existing@,
            r.imported_count == 0,
            r.failed_count == 0,
            r.duplicate_count == 0,
            r.edit_before_import == edit_before_import,
            r.offered_count == 0,
            r.skipped_count == 0,
            r.edit_target is None,
    {
        ImportSession {
            existing,
            imported_count: 0,
            failed_count: 0,
            duplicate_count: 0,
            edit_before_import,
            offered_count: 0,
            skipped_count: 0,
            edit_target: None,
        }
    }

    /// Whether to store `candidate`, the next event of the file. When only
    /// the first event is imported for editing, every later one is passed
    /// over (and counted as skipped). An event is not stored when a known
    /// event has its title, start and end (it is counted as a duplicate).
    pub fn should_store(&mut self, candidate: &Event) -> (r: bool)
        requires
            old(self).duplicate_count < usize::MAX,
            old(self).offered_count < usize::MAX,
            old(self).skipped_count < usize::MAX,
        ensures
            ({
                let passed_over = old(self).edit_before_import && old(self).offered_count > 0;
                let known = is_known(old(self).existing@, *candidate);
                &&& r == (!passed_over && !known)
                &&& final(self).skipped_count == old(self).skipped_count + if passed_over { 1int } else { 0int }
                &&& final(self).duplicate_count == old(self).duplicate_count + if !passed_over && known {
                    1int
                } else {
                    0int
                }
            }),
            final(self).offered_count == old(self).offered_count + 1,
            final(self).existing@ == old(self).existing@,
            final(self).imported_count == old(self).imported_count,
            final(self).failed_count == old(self).failed_count,
            final(self).edit_before_import == old(self).edit_before_import,
            final(self).edit_target == old(self).edit_target,
    {
        let first = self.offered_count == 0;
        self.offered_count = self.offered_count + 1;
        if self.edit_before_import && !first {
            self.skipped_count = self.skipped_count + 1;
            return false;
        }
        if is_duplicate_event(self.existing.as_slice(), candidate) {
            self.duplicate_count = self.duplicate_count + 1;
            false
        } else {
            true
        }
    }

    /// Takes in the store's answer for an admitted event: a stored event
    /// is counted and becomes known (so a later copy is a duplicate), and
    /// when it is imported for editing it is the one to open; a failure is
    /// counted.
    pub fn record(&mut self, created: Result<Event, String>)
        requires
            old(self).imported_count < usize::MAX,
            old(self).failed_count < usize::MAX,
        ensures
            created is Ok ==> final(self).imported_count == old(self).imported_count + 1
                && final(self).existing@ == old(self).existing@.push(created->Ok_0)
                && final(self).failed_count == old(self).failed_count,
            created is Ok && old(self).edit_before_import ==> final(self).edit_target == created->Ok_0.id,
            !(created is Ok && old(self).edit_before_import) ==> final(self).edit_target == old(self).edit_target,
            created is Err ==> final(self).failed_count == old(self).failed_count + 1
                && final(self).existing@ == old(self).existing@
                && final(self).imported_count == old(self).imported_count,
            final(self).duplicate_count == old(self).duplicate_count,
            final(self).edit_before_import == old(self).edit_before_import,
            final(self).offered_count == old(self).offered_count,
            final(self).skipped_count == old(self).skipped_count,
    {
        match created {
            Ok(e) => {
                self.imported_count = self.imported_count + 1;
                if self.edit_before_import {
                    self.edit_target = e.id;
                }
                self.existing.push(e);
            },
            Err(_) => {
                self.failed_count = self.failed_count + 1;
            },
        }
    }
}

/// Whether an imported event gets a countdown card: when the setting asks
/// for it and the event is still ahead (instants in Unix seconds).
pub fn should_create_countdown(auto_create: bool, event_start_ts: i64, now_ts: i64) -> (r: bool)
    ensures
        r == (auto_create && event_start_ts > now_ts),
{
    auto_create && event_start_ts > now_ts
}

/// Once an event is stored by the import, the same event offered again is
/// a duplicate.
pub proof fn lemma_imported_event_is_known(existing: Seq<Event>, e: Event)
    ensures
        is_known(existing.push(e), e),
{
    assert(same_import(existing.push(e)[existing.len() as int], e));
}

} // verus!
