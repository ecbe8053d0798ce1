//! The filesystem watch on the package database.
//!
//! A transaction on the database touches many files in a burst. Of the
//! notifications that a watcher delivers, only those that show a write
//! to the database count, and of a burst of those only one is passed on
//! to the event loop.

use crate::debounce::{is_due, last_fire_after, Debouncer, DEBOUNCE_INTERVAL_NANOS};
use crate::event::{Event, EventView};
use vstd::prelude::*;

verus! {

/// How a file was opened or closed.
#[derive(Clone, Copy, Debug, PartialEq, Eq, Structural)]
pub enum AccessMode {
    Any,
    Execute,
    Read,
    Write,
    Other,
}

/// What kind of access to a file was seen.
#[derive(Clone, Copy, Debug, PartialEq, Eq, Structural)]
pub enum AccessKind {
    Any,
    Read,
    Open(AccessMode),
    Close(AccessMode),
    Other,
}

/// What was created.
#[derive(Clone, Copy, Debug, PartialEq, Eq, Structural)]
pub enum CreateKind {
    Any,
    File,
    Folder,
    Other,
}

/// What a filesystem notification is about.
#[derive(Clone, Copy, Debug, PartialEq, Eq, Structural)]
pub enum NotificationKind {
    Any,
    Access(AccessKind),
    Create(CreateKind),
    Modify,
    Remove,
    Other,
}

/// Whether a notification shows a write to the package database: a file
/// or a directory was created, or a file that was open for writing was
/// closed. Writes in progress, removals and changes of metadata do not
/// count.
pub open spec fn is_database_write(kind: NotificationKind) -> bool {
    kind == NotificationKind::Create(CreateKind::File) || kind == NotificationKind::Create(
        CreateKind::Folder,
    ) || kind == NotificationKind::Access(AccessKind::Close(AccessMode::Write))
}

/// Tells whether a notification shows a write to the package database.
pub fn shows_database_write(kind: NotificationKind) -> (accepted: bool)
    ensures
        accepted == is_database_write(kind),
{
    match kind {
        NotificationKind::Create(CreateKind::File) => true,
        NotificationKind::Create(CreateKind::Folder) => true,
        NotificationKind::Access(AccessKind::Close(AccessMode::Write)) => true,
        _ => false,
    }
}

/// The producer of database-change events.
pub struct WatchSource {
    debouncer: Debouncer,
}

impl WatchSource {
    /// Time at which the source last emitted an event, if it has; times
    /// are nanoseconds on the source's own clock.
    pub closed spec fn last_fire(&self) -> Option<nat> {
        self.debouncer.last_fire()
    }

    /// Minimum time between two events that the source emits.
    pub closed spec fn min_interval(&self) -> nat {
        self.debouncer.min_interval()
    }

    /// A source that has emitted nothing yet: the first write it sees
    /// becomes an event.
    pub fn new() -> (source: WatchSource)
        ensures
            source.last_fire() is None,
            source.min_interval() == DEBOUNCE_INTERVAL_NANOS,
    {
        WatchSource { debouncer: Debouncer::new(DEBOUNCE_INTERVAL_NANOS) }
    }

    /// Decides a notification that arrives at `now`: it becomes a
    /// database-change event exactly when it shows a write and either no
    /// event was emitted yet or the last one at least the debounce
    /// interval ago. Other notifications leave the source as it was.
    pub fn on_notification(&mut self, kind: NotificationKind, now: u128) -> (emitted: Option<
        Event,
    >)
        ensures
            emitted is Some <==> is_database_write(kind) && is_due(
                old(self).last_fire(),
                old(self).min_interval(),
                now as nat,
            ),
            emitted matches Some(event) ==> event@ == EventView::DatabaseChanging,
            final(self).min_interval() == old(self).min_interval(),
            final(self).last_fire() == (if is_database_write(kind) {
                last_fire_after(old(self).last_fire(), old(self).min_interval(), now as nat)
            } else {
                old(self).last_fire()
            }),
    {
        if shows_database_write(kind) && self.debouncer.try_fire(now) {
            Some(Event::DatabaseChanging)
        } else {
            None
        }
    }

    /// Decides a notification that arrives at the present moment, read
    /// from the source's own clock. The first write that the source sees
    /// becomes an event whatever the clock says.
    pub fn observe(&mut self, kind: NotificationKind) -> (emitted: Option<Event>)
        ensures
            emitted matches Some(event) ==> event@ == EventView::DatabaseChanging,
            final(self).min_interval() == old(self).min_interval(),
            !is_database_write(kind) ==> emitted is None && final(self).last_fire() == old(
                self,
            ).last_fire(),
            is_database_write(kind) ==> exists|now: nat|
                (emitted is Some) == is_due(
                    old(self).last_fire(),
                    old(self).min_interval(),
                    now,
                ) && final(self).last_fire() == #[trigger] last_fire_after(
                    old(self).last_fire(),
                    old(self).min_interval(),
                    now,
                ),
            is_database_write(kind) && old(self).last_fire() is None ==> emitted is Some,
    {
        if shows_database_write(kind) {
            let ghost before = self.last_fire();
            let ghost interval = self.min_interval();
            let fired = self.debouncer.debounce();
            proof {
                let now = choose|now: nat|
                    fired == is_due(before, interval, now) && self.last_fire()
                        == #[trigger] last_fire_after(before, interval, now);
                assert(self.last_fire() == last_fire_after(before, interval, now));
            }
            if fired {
                Some(Event::DatabaseChanging)
            } else {
                None
            }
        } else {
            None
        }
    }
}

} // verus!
