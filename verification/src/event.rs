//! What flows into the event loop and out of it to the presentation sinks.

use crate::severity::Severity;
use vstd::prelude::*;

verus! {

/// The identifiers held by a list of strings.
pub open spec fn identifiers_of(names: Seq<String>) -> Seq<Seq<char>> {
    Seq::new(names.len(), |i: int| names[i]@)
}

/// An event on the loop's channel.
#[derive(Clone, Debug, PartialEq, Eq)]
pub enum Event {
    /// A check for pending updates is due.
    CheckRequested,
    /// A list of pending updates is known.
    UpdatesResolved(Vec<String>),
    /// The package database is being written to.
    DatabaseChanging,
    /// The process has been asked to end.
    Shutdown,
}

/// An event with its payload as a sequence of identifiers.
pub enum EventView {
    CheckRequested,
    UpdatesResolved(Seq<Seq<char>>),
    DatabaseChanging,
    Shutdown,
}

impl View for Event {
    type V = EventView;

    open spec fn view(&self) -> EventView {
        match *self {
            Event::CheckRequested => EventView::CheckRequested,
            Event::UpdatesResolved(names) => EventView::UpdatesResolved(identifiers_of(names@)),
            Event::DatabaseChanging => EventView::DatabaseChanging,
            Event::Shutdown => EventView::Shutdown,
        }
    }
}

/// A message to a presentation sink.
#[derive(Clone, Debug, PartialEq, Eq)]
pub enum SinkMessage {
    /// A check has started.
    CheckingStarted,
    /// A check has ended with this list of pending updates.
    Resolved { severity: Severity, count: usize, identifiers: Vec<String> },
    /// The package database is being updated.
    UpdatingStarted,
}

/// A sink message with its payload as a sequence of identifiers.
pub enum SinkMessageView {
    CheckingStarted,
    Resolved { severity: Severity, count: nat, identifiers: Seq<Seq<char>> },
    UpdatingStarted,
}

impl View for SinkMessage {
    type V = SinkMessageView;

    open spec fn view(&self) -> SinkMessageView {
        match *self {
            SinkMessage::CheckingStarted => SinkMessageView::CheckingStarted,
            SinkMessage::Resolved { severity, count, identifiers } => SinkMessageView::Resolved {
                severity,
                count: count as nat,
                identifiers: identifiers_of(identifiers@),
            },
            SinkMessage::UpdatingStarted => SinkMessageView::UpdatingStarted,
        }
    }
}

/// The messages held by a list of sink messages.
pub open spec fn messages_of(messages: Seq<SinkMessage>) -> Seq<SinkMessageView> {
    Seq::new(messages.len(), |i: int| messages[i]@)
}

} // verus!
