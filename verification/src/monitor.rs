//! The event loop's state machine.
//!
//! The loop itself waits on a channel, runs the external check and sleeps;
//! all of that is the driver's business. What the loop decides is here:
//! the driver hands [`Monitor::handle`] each thing that happened and
//! carries out the [`Reaction`] it gets back.
//!
//! A check is in flight from the moment a reaction commands
//! [`Command::RunCheck`] until the driver hands in the matching
//! [`Input::CheckFinished`]. While one is in flight no reaction commands
//! another: requests that arrive in between wait in a queue, in order.

use crate::checker::CheckError;
use crate::config::Config;
use crate::event::{identifiers_of, messages_of, Event, EventView, SinkMessage, SinkMessageView};
use std::collections::VecDeque;
use vstd::prelude::*;

verus! {

/// Time, in milliseconds, between a change to the package database and
/// the check that follows it.
pub const SETTLE_DELAY_MS: u64 = 5000;

/// What the loop is doing.
#[derive(Clone, Copy, Debug, PartialEq, Eq, Structural)]
pub enum MonitorState {
    /// Waiting for something to happen.
    Idle,
    /// A check is in flight.
    Checking,
    /// The database changed a moment ago; a check is scheduled.
    Settling,
}

/// An event that asks for a check, now or after the database has settled.
#[derive(Clone, Copy, Debug, PartialEq, Eq, Structural)]
pub enum Trigger {
    CheckRequested,
    DatabaseChanging,
}

/// Why the loop ended.
#[derive(Clone, Copy, Debug, PartialEq, Eq, Structural)]
pub enum ExitReason {
    /// A shutdown event arrived.
    Shutdown,
    /// A check failed.
    CheckFailed(CheckError),
    /// Every producer is gone: no event can arrive any more.
    ChannelClosed,
}

impl ExitReason {
    /// The status with which the process ends.
    pub open spec fn status(self) -> int {
        match self {
            ExitReason::Shutdown => 0,
            ExitReason::CheckFailed(_) => 0,
            ExitReason::ChannelClosed => 1,
        }
    }

    /// The status with which the process ends: a shutdown on request or
    /// after a failed check is orderly, a channel without producers is a
    /// failure.
    pub fn exit_code(self) -> (code: i32)
        ensures
            code == self.status(),
    {
        match self {
            ExitReason::Shutdown => 0,
            ExitReason::CheckFailed(_) => 0,
            ExitReason::ChannelClosed => 1,
        }
    }
}

/// What the driver is to do next.
#[derive(Clone, Copy, Debug, PartialEq, Eq, Structural)]
pub enum Command {
    /// Wait for the next input.
    Continue,
    /// Run the external check and hand in its result.
    RunCheck,
    /// Hand in [`Input::SettleElapsed`] once the delay has passed.
    ScheduleCheck { delay_ms: u64 },
    /// Leave the loop.
    Exit(ExitReason),
}

/// Something that happened, as the driver hands it to the monitor.
#[derive(Debug, PartialEq, Eq)]
pub enum Input {
    /// An event arrived on the channel.
    Event(Event),
    /// The delay of the last [`Command::ScheduleCheck`] has passed.
    SettleElapsed,
    /// The check commanded last has ended.
    CheckFinished(Result<Vec<String>, CheckError>),
    /// The channel has no producer left.
    ChannelClosed,
}

/// An input with its payload as a sequence of identifiers.
pub enum InputView {
    Event(EventView),
    SettleElapsed,
    CheckFinished(Result<Seq<Seq<char>>, CheckError>),
    ChannelClosed,
}

impl View for Input {
    type V = InputView;

    open spec fn view(&self) -> InputView {
        match *self {
            Input::Event(event) => InputView::Event(event@),
            Input::SettleElapsed => InputView::SettleElapsed,
            Input::CheckFinished(Ok(names)) => InputView::CheckFinished(
                Ok(identifiers_of(names@)),
            ),
            Input::CheckFinished(Err(error)) => InputView::CheckFinished(Err(error)),
            Input::ChannelClosed => InputView::ChannelClosed,
        }
    }
}

/// What the monitor answers to an input: messages for the presentation
/// sinks, in the order in which they are to be sent, and a command.
#[derive(Clone, Debug, PartialEq, Eq)]
pub struct Reaction {
    pub notifications: Vec<SinkMessage>,
    pub command: Command,
}

/// A reaction with its messages as a sequence.
pub struct ReactionView {
    pub notifications: Seq<SinkMessageView>,
    pub command: Command,
}

impl View for Reaction {
    type V = ReactionView;

    open spec fn view(&self) -> ReactionView {
        ReactionView { notifications: messages_of(self.notifications@), command: self.command }
    }
}

impl ReactionView {
    /// The reaction that does nothing.
    pub open spec fn nothing() -> ReactionView {
        ReactionView { notifications: Seq::empty(), command: Command::Continue }
    }

    /// This reaction followed by `later`: the messages of both in order,
    /// and the first command that is more than `Continue`.
    pub open spec fn followed_by(self, later: ReactionView) -> ReactionView {
        ReactionView {
            notifications: self.notifications + later.notifications,
            command: if self.command is Continue {
                later.command
            } else {
                self.command
            },
        }
    }
}

/// The monitor as a mathematical value.
pub struct MonitorView {
    pub state: MonitorState,
    /// Why the loop ended, once it has.
    pub exit: Option<ExitReason>,
    /// Requests that arrived while a check was in flight, oldest first.
    pub deferred: Seq<Trigger>,
    pub config: Config,
}

impl MonitorView {
    /// The monitor at process start.
    pub open spec fn initial(config: Config) -> MonitorView {
        MonitorView { state: MonitorState::Idle, exit: None, deferred: Seq::empty(), config }
    }

    /// Requests wait only while a check is in flight. (Once the loop has
    /// ended, what is left in the queue stays there.)
    pub open spec fn well_formed(self) -> bool {
        self.exit is None && !(self.state is Checking) ==> self.deferred.len() == 0
    }

    /// The message that carries a list of pending updates to the sinks.
    pub open spec fn resolved(self, names: Seq<Seq<char>>) -> SinkMessageView {
        SinkMessageView::Resolved {
            severity: self.config.severity_of(names.len()),
            count: names.len(),
            identifiers: names,
        }
    }

    /// The loop ends for `reason`.
    pub open spec fn stop(self, reason: ExitReason) -> (MonitorView, ReactionView) {
        (
            MonitorView { exit: Some(reason), ..self },
            ReactionView { notifications: Seq::empty(), command: Command::Exit(reason) },
        )
    }

    /// A check starts.
    pub open spec fn start_check(self) -> (MonitorView, ReactionView) {
        (
            MonitorView { state: MonitorState::Checking, ..self },
            ReactionView {
                notifications: seq![SinkMessageView::CheckingStarted],
                command: Command::RunCheck,
            },
        )
    }

    /// A request is taken up while no check is in flight.
    pub open spec fn take_up(self, trigger: Trigger) -> (MonitorView, ReactionView) {
        match (self.state, trigger) {
            (MonitorState::Idle, Trigger::CheckRequested) => self.start_check(),
            (MonitorState::Idle, Trigger::DatabaseChanging) => (
                MonitorView { state: MonitorState::Settling, ..self },
                ReactionView {
                    notifications: seq![SinkMessageView::UpdatingStarted],
                    command: Command::ScheduleCheck { delay_ms: SETTLE_DELAY_MS },
                },
            ),
            _ => (self, ReactionView::nothing()),
        }
    }

    /// The waiting requests are taken up, oldest first, until a check is
    /// in flight again or none is left.
    pub open spec fn drain(self) -> (MonitorView, ReactionView)
        decreases self.deferred.len(),
    {
        if self.deferred.len() == 0 || self.state is Checking {
            (self, ReactionView::nothing())
        } else {
            let rest = MonitorView { deferred: self.deferred.drop_first(), ..self };
            let (taken, first) = rest.take_up(self.deferred[0]);
            let (drained, later) = taken.drain();
            (drained, first.followed_by(later))
        }
    }

    /// A request arrives.
    pub open spec fn on_trigger(self, trigger: Trigger) -> (MonitorView, ReactionView) {
        if self.state is Checking {
            (MonitorView { deferred: self.deferred.push(trigger), ..self }, ReactionView::nothing())
        } else {
            self.take_up(trigger)
        }
    }

    /// The check in flight ends.
    pub open spec fn on_check_finished(self, result: Result<Seq<Seq<char>>, CheckError>) -> (
        MonitorView,
        ReactionView,
    ) {
        if !(self.state is Checking) {
            (self, ReactionView::nothing())
        } else {
            let idle = MonitorView { state: MonitorState::Idle, ..self };
            match result {
                Err(error) => idle.stop(ExitReason::CheckFailed(error)),
                Ok(names) => {
                    let report = ReactionView {
                        notifications: seq![self.resolved(names)],
                        command: Command::Continue,
                    };
                    let (drained, later) = idle.drain();
                    (drained, report.followed_by(later))
                },
            }
        }
    }

    /// The monitor's answer to an input, and the monitor after it.
    ///
    /// Once the loop has ended nothing changes any more and every answer
    /// is the command to leave.
    pub open spec fn step(self, input: InputView) -> (MonitorView, ReactionView) {
        match self.exit {
            Some(reason) => (
                self,
                ReactionView { notifications: Seq::empty(), command: Command::Exit(reason) },
            ),
            None => match input {
                InputView::ChannelClosed => self.stop(ExitReason::ChannelClosed),
                InputView::Event(EventView::Shutdown) => self.stop(ExitReason::Shutdown),
                InputView::Event(EventView::UpdatesResolved(names)) => (
                    self,
                    ReactionView {
                        notifications: seq![self.resolved(names)],
                        command: Command::Continue,
                    },
                ),
                InputView::Event(EventView::CheckRequested) => self.on_trigger(
                    Trigger::CheckRequested,
                ),
                InputView::Event(EventView::DatabaseChanging) => self.on_trigger(
                    Trigger::DatabaseChanging,
                ),
                InputView::SettleElapsed => if self.state is Settling {
                    self.start_check()
                } else {
                    (self, ReactionView::nothing())
                },
                InputView::CheckFinished(result) => self.on_check_finished(result),
            },
        }
    }
}

/// The decisions of the event loop.
pub struct Monitor {
    state: MonitorState,
    exit: Option<ExitReason>,
    deferred: VecDeque<Trigger>,
    config: Config,
}

impl View for Monitor {
    type V = MonitorView;

    closed spec fn view(&self) -> MonitorView {
        MonitorView {
            state: self.state,
            exit: self.exit,
            deferred: self.deferred@,
            config: self.config,
        }
    }
}

impl Monitor {
    /// The monitor at process start: idle, with nothing waiting.
    pub fn new(config: Config) -> (monitor: Monitor)
        ensures
            monitor@ == MonitorView::initial(config),
    {
        Monitor { state: MonitorState::Idle, exit: None, deferred: VecDeque::new(), config }
    }

    /// What the loop is doing.
    pub fn state(&self) -> (state: MonitorState)
        ensures
            state == self@.state,
    {
        self.state
    }

    /// Why the loop ended, once it has.
    pub fn exit_reason(&self) -> (exit: Option<ExitReason>)
        ensures
            exit == self@.exit,
    {
        self.exit
    }

    /// The number of requests that wait for the check in flight to end.
    pub fn waiting(&self) -> (count: usize)
        ensures
            count == self@.deferred.len(),
    {
        self.deferred.len()
    }

    /// The message that carries `names` to the sinks.
    fn resolved(&self, names: Vec<String>) -> (message: SinkMessage)
        ensures
            message@ == self@.resolved(identifiers_of(names@)),
    {
        let count = names.len();
        SinkMessage::Resolved { severity: self.config.classify(count), count, identifiers: names }
    }

    /// Ends the loop for `reason`.
    fn stop(&mut self, reason: ExitReason) -> (reaction: Reaction)
        ensures
            (final(self)@, reaction@) == old(self)@.stop(reason),
    {
        self.exit = Some(reason);
        let reaction = Reaction { notifications: Vec::new(), command: Command::Exit(reason) };
        assert(reaction@.notifications =~= Seq::empty());
        reaction
    }

    /// Takes up one request, adding what it causes to `notifications`.
    fn take_up(&mut self, trigger: Trigger, notifications: &mut Vec<SinkMessage>) -> (command:
        Command)
        requires
            !(old(self)@.state is Checking),
        ensures
            final(self)@ == old(self)@.take_up(trigger).0,
            messages_of(final(notifications)@) == messages_of(old(notifications)@) + old(
                self,
            )@.take_up(trigger).1.notifications,
            command == old(self)@.take_up(trigger).1.command,
    {
        let ghost before = messages_of(notifications@);
        match (self.state, trigger) {
            (MonitorState::Idle, Trigger::CheckRequested) => {
                self.state = MonitorState::Checking;
                notifications.push(SinkMessage::CheckingStarted);
                assert(messages_of(notifications@) =~= before + seq![
                    SinkMessageView::CheckingStarted,
                ]);
                Command::RunCheck
            },
            (MonitorState::Idle, Trigger::DatabaseChanging) => {
                self.state = MonitorState::Settling;
                notifications.push(SinkMessage::UpdatingStarted);
                assert(messages_of(notifications@) =~= before + seq![
                    SinkMessageView::UpdatingStarted,
                ]);
                Command::ScheduleCheck { delay_ms: SETTLE_DELAY_MS }
            },
            _ => {
                assert(messages_of(notifications@) =~= before + Seq::<SinkMessageView>::empty());
                Command::Continue
            },
        }
    }

    /// Takes up the waiting requests, adding what they cause to
    /// `notifications`.
    fn drain(&mut self, notifications: &mut Vec<SinkMessage>) -> (command: Command)
        ensures
            final(self)@ == old(self)@.drain().0,
            messages_of(final(notifications)@) == messages_of(old(notifications)@) + old(
                self,
            )@.drain().1.notifications,
            command == old(self)@.drain().1.command,
    {
        let ghost start = self@;
        let ghost before = messages_of(notifications@);
        let ghost mut so_far = ReactionView::nothing();
        let mut command = Command::Continue;
        assert(before + so_far.notifications =~= before);
        assert(so_far.followed_by(start.drain().1) =~= start.drain().1) by {
            assert(so_far.notifications + start.drain().1.notifications
                =~= start.drain().1.notifications);
        }
        while self.deferred.len() > 0 && !matches!(self.state, MonitorState::Checking)
            invariant
                start.drain().0 == self@.drain().0,
                start.drain().1 == so_far.followed_by(self@.drain().1),
                messages_of(notifications@) == before + so_far.notifications,
                command == so_far.command,
            decreases self.deferred.len(),
        {
            let ghost current = self@;
            let ghost joined = messages_of(notifications@);
            let trigger = self.deferred.pop_front().unwrap();
            assert(self.deferred@ =~= current.deferred.drop_first());
            let ghost rest = self@;
            let taken = self.take_up(trigger, notifications);
            proof {
                let first = rest.take_up(trigger).1;
                let later = self@.drain().1;
                assert(current.drain().1 == first.followed_by(later));
                let grown = so_far.followed_by(first);
                assert(grown.followed_by(later) =~= so_far.followed_by(first.followed_by(later)))
                    by {
                    assert((so_far.notifications + first.notifications) + later.notifications
                        =~= so_far.notifications + (first.notifications + later.notifications));
                }
                assert(before + grown.notifications =~= joined + first.notifications);
                so_far = grown;
            }
            if matches!(command, Command::Continue) {
                command = taken;
            }
        }
        proof {
            assert(self@.drain() == (self@, ReactionView::nothing()));
            assert(so_far.followed_by(ReactionView::nothing()) =~= so_far) by {
                assert(so_far.notifications + Seq::<SinkMessageView>::empty()
                    =~= so_far.notifications);
            }
        }
        command
    }

    /// Answers an input and moves to the state that follows it.
    pub fn handle(&mut self, input: Input) -> (reaction: Reaction)
        ensures
            (final(self)@, reaction@) == old(self)@.step(input@),
    {
        if let Some(reason) = self.exit {
            let reaction = Reaction { notifications: Vec::new(), command: Command::Exit(reason) };
            assert(reaction@.notifications =~= Seq::empty());
            return reaction;
        }
        let mut notifications: Vec<SinkMessage> = Vec::new();
        assert(messages_of(notifications@) =~= Seq::empty());
        match input {
            Input::ChannelClosed => self.stop(ExitReason::ChannelClosed),
            Input::Event(Event::Shutdown) => self.stop(ExitReason::Shutdown),
            Input::Event(Event::UpdatesResolved(names)) => {
                let message = self.resolved(names);
                notifications.push(message);
                let reaction = Reaction { notifications, command: Command::Continue };
                assert(reaction@.notifications =~= seq![message@]);
                reaction
            },
            Input::Event(Event::CheckRequested) => self.on_trigger(Trigger::CheckRequested),
            Input::Event(Event::DatabaseChanging) => self.on_trigger(Trigger::DatabaseChanging),
            Input::SettleElapsed => {
                let command = if matches!(self.state, MonitorState::Settling) {
                    self.state = MonitorState::Checking;
                    notifications.push(SinkMessage::CheckingStarted);
                    Command::RunCheck
                } else {
                    Command::Continue
                };
                let reaction = Reaction { notifications, command };
                assert(reaction@.notifications =~= old(self)@.step(input@).1.notifications);
                reaction
            },
            Input::CheckFinished(result) => {
                if !matches!(self.state, MonitorState::Checking) {
                    let reaction = Reaction { notifications, command: Command::Continue };
                    return reaction;
                }
                self.state = MonitorState::Idle;
                match result {
                    Err(error) => self.stop(ExitReason::CheckFailed(error)),
                    Ok(names) => {
                        let message = self.resolved(names);
                        notifications.push(message);
                        assert(messages_of(notifications@) =~= seq![message@]);
                        let command = self.drain(&mut notifications);
                        Reaction { notifications, command }
                    },
                }
            },
        }
    }

    /// Answers a request for a check.
    fn on_trigger(&mut self, trigger: Trigger) -> (reaction: Reaction)
        requires
            old(self)@.exit is None,
        ensures
            (final(self)@, reaction@) == old(self)@.on_trigger(trigger),
    {
        let mut notifications: Vec<SinkMessage> = Vec::new();
        assert(messages_of(notifications@) =~= Seq::empty());
        if matches!(self.state, MonitorState::Checking) {
            self.deferred.push_back(trigger);
            Reaction { notifications, command: Command::Continue }
        } else {
            let ghost caused = self@.take_up(trigger).1.notifications;
            let command = self.take_up(trigger, &mut notifications);
            assert(Seq::<SinkMessageView>::empty() + caused =~= caused);
            Reaction { notifications, command }
        }
    }
}

} // verus!
