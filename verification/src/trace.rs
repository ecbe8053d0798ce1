//! What holds of the monitor over whole runs of the event loop.
//!
//! A run is a sequence of inputs handed to the monitor one after the
//! other. The lemmas here are about every run: that never more than one
//! check is in flight, that requests made meanwhile wait in order, that a
//! burst of database changes causes one follow-up check, and that nothing
//! happens any more once the loop has ended.

use crate::event::{EventView, SinkMessageView};
use crate::monitor::{
    Command, ExitReason, InputView, MonitorState, MonitorView, ReactionView, Trigger,
    SETTLE_DELAY_MS,
};
use vstd::prelude::*;

verus! {

/// The monitor after a run, and its answers in order.
pub open spec fn run(monitor: MonitorView, inputs: Seq<InputView>) -> (
    MonitorView,
    Seq<ReactionView>,
)
    decreases inputs.len(),
{
    if inputs.len() == 0 {
        (monitor, Seq::empty())
    } else {
        let (before, answers) = run(monitor, inputs.drop_last());
        let (after, answer) = before.step(inputs.last());
        (after, answers.push(answer))
    }
}

/// The number of checks that the answers command.
pub open spec fn checks_commanded(answers: Seq<ReactionView>) -> nat
    decreases answers.len(),
{
    if answers.len() == 0 {
        0
    } else {
        checks_commanded(answers.drop_last()) + if answers.last().command is RunCheck {
            1nat
        } else {
            0nat
        }
    }
}

/// Whether `input` ends a check that `monitor` has in flight.
pub open spec fn ends_check(monitor: MonitorView, input: InputView) -> bool {
    monitor.exit is None && monitor.state is Checking && input is CheckFinished
}

/// The number of checks that end during a run.
pub open spec fn checks_ended(monitor: MonitorView, inputs: Seq<InputView>) -> nat
    decreases inputs.len(),
{
    if inputs.len() == 0 {
        0
    } else {
        checks_ended(monitor, inputs.drop_last()) + if ends_check(
            run(monitor, inputs.drop_last()).0,
            inputs.last(),
        ) {
            1nat
        } else {
            0nat
        }
    }
}

/// The number of checks that `monitor` has in flight: one or none.
pub open spec fn in_flight(monitor: MonitorView) -> nat {
    if monitor.state is Checking {
        1
    } else {
        0
    }
}

/// The event that makes a request.
pub open spec fn event_of(trigger: Trigger) -> InputView {
    match trigger {
        Trigger::CheckRequested => InputView::Event(EventView::CheckRequested),
        Trigger::DatabaseChanging => InputView::Event(EventView::DatabaseChanging),
    }
}

/// The events that make a sequence of requests.
pub open spec fn events_of(triggers: Seq<Trigger>) -> Seq<InputView> {
    Seq::new(triggers.len(), |i: int| event_of(triggers[i]))
}

/// While the database settles, waiting requests are superseded one and
/// all: none starts a check or a second delay.
pub proof fn lemma_drain_while_settling(monitor: MonitorView)
    requires
        monitor.state is Settling,
    ensures
        monitor.drain() == (
            MonitorView { deferred: Seq::empty(), ..monitor },
            ReactionView::nothing(),
        ),
    decreases monitor.deferred.len(),
{
    if monitor.deferred.len() == 0 {
        assert(monitor.deferred =~= Seq::empty());
    } else {
        let rest = MonitorView { deferred: monitor.deferred.drop_first(), ..monitor };
        lemma_drain_while_settling(rest);
        assert(ReactionView::nothing().followed_by(ReactionView::nothing())
            == ReactionView::nothing()) by {
            assert(Seq::<SinkMessageView>::empty() + Seq::<SinkMessageView>::empty()
                =~= Seq::<SinkMessageView>::empty());
        }
    }
}

/// Taking up the waiting requests commands a check exactly when it leaves
/// one in flight, and leaves requests waiting only behind such a check.
pub proof fn lemma_drain(monitor: MonitorView)
    ensures
        in_flight(monitor) + (if monitor.drain().1.command is RunCheck {
            1nat
        } else {
            0nat
        }) == in_flight(monitor.drain().0),
        monitor.drain().0.state is Checking || monitor.drain().0.deferred.len() == 0,
        monitor.drain().0.exit == monitor.exit,
        monitor.drain().0.config == monitor.config,
    decreases monitor.deferred.len(),
{
    if monitor.deferred.len() == 0 || monitor.state is Checking {
    } else {
        let rest = MonitorView { deferred: monitor.deferred.drop_first(), ..monitor };
        let (taken, first) = rest.take_up(monitor.deferred[0]);
        lemma_drain(taken);
        if taken.state is Settling {
            lemma_drain_while_settling(taken);
        }
    }
}

/// One step keeps the account of checks: those in flight before it and
/// the one it may command are those it may end and those in flight after.
pub proof fn lemma_step_single_flight(monitor: MonitorView, input: InputView)
    ensures
        in_flight(monitor) + (if monitor.step(input).1.command is RunCheck {
            1nat
        } else {
            0nat
        }) == (if ends_check(monitor, input) {
            1nat
        } else {
            0nat
        }) + in_flight(monitor.step(input).0),
{
    if monitor.exit is None && monitor.state is Checking {
        if let InputView::CheckFinished(Ok(names)) = input {
            let idle = MonitorView { state: MonitorState::Idle, ..monitor };
            lemma_drain(idle);
        }
    }
}

/// A check is commanded only when none is in flight, and is in flight
/// from then on.
pub proof fn lemma_check_starts_alone(monitor: MonitorView, input: InputView)
    requires
        monitor.step(input).1.command is RunCheck,
    ensures
        monitor.step(input).0.state is Checking,
        !(monitor.state is Checking) || ends_check(monitor, input),
{
    lemma_step_single_flight(monitor, input);
}

/// Requests wait only while a check is in flight, before a step and so
/// after it.
pub proof fn lemma_step_keeps_well_formed(monitor: MonitorView, input: InputView)
    requires
        monitor.well_formed(),
    ensures
        monitor.step(input).0.well_formed(),
{
    if monitor.exit is None && monitor.state is Checking {
        if let InputView::CheckFinished(Ok(names)) = input {
            let idle = MonitorView { state: MonitorState::Idle, ..monitor };
            lemma_drain(idle);
        }
    }
}

/// Requests wait only while a check is in flight, at every point of
/// every run from the start of the process.
pub proof fn lemma_run_keeps_well_formed(monitor: MonitorView, inputs: Seq<InputView>)
    requires
        monitor.well_formed(),
    ensures
        run(monitor, inputs).0.well_formed(),
    decreases inputs.len(),
{
    if inputs.len() > 0 {
        lemma_run_keeps_well_formed(monitor, inputs.drop_last());
        lemma_step_keeps_well_formed(run(monitor, inputs.drop_last()).0, inputs.last());
    }
}

/// Never is a second check commanded while one is in flight: over every
/// run, the checks commanded are those that ended and the one, if any,
/// that is in flight at its end.
pub proof fn lemma_single_flight(monitor: MonitorView, inputs: Seq<InputView>)
    ensures
        in_flight(monitor) + checks_commanded(run(monitor, inputs).1) == checks_ended(
            monitor,
            inputs,
        ) + in_flight(run(monitor, inputs).0),
        in_flight(monitor) + checks_commanded(run(monitor, inputs).1) <= checks_ended(
            monitor,
            inputs,
        ) + 1,
    decreases inputs.len(),
{
    if inputs.len() > 0 {
        let (before, answers) = run(monitor, inputs.drop_last());
        lemma_single_flight(monitor, inputs.drop_last());
        lemma_step_single_flight(before, inputs.last());
        assert(run(monitor, inputs).1.drop_last() =~= answers);
    }
}

/// Requests that arrive while a check is in flight start no check and
/// cause no message: they are kept, each and in order of arrival, behind
/// those that wait already.
pub proof fn lemma_requests_wait_during_check(monitor: MonitorView, triggers: Seq<Trigger>)
    requires
        monitor.exit is None,
        monitor.state is Checking,
    ensures
        run(monitor, events_of(triggers)).0 == (MonitorView {
            deferred: monitor.deferred + triggers,
            ..monitor
        }),
        checks_commanded(run(monitor, events_of(triggers)).1) == 0,
        run(monitor, events_of(triggers)).1.len() == triggers.len(),
        forall|i: int|
            0 <= i < triggers.len() ==> #[trigger] run(monitor, events_of(triggers)).1[i]
                == ReactionView::nothing(),
    decreases triggers.len(),
{
    let inputs = events_of(triggers);
    if triggers.len() == 0 {
        assert(monitor.deferred + triggers =~= monitor.deferred);
    } else {
        let earlier = triggers.drop_last();
        lemma_requests_wait_during_check(monitor, earlier);
        assert(inputs.drop_last() =~= events_of(earlier));
        assert(inputs.last() == event_of(triggers.last()));
        let (before, answers) = run(monitor, inputs.drop_last());
        assert((monitor.deferred + earlier).push(triggers.last()) =~= monitor.deferred + triggers);
        assert(run(monitor, inputs).1.drop_last() =~= answers);
    }
}

/// Of the requests that arrive at an idle monitor before a check has
/// ended, the first that asks for a check at once starts it and all that
/// follow wait: one check is commanded, none is lost.
pub proof fn lemma_burst_runs_one_check(monitor: MonitorView, triggers: Seq<Trigger>)
    requires
        monitor.exit is None,
        monitor.state is Idle,
        monitor.deferred.len() == 0,
        triggers.len() > 0,
        triggers[0] == Trigger::CheckRequested,
    ensures
        run(monitor, events_of(triggers)).0 == (MonitorView {
            state: MonitorState::Checking,
            deferred: triggers.drop_first(),
            ..monitor
        }),
        checks_commanded(run(monitor, events_of(triggers)).1) == 1,
    decreases triggers.len(),
{
    let inputs = events_of(triggers);
    let (before, answers) = run(monitor, inputs.drop_last());
    assert(run(monitor, inputs).1.drop_last() =~= answers);
    assert(inputs.last() == event_of(triggers.last()));
    if triggers.len() == 1 {
        assert(inputs.drop_last() =~= Seq::<InputView>::empty());
        assert(checks_commanded(answers) == 0);
        assert(monitor.deferred =~= triggers.drop_first());
    } else {
        let earlier = triggers.drop_last();
        lemma_burst_runs_one_check(monitor, earlier);
        assert(inputs.drop_last() =~= events_of(earlier));
        assert(earlier.drop_first().push(triggers.last()) =~= triggers.drop_first());
    }
}

/// A change to the package database met by an idle monitor is announced
/// and schedules one check after the settle delay.
pub proof fn lemma_change_schedules_check(monitor: MonitorView)
    requires
        monitor.exit is None,
        monitor.state is Idle,
    ensures
        monitor.step(InputView::Event(EventView::DatabaseChanging)) == (
            MonitorView { state: MonitorState::Settling, ..monitor },
            ReactionView {
                notifications: seq![SinkMessageView::UpdatingStarted],
                command: Command::ScheduleCheck { delay_ms: SETTLE_DELAY_MS },
            },
        ),
{
}

/// Requests that arrive while the database settles change nothing: the
/// delay is not started again and the one scheduled check stays due.
pub proof fn lemma_requests_superseded_while_settling(
    monitor: MonitorView,
    triggers: Seq<Trigger>,
)
    requires
        monitor.exit is None,
        monitor.state is Settling,
    ensures
        run(monitor, events_of(triggers)).0 == monitor,
        run(monitor, events_of(triggers)).1.len() == triggers.len(),
        forall|i: int|
            0 <= i < triggers.len() ==> #[trigger] run(monitor, events_of(triggers)).1[i]
                == ReactionView::nothing(),
    decreases triggers.len(),
{
    let inputs = events_of(triggers);
    if triggers.len() > 0 {
        let earlier = triggers.drop_last();
        lemma_requests_superseded_while_settling(monitor, earlier);
        assert(inputs.drop_last() =~= events_of(earlier));
        assert(inputs.last() == event_of(triggers.last()));
    }
}

/// When the settle delay has passed the scheduled check starts.
pub proof fn lemma_settled_starts_check(monitor: MonitorView)
    requires
        monitor.exit is None,
        monitor.state is Settling,
    ensures
        monitor.step(InputView::SettleElapsed) == (
            MonitorView { state: MonitorState::Checking, ..monitor },
            ReactionView {
                notifications: seq![SinkMessageView::CheckingStarted],
                command: Command::RunCheck,
            },
        ),
{
}

/// A shutdown event ends the loop in whatever state it finds it: no
/// message is sent, no check is commanded, and what was waiting or
/// scheduled is left as it was.
pub proof fn lemma_shutdown_ends_loop(monitor: MonitorView)
    requires
        monitor.exit is None,
    ensures
        monitor.step(InputView::Event(EventView::Shutdown)) == (
            MonitorView { exit: Some(ExitReason::Shutdown), ..monitor },
            ReactionView {
                notifications: Seq::empty(),
                command: Command::Exit(ExitReason::Shutdown),
            },
        ),
{
}

/// Once the loop has ended it stays ended: whatever is handed in, the
/// monitor does not change, no message is sent and no check is
/// commanded. A second shutdown event is such an input.
pub proof fn lemma_nothing_after_exit(monitor: MonitorView, inputs: Seq<InputView>)
    requires
        monitor.exit is Some,
    ensures
        run(monitor, inputs).0 == monitor,
        checks_commanded(run(monitor, inputs).1) == 0,
        run(monitor, inputs).1.len() == inputs.len(),
        forall|i: int|
            0 <= i < inputs.len() ==> #[trigger] run(monitor, inputs).1[i] == (ReactionView {
                notifications: Seq::empty(),
                command: Command::Exit(monitor.exit->0),
            }),
    decreases inputs.len(),
{
    if inputs.len() > 0 {
        lemma_nothing_after_exit(monitor, inputs.drop_last());
        let (before, answers) = run(monitor, inputs.drop_last());
        assert(run(monitor, inputs).1.drop_last() =~= answers);
    }
}

/// A list of pending updates that arrives as an event goes to the sinks
/// and changes nothing, in every state.
pub proof fn lemma_updates_forwarded(monitor: MonitorView, names: Seq<Seq<char>>)
    requires
        monitor.exit is None,
    ensures
        monitor.step(InputView::Event(EventView::UpdatesResolved(names))) == (
            monitor,
            ReactionView {
                notifications: seq![monitor.resolved(names)],
                command: Command::Continue,
            },
        ),
{
}

} // verus!
