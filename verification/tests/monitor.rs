use arch_updates_rs::checker::CheckError;
use arch_updates_rs::config::Config;
use arch_updates_rs::event::{Event, SinkMessage};
use arch_updates_rs::monitor::{
    Command, ExitReason, Input, Monitor, MonitorState, Reaction, SETTLE_DELAY_MS,
};
use arch_updates_rs::severity::Severity;

fn names(count: usize) -> Vec<String> {
    (0..count).map(|index| format!("package-{index} 1.0 -> 1.1")).collect()
}

fn nothing() -> Reaction {
    Reaction { notifications: Vec::new(), command: Command::Continue }
}

fn resolved(severity: Severity, identifiers: Vec<String>) -> SinkMessage {
    SinkMessage::Resolved { severity, count: identifiers.len(), identifiers }
}

fn checking() -> Monitor {
    let mut monitor = Monitor::new(Config::default());
    monitor.handle(Input::Event(Event::CheckRequested));
    monitor
}

fn settling() -> Monitor {
    let mut monitor = Monitor::new(Config::default());
    monitor.handle(Input::Event(Event::DatabaseChanging));
    monitor
}

#[test]
fn settle_delay_is_five_seconds() {
    assert_eq!(SETTLE_DELAY_MS, 5000);
}

#[test]
fn monitor_starts_idle() {
    let monitor = Monitor::new(Config::default());
    assert_eq!(monitor.state(), MonitorState::Idle);
    assert_eq!(monitor.exit_reason(), None);
    assert_eq!(monitor.waiting(), 0);
}

#[test]
fn check_request_when_idle_starts_a_check() {
    let mut monitor = Monitor::new(Config::default());
    let reaction = monitor.handle(Input::Event(Event::CheckRequested));
    assert_eq!(reaction.notifications, vec![SinkMessage::CheckingStarted]);
    assert_eq!(reaction.command, Command::RunCheck);
    assert_eq!(monitor.state(), MonitorState::Checking);
}

#[test]
fn finished_check_is_reported_and_leaves_the_monitor_idle() {
    let mut monitor = checking();
    let reaction = monitor.handle(Input::CheckFinished(Ok(names(3))));
    assert_eq!(reaction.notifications, vec![resolved(Severity::Normal, names(3))]);
    assert_eq!(reaction.command, Command::Continue);
    assert_eq!(monitor.state(), MonitorState::Idle);
}

#[test]
fn empty_list_is_reported_as_no_updates() {
    let mut monitor = checking();
    let reaction = monitor.handle(Input::CheckFinished(Ok(Vec::new())));
    assert_eq!(reaction.notifications, vec![resolved(Severity::NoUpdates, Vec::new())]);
    assert_eq!(reaction.command, Command::Continue);
}

#[test]
fn failed_check_ends_the_loop() {
    for error in [CheckError::SpawnFailed, CheckError::ReadFailed, CheckError::ExitFailed] {
        let mut monitor = checking();
        let reaction = monitor.handle(Input::CheckFinished(Err(error)));
        assert_eq!(reaction.notifications, Vec::new());
        assert_eq!(reaction.command, Command::Exit(ExitReason::CheckFailed(error)));
        assert_eq!(monitor.exit_reason(), Some(ExitReason::CheckFailed(error)));
        assert_eq!(monitor.state(), MonitorState::Idle);
    }
}

#[test]
fn database_change_when_idle_schedules_a_check() {
    let mut monitor = Monitor::new(Config::default());
    let reaction = monitor.handle(Input::Event(Event::DatabaseChanging));
    assert_eq!(reaction.notifications, vec![SinkMessage::UpdatingStarted]);
    assert_eq!(reaction.command, Command::ScheduleCheck { delay_ms: 5000 });
    assert_eq!(monitor.state(), MonitorState::Settling);
}

#[test]
fn requests_while_settling_are_superseded() {
    let mut monitor = settling();
    assert_eq!(monitor.handle(Input::Event(Event::DatabaseChanging)), nothing());
    assert_eq!(monitor.handle(Input::Event(Event::CheckRequested)), nothing());
    assert_eq!(monitor.state(), MonitorState::Settling);
    assert_eq!(monitor.waiting(), 0);
}

#[test]
fn elapsed_settle_delay_starts_the_scheduled_check() {
    let mut monitor = settling();
    let reaction = monitor.handle(Input::SettleElapsed);
    assert_eq!(reaction.notifications, vec![SinkMessage::CheckingStarted]);
    assert_eq!(reaction.command, Command::RunCheck);
    assert_eq!(monitor.state(), MonitorState::Checking);
    monitor.handle(Input::CheckFinished(Ok(Vec::new())));
    assert_eq!(monitor.state(), MonitorState::Idle);
}

#[test]
fn stale_settle_timer_is_ignored() {
    let mut idle = Monitor::new(Config::default());
    assert_eq!(idle.handle(Input::SettleElapsed), nothing());
    assert_eq!(idle.state(), MonitorState::Idle);
    let mut busy = checking();
    assert_eq!(busy.handle(Input::SettleElapsed), nothing());
    assert_eq!(busy.state(), MonitorState::Checking);
}

#[test]
fn stale_check_result_is_ignored() {
    let mut idle = Monitor::new(Config::default());
    assert_eq!(idle.handle(Input::CheckFinished(Ok(names(2)))), nothing());
    assert_eq!(idle.handle(Input::CheckFinished(Err(CheckError::ReadFailed))), nothing());
    assert_eq!(idle.exit_reason(), None);
    let mut waiting = settling();
    assert_eq!(waiting.handle(Input::CheckFinished(Ok(names(2)))), nothing());
    assert_eq!(waiting.state(), MonitorState::Settling);
}

#[test]
fn requests_during_a_check_wait_and_start_no_second_check() {
    let mut monitor = checking();
    let burst = [
        Event::CheckRequested,
        Event::DatabaseChanging,
        Event::CheckRequested,
        Event::CheckRequested,
        Event::DatabaseChanging,
    ];
    let mut held = 0;
    for event in burst {
        assert_eq!(monitor.handle(Input::Event(event)), nothing());
        held += 1;
        assert_eq!(monitor.waiting(), held);
        assert_eq!(monitor.state(), MonitorState::Checking);
    }
}

#[test]
fn waiting_check_requests_run_one_after_the_other() {
    let mut monitor = checking();
    monitor.handle(Input::Event(Event::CheckRequested));
    monitor.handle(Input::Event(Event::CheckRequested));
    assert_eq!(monitor.waiting(), 2);

    let second = monitor.handle(Input::CheckFinished(Ok(names(1))));
    assert_eq!(
        second.notifications,
        vec![resolved(Severity::Normal, names(1)), SinkMessage::CheckingStarted]
    );
    assert_eq!(second.command, Command::RunCheck);
    assert_eq!(monitor.state(), MonitorState::Checking);
    assert_eq!(monitor.waiting(), 1);

    let third = monitor.handle(Input::CheckFinished(Ok(names(2))));
    assert_eq!(third.command, Command::RunCheck);
    assert_eq!(monitor.waiting(), 0);

    let last = monitor.handle(Input::CheckFinished(Ok(names(3))));
    assert_eq!(last.notifications, vec![resolved(Severity::Normal, names(3))]);
    assert_eq!(last.command, Command::Continue);
    assert_eq!(monitor.state(), MonitorState::Idle);
}

#[test]
fn waiting_database_change_is_taken_up_after_the_check() {
    let mut monitor = checking();
    monitor.handle(Input::Event(Event::DatabaseChanging));
    monitor.handle(Input::Event(Event::CheckRequested));
    monitor.handle(Input::Event(Event::DatabaseChanging));

    let reaction = monitor.handle(Input::CheckFinished(Ok(Vec::new())));
    assert_eq!(
        reaction.notifications,
        vec![resolved(Severity::NoUpdates, Vec::new()), SinkMessage::UpdatingStarted]
    );
    assert_eq!(reaction.command, Command::ScheduleCheck { delay_ms: SETTLE_DELAY_MS });
    assert_eq!(monitor.state(), MonitorState::Settling);
    assert_eq!(monitor.waiting(), 0);
}

#[test]
fn exactly_one_check_is_in_flight_over_a_long_run() {
    let mut monitor = Monitor::new(Config::default());
    let mut in_flight = 0;
    let mut started = 0;
    for round in 0..200u32 {
        let input = match round % 7 {
            0 | 3 => Input::Event(Event::CheckRequested),
            1 | 4 => Input::Event(Event::DatabaseChanging),
            2 => Input::SettleElapsed,
            5 => Input::Event(Event::UpdatesResolved(names(2))),
            _ => Input::CheckFinished(Ok(names(round as usize % 4))),
        };
        let ends = matches!(input, Input::CheckFinished(_))
            && monitor.state() == MonitorState::Checking;
        let reaction = monitor.handle(input);
        if ends {
            in_flight -= 1;
        }
        if reaction.command == Command::RunCheck {
            in_flight += 1;
            started += 1;
        }
        assert!(in_flight == 0 || in_flight == 1);
        assert_eq!(in_flight == 1, monitor.state() == MonitorState::Checking);
        if monitor.state() != MonitorState::Checking {
            assert_eq!(monitor.waiting(), 0);
        }
    }
    assert!(started > 1);
}

#[test]
fn shutdown_ends_the_loop_in_every_state() {
    for mut monitor in [Monitor::new(Config::default()), checking(), settling()] {
        let state = monitor.state();
        let reaction = monitor.handle(Input::Event(Event::Shutdown));
        assert_eq!(reaction.notifications, Vec::new());
        assert_eq!(reaction.command, Command::Exit(ExitReason::Shutdown));
        assert_eq!(monitor.exit_reason(), Some(ExitReason::Shutdown));
        assert_eq!(monitor.state(), state);
    }
}

#[test]
fn shutdown_leaves_waiting_checks_unrun() {
    let mut monitor = checking();
    monitor.handle(Input::Event(Event::CheckRequested));
    monitor.handle(Input::Event(Event::CheckRequested));
    let reaction = monitor.handle(Input::Event(Event::Shutdown));
    assert_eq!(reaction.command, Command::Exit(ExitReason::Shutdown));
    assert_eq!(monitor.waiting(), 2);

    let after = monitor.handle(Input::CheckFinished(Ok(names(1))));
    assert_eq!(after.notifications, Vec::new());
    assert_eq!(after.command, Command::Exit(ExitReason::Shutdown));
    assert_eq!(monitor.waiting(), 2);
}

#[test]
fn shutdown_leaves_the_scheduled_check_unrun() {
    let mut monitor = settling();
    monitor.handle(Input::Event(Event::Shutdown));
    let after = monitor.handle(Input::SettleElapsed);
    assert_eq!(after.notifications, Vec::new());
    assert_eq!(after.command, Command::Exit(ExitReason::Shutdown));
    assert_eq!(monitor.state(), MonitorState::Settling);
}

#[test]
fn second_shutdown_changes_nothing() {
    let mut monitor = Monitor::new(Config::default());
    let first = monitor.handle(Input::Event(Event::Shutdown));
    let second = monitor.handle(Input::Event(Event::Shutdown));
    assert_eq!(first, second);
    assert_eq!(monitor.exit_reason(), Some(ExitReason::Shutdown));
    assert_eq!(monitor.state(), MonitorState::Idle);
}

#[test]
fn nothing_happens_after_the_loop_has_ended() {
    let mut monitor = Monitor::new(Config::default());
    monitor.handle(Input::ChannelClosed);
    let left = Reaction {
        notifications: Vec::new(),
        command: Command::Exit(ExitReason::ChannelClosed),
    };
    assert_eq!(monitor.handle(Input::Event(Event::CheckRequested)), left);
    assert_eq!(monitor.handle(Input::Event(Event::DatabaseChanging)), left);
    assert_eq!(monitor.handle(Input::Event(Event::UpdatesResolved(names(1)))), left);
    assert_eq!(monitor.handle(Input::Event(Event::Shutdown)), left);
    assert_eq!(monitor.handle(Input::SettleElapsed), left);
    assert_eq!(monitor.state(), MonitorState::Idle);
    assert_eq!(monitor.exit_reason(), Some(ExitReason::ChannelClosed));
}

#[test]
fn closed_channel_ends_the_loop_with_a_failure() {
    for mut monitor in [Monitor::new(Config::default()), checking(), settling()] {
        let reaction = monitor.handle(Input::ChannelClosed);
        assert_eq!(reaction.command, Command::Exit(ExitReason::ChannelClosed));
        assert_eq!(reaction.notifications, Vec::new());
    }
    assert_eq!(ExitReason::ChannelClosed.exit_code(), 1);
}

#[test]
fn orderly_ends_have_status_zero() {
    assert_eq!(ExitReason::Shutdown.exit_code(), 0);
    assert_eq!(ExitReason::CheckFailed(CheckError::SpawnFailed).exit_code(), 0);
    assert_eq!(ExitReason::CheckFailed(CheckError::ReadFailed).exit_code(), 0);
    assert_eq!(ExitReason::CheckFailed(CheckError::ExitFailed).exit_code(), 0);
}

#[test]
fn resolved_updates_are_forwarded_in_every_state() {
    for mut monitor in [Monitor::new(Config::default()), checking(), settling()] {
        let state = monitor.state();
        let reaction = monitor.handle(Input::Event(Event::UpdatesResolved(names(100))));
        assert_eq!(reaction.notifications, vec![resolved(Severity::Critical, names(100))]);
        assert_eq!(reaction.command, Command::Continue);
        assert_eq!(monitor.state(), state);
        assert_eq!(monitor.waiting(), 0);
    }
}

#[test]
fn severity_follows_the_configured_thresholds() {
    let config = Config { interval_seconds: 60, warning_threshold: 2, critical_threshold: 4 };
    let expected = [
        Severity::NoUpdates,
        Severity::Normal,
        Severity::Warning,
        Severity::Warning,
        Severity::Critical,
    ];
    for (count, severity) in expected.into_iter().enumerate() {
        let mut monitor = Monitor::new(config);
        monitor.handle(Input::Event(Event::CheckRequested));
        let reaction = monitor.handle(Input::CheckFinished(Ok(names(count))));
        assert_eq!(reaction.notifications, vec![resolved(severity, names(count))]);
    }
}
