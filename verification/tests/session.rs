use dictation::session::{
    begin, cleanup_stale, dropped_since, end, is_daemon_cmdline, parse_pid, process_up,
    launch_check, session_state, toggle, ControlError, Event, LaunchError, Markers, SessionState,
    Step, StopAction, StopEvent, Stopper, STOP_GRACE_POLLS, STOP_KILL_POLLS,
};

fn markers(active: bool, busy: bool, daemon_up: bool) -> Markers {
    Markers {
        active,
        busy,
        daemon_up,
    }
}

#[test]
fn session_state_reads_the_markers() {
    assert_eq!(session_state(true, true), SessionState::Listening);
    assert_eq!(session_state(false, true), SessionState::Dictating);
    assert_eq!(session_state(true, false), SessionState::Off);
    let c = cleanup_stale(markers(true, true, false));
    assert!(c.clear_active && c.clear_busy);
    let c = cleanup_stale(markers(true, true, true));
    assert!(!c.clear_active && !c.clear_busy);
}

#[test]
fn toggle_from_idle_starts_the_daemon() {
    let mut c = toggle();
    assert_eq!(c.step(Event::Start), Step::Observe);
    assert_eq!(c.step(Event::Observed(markers(false, false, false))), Step::Observe);
    assert_eq!(
        c.step(Event::Observed(markers(false, false, false))),
        Step::SetActive(true)
    );
    assert_eq!(c.step(Event::Done), Step::Launch);
    assert_eq!(c.step(Event::Launched(Ok(()))), Step::Observe);
    assert_eq!(c.step(Event::Observed(markers(true, false, false))), Step::Wait);
    assert_eq!(c.step(Event::Done), Step::Observe);
    assert_eq!(
        c.step(Event::Observed(markers(true, false, true))),
        Step::Finish(Ok(()))
    );
}

#[test]
fn toggle_while_listening_stops() {
    let mut c = toggle();
    c.step(Event::Start);
    c.step(Event::Observed(markers(true, false, true)));
    assert_eq!(
        c.step(Event::Observed(markers(true, false, true))),
        Step::SetActive(false)
    );
    assert_eq!(c.step(Event::Done), Step::StopEngine);
    assert_eq!(c.step(Event::Done), Step::Finish(Ok(())));
}

#[test]
fn failed_launch_withdraws_the_marker() {
    let mut c = begin();
    c.step(Event::Start);
    c.step(Event::Observed(markers(false, false, false)));
    c.step(Event::Observed(markers(false, false, false)));
    c.step(Event::Done);
    assert_eq!(
        c.step(Event::Launched(Err(LaunchError::Os(Some(2), "no such file".to_string())))),
        Step::SetActive(false)
    );
    assert_eq!(
        c.step(Event::Done),
        Step::Finish(Err(ControlError::Launch(LaunchError::Os(
            Some(2),
            "no such file".to_string()
        ))))
    );
}

#[test]
fn end_only_stops() {
    let mut c = end();
    assert_eq!(c.step(Event::Start), Step::SetActive(false));
    assert_eq!(c.step(Event::Done), Step::StopEngine);
    assert_eq!(c.step(Event::Done), Step::Finish(Ok(())));
}

#[test]
fn daemon_liveness_checks_the_pid_and_command_line() {
    assert_eq!(parse_pid(" 4242\n"), Some(4242));
    assert_eq!(parse_pid("nope"), None);
    assert_eq!(parse_pid(""), None);
    let cmdline = b"/usr/bin/dictation\0__native-run\0";
    assert!(is_daemon_cmdline(cmdline));
    assert!(!is_daemon_cmdline(b"/usr/bin/vim\0"));
    assert!(process_up(Some(4242), Some(cmdline)));
    assert!(!process_up(None, Some(cmdline)));
    assert!(!process_up(Some(4242), None));
    assert_eq!(dropped_since(5, 3), Some(2));
    assert_eq!(dropped_since(3, 3), None);
}

#[test]
fn every_documented_backend_can_be_launched() {
    for backend in ["whisper", "vosk", "native", "moonshine", "zipformer", "sensevoice"] {
        assert_eq!(launch_check(backend), Ok(()), "{backend}");
    }
    let error = launch_check("kaldi").unwrap_err();
    assert_eq!(
        error,
        LaunchError::Unsupported("backend `kaldi` not implemented".to_string())
    );
    assert_eq!(
        ControlError::Launch(error).to_string(),
        "backend `kaldi` not implemented"
    );
}

#[test]
fn a_daemon_that_exits_on_sigterm_is_not_killed() {
    let mut s = Stopper::new();
    assert_eq!(s.step(StopEvent::Start), StopAction::ReadPid);
    assert_eq!(s.step(StopEvent::Pid(true)), StopAction::Term);
    assert_eq!(s.step(StopEvent::Done), StopAction::Check);
    assert_eq!(s.step(StopEvent::Up(true)), StopAction::Wait);
    assert_eq!(s.step(StopEvent::Done), StopAction::Check);
    assert_eq!(s.step(StopEvent::Up(false)), StopAction::Done);
}

#[test]
fn a_daemon_that_ignores_sigterm_is_killed_after_eight_seconds() {
    let mut s = Stopper::new();
    assert_eq!(s.step(StopEvent::Start), StopAction::ReadPid);
    assert_eq!(s.step(StopEvent::Pid(true)), StopAction::Term);
    assert_eq!(s.step(StopEvent::Done), StopAction::Check);
    let mut waits = 0;
    loop {
        assert_eq!(s.step(StopEvent::Up(true)), StopAction::Wait);
        waits += 1;
        match s.step(StopEvent::Done) {
            StopAction::Check => {}
            StopAction::ReadPid => break,
            other => panic!("unexpected {other:?}"),
        }
    }
    assert_eq!(waits, STOP_GRACE_POLLS);
    assert_eq!(s.step(StopEvent::Pid(true)), StopAction::Kill);
    assert_eq!(s.step(StopEvent::Done), StopAction::Check);
    let mut waits = 0;
    loop {
        assert_eq!(s.step(StopEvent::Up(true)), StopAction::Wait);
        waits += 1;
        match s.step(StopEvent::Done) {
            StopAction::Check => {}
            StopAction::Done => break,
            other => panic!("unexpected {other:?}"),
        }
    }
    assert_eq!(waits, STOP_KILL_POLLS);
}

#[test]
fn without_a_pid_nothing_is_signalled() {
    let mut s = Stopper::new();
    assert_eq!(s.step(StopEvent::Start), StopAction::ReadPid);
    assert_eq!(s.step(StopEvent::Pid(false)), StopAction::Check);
    assert_eq!(s.step(StopEvent::Up(false)), StopAction::Done);
}

#[test]
fn begin_leaves_a_running_session_alone() {
    let mut c = begin();
    assert_eq!(c.step(Event::Start), Step::Observe);
    assert_eq!(c.step(Event::Observed(markers(true, true, true))), Step::Observe);
    assert_eq!(
        c.step(Event::Observed(markers(true, false, true))),
        Step::Finish(Ok(()))
    );
}
