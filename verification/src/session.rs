//! Session state and the serialized start/stop/toggle protocol.
//!
//! The markers live in files and the daemon is a separate process, so
//! the protocol is a state machine: [`Control::step`] takes what the
//! caller observed or did and says what to do next. The caller holds the
//! inter-process control lock for the whole run.
use crate::text::{
    all_digits, chars_of, concat3, digits_value, lemma_digits_value_grows, owned, parse_u32, str_eq,
};
use vstd::prelude::*;

verus! {

/// User-visible lifecycle of one dictation session.
#[derive(Debug, Clone, Copy, PartialEq, Eq, Structural)]
pub enum SessionState {
    Off,
    Listening,
    Dictating,
}

pub open spec fn state_of(active: bool, daemon_up: bool) -> SessionState {
    if active && daemon_up {
        SessionState::Listening
    } else if daemon_up {
        SessionState::Dictating
    } else {
        SessionState::Off
    }
}

/// The shared session markers as one user-visible state: listening while
/// the microphone is on and the daemon runs, dictating while the daemon
/// finishes its tail with the microphone off, otherwise off.
pub fn session_state(active: bool, daemon_up: bool) -> (r: SessionState)
    ensures
        r == state_of(active, daemon_up),
{
    if active && daemon_up {
        SessionState::Listening
    } else if daemon_up {
        SessionState::Dictating
    } else {
        SessionState::Off
    }
}

/// One reading of the shared markers.
#[derive(Debug, Clone, Copy, PartialEq, Eq, Structural)]
pub struct Markers {
    /// The active marker exists (the microphone should be on).
    pub active: bool,
    /// The busy marker exists (a speech segment is open).
    pub busy: bool,
    /// The daemon's pidfile names a live daemon.
    pub daemon_up: bool,
}

/// Which stale markers to remove: none while a daemon runs.
#[derive(Debug, Clone, Copy, PartialEq, Eq, Structural)]
pub struct Cleanup {
    pub clear_active: bool,
    pub clear_busy: bool,
}

/// Remove stale active/busy markers when no daemon is running.
pub fn cleanup_stale(m: Markers) -> (r: Cleanup)
    ensures
        r.clear_active == (!m.daemon_up && m.active),
        r.clear_busy == (!m.daemon_up && m.busy),
{
    Cleanup { clear_active: !m.daemon_up && m.active, clear_busy: !m.daemon_up && m.busy }
}

/// Backends the daemon can be launched for.
pub open spec fn launchable(backend: Seq<char>) -> bool {
    ||| backend == "native"@
    ||| backend == "vosk"@
    ||| backend == "whisper"@
    ||| backend == "moonshine"@
    ||| backend == "zipformer"@
    ||| backend == "sensevoice"@
}

/// Why the daemon could not be launched.
#[derive(Debug, PartialEq, Eq)]
pub enum LaunchError {
    /// The configured backend has no daemon (an unsupported request).
    Unsupported(String),
    /// Starting the process failed with this operating-system error: its
    /// error code, when there is one, and its message.
    Os(Option<i32>, String),
}

/// The message of a launch failure.
pub open spec fn launch_message(e: LaunchError) -> Seq<char> {
    match e {
        LaunchError::Unsupported(m) => m@,
        LaunchError::Os(_, m) => m@,
    }
}

/// A copy of a launch failure.
pub fn copy_launch_error(e: &LaunchError) -> (c: LaunchError)
    ensures
        c == *e,
{
    match e {
        LaunchError::Unsupported(m) => LaunchError::Unsupported(m.clone()),
        LaunchError::Os(code, m) => LaunchError::Os(*code, m.clone()),
    }
}

/// Whether the daemon can be launched for `backend`; the error names it.
pub fn launch_check(backend: &str) -> (r: Result<(), LaunchError>)
    ensures
        launchable(backend@) ==> r is Ok,
        !launchable(backend@) ==> (r matches Err(LaunchError::Unsupported(m)) && m@ == "backend `"@
            + backend@ + "` not implemented"@),
{
    if str_eq(backend, "native") || str_eq(backend, "vosk") || str_eq(backend, "whisper")
        || str_eq(backend, "moonshine") || str_eq(backend, "zipformer") || str_eq(
        backend,
        "sensevoice",
    ) {
        Ok(())
    } else {
        Err(LaunchError::Unsupported(concat3("backend `", backend, "` not implemented")))
    }
}

/// The user command being carried out.
#[derive(Debug, Clone, Copy, PartialEq, Eq, Structural)]
pub enum Command {
    /// Start when idle, stop when running.
    Toggle,
    /// Start; an existing session is left alone.
    Begin,
    /// Stop and let the daemon finish its final utterance.
    End,
}

/// Why a start failed.
#[derive(Debug, PartialEq, Eq)]
pub enum ControlError {
    /// The daemon could not be spawned.
    Launch(LaunchError),
    /// The daemon cleared the active marker before publishing its pid.
    ExitedDuringStartup,
    /// The daemon did not publish its pid within the polling budget.
    TimedOut,
}

/// A copy of an outcome.
pub fn copy_outcome(r: &Result<(), ControlError>) -> (c: Result<(), ControlError>)
    ensures
        c == *r,
{
    match r {
        Ok(u) => Ok(*u),
        Err(ControlError::Launch(e)) => Err(ControlError::Launch(copy_launch_error(e))),
        Err(ControlError::ExitedDuringStartup) => Err(ControlError::ExitedDuringStartup),
        Err(ControlError::TimedOut) => Err(ControlError::TimedOut),
    }
}

impl ControlError {
    /// The message shown to the user.
    pub fn to_string(&self) -> (r: String)
        ensures
            r@ == match *self {
                ControlError::Launch(e) => launch_message(e),
                ControlError::ExitedDuringStartup => "dictation engine exited during startup; check dictation-native.log"@,
                ControlError::TimedOut => "dictation engine did not start within one second"@,
            },
    {
        match self {
            ControlError::Launch(LaunchError::Unsupported(m)) => m.clone(),
            ControlError::Launch(LaunchError::Os(_, m)) => m.clone(),
            ControlError::ExitedDuringStartup => owned(
                "dictation engine exited during startup; check dictation-native.log",
            ),
            ControlError::TimedOut => owned("dictation engine did not start within one second"),
        }
    }
}

/// What the caller must do next.
#[derive(Debug, PartialEq, Eq)]
pub enum Step {
    /// Read the markers and answer with [`Event::Observed`].
    Observe,
    /// Create (`true`) or remove (`false`) the active marker, then answer
    /// [`Event::Done`].
    SetActive(bool),
    /// Remove (`false`) the busy marker, then answer [`Event::Done`].
    SetBusy(bool),
    /// Signal the daemon to flush and stop, wait for it, then answer
    /// [`Event::Done`].
    StopEngine,
    /// Spawn the daemon and answer [`Event::Launched`].
    Launch,
    /// Sleep one polling interval (20 ms), then answer [`Event::Done`].
    Wait,
    /// The command is over, with this outcome.
    Finish(Result<(), ControlError>),
}

/// What the caller saw or did since the last step.
#[derive(Debug, PartialEq, Eq)]
pub enum Event {
    /// The first event of a run.
    Start,
    /// The markers, as read for [`Step::Observe`].
    Observed(Markers),
    /// A marker update, stop, or wait is done.
    Done,
    /// The outcome of [`Step::Launch`].
    Launched(Result<(), LaunchError>),
}

/// Polling rounds (of 20 ms) granted to a starting daemon.
pub const START_POLLS: u32 = 50;

/// Where the protocol stands.
#[derive(Debug, PartialEq, Eq)]
pub enum Phase {
    /// Nothing done yet.
    Idle,
    /// Waiting for the first reading (stale-marker cleanup).
    CleanupRead,
    /// The active marker is being cleared; the busy marker may follow.
    ClearingActive { clear_busy: bool },
    /// The busy marker is being cleared.
    ClearingBusy,
    /// Waiting for the reading that decides between start and stop.
    DecideRead,
    /// A running daemon from an earlier session is being stopped before
    /// a new one starts.
    StoppingOld,
    /// The active marker is being published; the launch follows.
    Publishing,
    /// Waiting for the launch outcome.
    Launching,
    /// The launch failed; the active marker is being withdrawn.
    Withdrawing(LaunchError),
    /// Waiting for poll reading number `n` (from 0).
    Polling(u32),
    /// Sleeping after poll reading number `n`.
    Sleeping(u32),
    /// The polling budget ran out; the active marker is being withdrawn.
    GivingUp,
    /// Stopping: the active marker is being removed.
    Deactivating,
    /// Stopping: the daemon is being stopped.
    Stopping,
    /// The command is over.
    Finished(Result<(), ControlError>),
}

/// The next phase and step for a command in `phase` on `event`.
pub open spec fn next(cmd: Command, phase: Phase, event: Event) -> (Phase, Step) {
    match phase {
        Phase::Idle => if cmd == Command::End {
            (Phase::Deactivating, Step::SetActive(false))
        } else {
            (Phase::CleanupRead, Step::Observe)
        },
        Phase::CleanupRead => match event {
            Event::Observed(m) => if !m.daemon_up && m.active {
                (Phase::ClearingActive { clear_busy: m.busy }, Step::SetActive(false))
            } else if !m.daemon_up && m.busy {
                (Phase::ClearingBusy, Step::SetBusy(false))
            } else {
                (Phase::DecideRead, Step::Observe)
            },
            _ => (Phase::CleanupRead, Step::Observe),
        },
        Phase::ClearingActive { clear_busy } => if clear_busy {
            (Phase::ClearingBusy, Step::SetBusy(false))
        } else {
            (Phase::DecideRead, Step::Observe)
        },
        Phase::ClearingBusy => (Phase::DecideRead, Step::Observe),
        Phase::DecideRead => match event {
            Event::Observed(m) => if cmd == Command::Toggle && m.active {
                (Phase::Deactivating, Step::SetActive(false))
            } else if m.active && m.daemon_up {
                (Phase::Finished(Ok(())), Step::Finish(Ok(())))
            } else if m.daemon_up {
                (Phase::StoppingOld, Step::StopEngine)
            } else {
                (Phase::Publishing, Step::SetActive(true))
            },
            _ => (Phase::DecideRead, Step::Observe),
        },
        Phase::StoppingOld => (Phase::Publishing, Step::SetActive(true)),
        Phase::Publishing => (Phase::Launching, Step::Launch),
        Phase::Launching => match event {
            Event::Launched(Ok(())) => (Phase::Polling(0), Step::Observe),
            Event::Launched(Err(e)) => (Phase::Withdrawing(e), Step::SetActive(false)),
            _ => (Phase::Launching, Step::Launch),
        },
        Phase::Withdrawing(e) => (
            Phase::Finished(Err(ControlError::Launch(e))),
            Step::Finish(Err(ControlError::Launch(e))),
        ),
        Phase::Polling(n) => match event {
            Event::Observed(m) => if m.daemon_up {
                (Phase::Finished(Ok(())), Step::Finish(Ok(())))
            } else if !m.active {
                (
                    Phase::Finished(Err(ControlError::ExitedDuringStartup)),
                    Step::Finish(Err(ControlError::ExitedDuringStartup)),
                )
            } else {
                (Phase::Sleeping(n), Step::Wait)
            },
            _ => (Phase::Polling(n), Step::Observe),
        },
        Phase::Sleeping(n) => if n + 1 < START_POLLS {
            (Phase::Polling((n + 1) as u32), Step::Observe)
        } else {
            (Phase::GivingUp, Step::SetActive(false))
        },
        Phase::GivingUp => (
            Phase::Finished(Err(ControlError::TimedOut)),
            Step::Finish(Err(ControlError::TimedOut)),
        ),
        Phase::Deactivating => (Phase::Stopping, Step::StopEngine),
        Phase::Stopping => (Phase::Finished(Ok(())), Step::Finish(Ok(()))),
        Phase::Finished(r) => (Phase::Finished(r), Step::Finish(r)),
    }
}

/// Phases a run can be in: poll counters stay within the budget.
pub open spec fn phase_ok(phase: Phase) -> bool {
    match phase {
        Phase::Polling(n) => n < START_POLLS,
        Phase::Sleeping(n) => n < START_POLLS,
        _ => true,
    }
}

/// The protocol for one command.
#[derive(Debug)]
pub struct Control {
    pub command: Command,
    pub phase: Phase,
}

/// Toggle between microphone capture and stopped dictation.
pub fn toggle() -> (r: Control)
    ensures
        r.command == Command::Toggle,
        r.phase == Phase::Idle,
{
    Control { command: Command::Toggle, phase: Phase::Idle }
}

/// Start capture; repeated calls leave an existing session alone.
pub fn begin() -> (r: Control)
    ensures
        r.command == Command::Begin,
        r.phase == Phase::Idle,
{
    Control { command: Command::Begin, phase: Phase::Idle }
}

/// Stop capture and let the daemon finish its final utterance.
pub fn end() -> (r: Control)
    ensures
        r.command == Command::End,
        r.phase == Phase::Idle,
{
    Control { command: Command::End, phase: Phase::Idle }
}

impl Control {
    /// Advance the protocol on `event` and say what to do next.
    pub fn step(&mut self, event: Event) -> (r: Step)
        requires
            phase_ok(old(self).phase),
        ensures
            (final(self).phase, r) == next(old(self).command, old(self).phase, event),
            final(self).command == old(self).command,
            phase_ok(final(self).phase),
    {
        let cmd = self.command;
        let mut phase = Phase::Idle;
        core::mem::swap(&mut phase, &mut self.phase);
        let (p, s) = match phase {
            Phase::Idle => if cmd == Command::End {
                (Phase::Deactivating, Step::SetActive(false))
            } else {
                (Phase::CleanupRead, Step::Observe)
            },
            Phase::CleanupRead => match event {
                Event::Observed(m) => if !m.daemon_up && m.active {
                    (Phase::ClearingActive { clear_busy: m.busy }, Step::SetActive(false))
                } else if !m.daemon_up && m.busy {
                    (Phase::ClearingBusy, Step::SetBusy(false))
                } else {
                    (Phase::DecideRead, Step::Observe)
                },
                _ => (Phase::CleanupRead, Step::Observe),
            },
            Phase::ClearingActive { clear_busy } => if clear_busy {
                (Phase::ClearingBusy, Step::SetBusy(false))
            } else {
                (Phase::DecideRead, Step::Observe)
            },
            Phase::ClearingBusy => (Phase::DecideRead, Step::Observe),
            Phase::DecideRead => match event {
                Event::Observed(m) => if cmd == Command::Toggle && m.active {
                    (Phase::Deactivating, Step::SetActive(false))
                } else if m.active && m.daemon_up {
                    (Phase::Finished(Ok(())), Step::Finish(Ok(())))
                } else if m.daemon_up {
                    (Phase::StoppingOld, Step::StopEngine)
                } else {
                    (Phase::Publishing, Step::SetActive(true))
                },
                _ => (Phase::DecideRead, Step::Observe),
            },
            Phase::StoppingOld => (Phase::Publishing, Step::SetActive(true)),
            Phase::Publishing => (Phase::Launching, Step::Launch),
            Phase::Launching => match event {
                Event::Launched(Ok(())) => (Phase::Polling(0), Step::Observe),
                Event::Launched(Err(e)) => (Phase::Withdrawing(e), Step::SetActive(false)),
                _ => (Phase::Launching, Step::Launch),
            },
            Phase::Withdrawing(e) => {
                let m = copy_launch_error(&e);
                (
                    Phase::Finished(Err(ControlError::Launch(m))),
                    Step::Finish(Err(ControlError::Launch(e))),
                )
            },
            Phase::Polling(n) => match event {
                Event::Observed(m) => if m.daemon_up {
                    (Phase::Finished(Ok(())), Step::Finish(Ok(())))
                } else if !m.active {
                    (
                        Phase::Finished(Err(ControlError::ExitedDuringStartup)),
                        Step::Finish(Err(ControlError::ExitedDuringStartup)),
                    )
                } else {
                    (Phase::Sleeping(n), Step::Wait)
                },
                _ => (Phase::Polling(n), Step::Observe),
            },
            Phase::Sleeping(n) => if n + 1 < START_POLLS {
                (Phase::Polling(n + 1), Step::Observe)
            } else {
                (Phase::GivingUp, Step::SetActive(false))
            },
            Phase::GivingUp => (
                Phase::Finished(Err(ControlError::TimedOut)),
                Step::Finish(Err(ControlError::TimedOut)),
            ),
            Phase::Deactivating => (Phase::Stopping, Step::StopEngine),
            Phase::Stopping => (Phase::Finished(Ok(())), Step::Finish(Ok(()))),
            Phase::Finished(r) => {
                let c = copy_outcome(&r);
                (Phase::Finished(c), Step::Finish(r))
            },
        };
        self.phase = p;
        s
    }
}

/// Whether `event` is the answer the caller owes in `phase` (the first
/// event of a run is [`Event::Start`]).
pub open spec fn expected(phase: Phase, event: Event) -> bool {
    match phase {
        Phase::Idle => event == Event::Start,
        Phase::CleanupRead | Phase::DecideRead | Phase::Polling(_) => event is Observed,
        Phase::Launching => event is Launched,
        Phase::Finished(_) => true,
        _ => event == Event::Done,
    }
}

/// A bound on the steps left before the command finishes.
pub open spec fn remaining(phase: Phase) -> int {
    match phase {
        Phase::Idle => 200,
        Phase::CleanupRead => 190,
        Phase::ClearingActive { .. } => 185,
        Phase::ClearingBusy => 180,
        Phase::DecideRead => 170,
        Phase::StoppingOld => 165,
        Phase::Publishing => 160,
        Phase::Launching => 155,
        Phase::Withdrawing(_) => 1,
        Phase::Polling(n) => 2 * (START_POLLS - n) + 4,
        Phase::Sleeping(n) => 2 * (START_POLLS - n) + 3,
        Phase::GivingUp => 1,
        Phase::Deactivating => 3,
        Phase::Stopping => 2,
        Phase::Finished(_) => 0,
    }
}

/// Every answered step brings the command closer to its end, so a run
/// finishes within 200 steps.
pub proof fn law_control_terminates(cmd: Command, phase: Phase, event: Event)
    requires
        phase_ok(phase),
        expected(phase, event),
        !(phase is Finished),
    ensures
        0 <= remaining(next(cmd, phase, event).0) < remaining(phase),
{
}

/// Intent is published before spawning: the daemon is launched only from
/// the publishing phase, which is entered only by creating the active
/// marker, so every `Launch` directly follows `SetActive(true)`.
pub proof fn law_launch_follows_publish(cmd: Command, phase: Phase, event: Event)
    requires
        expected(phase, event),
    ensures
        next(cmd, phase, event).1 == Step::Launch ==> phase == Phase::Publishing,
        next(cmd, phase, event).0 == Phase::Publishing ==> next(cmd, phase, event).1
            == Step::SetActive(true),
{
}

/// Never two engines: a new daemon is prepared only when the last reading
/// showed none running, or right after the old one was stopped.
pub proof fn law_single_engine(cmd: Command, phase: Phase, event: Event)
    ensures
        next(cmd, phase, event).0 == Phase::Publishing ==> (phase == Phase::StoppingOld || (
        phase == Phase::DecideRead && event is Observed && !event->Observed_0.daemon_up)),
        next(cmd, phase, event).0 == Phase::StoppingOld ==> next(cmd, phase, event).1
            == Step::StopEngine,
{
}

/// A failed launch leaves no stale active marker: the marker is removed
/// and the launch error is the outcome.
pub proof fn law_failed_launch_withdraws(cmd: Command, message: LaunchError)
    ensures
        next(cmd, Phase::Launching, Event::Launched(Err(message))) == (
            Phase::Withdrawing(message),
            Step::SetActive(false),
        ),
        next(cmd, Phase::Withdrawing(message), Event::Done).1 == Step::Finish(
            Err(ControlError::Launch(message)),
        ),
{
}

/// A start that times out removes the active marker before reporting.
pub proof fn law_timeout_withdraws(cmd: Command, phase: Phase, event: Event)
    ensures
        next(cmd, phase, event).1 == Step::Finish(Err(ControlError::TimedOut)) && !(
        phase is Finished) ==> phase == Phase::GivingUp,
        next(cmd, phase, event).0 == Phase::GivingUp ==> next(cmd, phase, event).1
            == Step::SetActive(false),
{
}

/// Phases an `end` run can reach.
pub open spec fn stop_only(phase: Phase) -> bool {
    phase == Phase::Idle || phase == Phase::Deactivating || phase == Phase::Stopping || (
    phase is Finished)
}

/// `end` only stops: it never reads, cleans up, or launches, and it
/// succeeds.
pub proof fn law_end_only_stops(phase: Phase, event: Event)
    requires
        stop_only(phase),
        phase is Finished ==> phase == Phase::Finished(Ok(())),
    ensures
        stop_only(next(Command::End, phase, event).0),
        next(Command::End, phase, event).0 is Finished ==> next(Command::End, phase, event).0
            == Phase::Finished(Ok(())),
        next(Command::End, phase, event).1 != Step::Launch,
{
}

/// Toggling a session whose microphone is on stops it; beginning one that
/// is running already leaves it alone.
pub proof fn law_toggle_and_begin(m: Markers)
    ensures
        m.active ==> next(Command::Toggle, Phase::DecideRead, Event::Observed(m)) == (
            Phase::Deactivating,
            Step::SetActive(false),
        ),
        m.active && m.daemon_up ==> next(Command::Begin, Phase::DecideRead, Event::Observed(m))
            == (Phase::Finished(Ok(())), Step::Finish(Ok(()))),
{
}

/// The steps a control run asks for when it starts in `phase` and hears
/// `events` in turn.
pub open spec fn control_run(cmd: Command, phase: Phase, events: Seq<Event>) -> Seq<Step>
    decreases events.len(),
{
    if events.len() == 0 {
        Seq::empty()
    } else {
        let (p, s) = next(cmd, phase, events[0]);
        seq![s] + control_run(cmd, p, events.drop_first())
    }
}

/// `begin` on a session that is already running leaves it alone: both
/// readings show the microphone on and the daemon up, so nothing is
/// cleaned up, no marker changes, no daemon is stopped or launched, and
/// the command succeeds.
pub proof fn law_begin_leaves_running_session_alone(events: Seq<Event>)
    requires
        events.len() == 3,
        events[1] matches Event::Observed(m) && m.daemon_up,
        events[2] matches Event::Observed(m) && m.active && m.daemon_up,
    ensures
        control_run(Command::Begin, Phase::Idle, events) == seq![
            Step::Observe,
            Step::Observe,
            Step::Finish(Ok(())),
        ],
{
    reveal_with_fuel(control_run, 4);
    assert(control_run(Command::Begin, Phase::Idle, events) =~= seq![
        Step::Observe,
        Step::Observe,
        Step::Finish(Ok(())),
    ]);
}

// ------------------------------------------------------------ stopping

/// Polls (100 ms apart) a daemon gets to exit after the polite signal.
pub const STOP_GRACE_POLLS: u32 = 80;

/// Polls (100 ms apart) granted after the forced signal.
pub const STOP_KILL_POLLS: u32 = 10;

/// What stopping the daemon asks for next.
#[derive(Debug, Clone, Copy, PartialEq, Eq, Structural)]
pub enum StopAction {
    /// Read the daemon's pid from the pidfile; answer
    /// [`StopEvent::Pid`].
    ReadPid,
    /// Send SIGTERM to that pid, so it flushes and stops.
    Term,
    /// Send SIGKILL to that pid.
    Kill,
    /// Check whether the daemon is up; answer [`StopEvent::Up`].
    Check,
    /// Sleep 100 ms.
    Wait,
    /// Stopping is over.
    Done,
}

/// What the caller saw or did since the last action.
#[derive(Debug, Clone, Copy, PartialEq, Eq, Structural)]
pub enum StopEvent {
    /// The first event.
    Start,
    /// Whether the pidfile named a pid.
    Pid(bool),
    /// Whether the daemon is up.
    Up(bool),
    /// A signal or a sleep is done.
    Done,
}

/// Where stopping stands; `killed` tells the forced stage from the
/// polite one.
#[derive(Debug, Clone, Copy, PartialEq, Eq, Structural)]
pub enum StopPhase {
    /// Nothing done yet.
    Idle,
    /// Waiting for the pid, before the polite (`false`) or forced (`true`)
    /// signal.
    ReadingPid(bool),
    /// The polite signal is being sent.
    Terminating,
    /// The forced signal is being sent.
    Killing,
    /// Waiting for liveness reading number `n` of the stage.
    Checking(u32, bool),
    /// Sleeping after liveness reading number `n` of the stage.
    Sleeping(u32, bool),
    /// Stopping is over.
    Stopped,
}

/// The next phase and action on `event` in `phase`.
pub open spec fn stop_next(phase: StopPhase, event: StopEvent) -> (StopPhase, StopAction) {
    match phase {
        StopPhase::Idle => (StopPhase::ReadingPid(false), StopAction::ReadPid),
        StopPhase::ReadingPid(killed) => match event {
            StopEvent::Pid(true) => if killed {
                (StopPhase::Killing, StopAction::Kill)
            } else {
                (StopPhase::Terminating, StopAction::Term)
            },
            StopEvent::Pid(false) => if killed {
                (StopPhase::Stopped, StopAction::Done)
            } else {
                (StopPhase::Checking(0, false), StopAction::Check)
            },
            _ => (StopPhase::ReadingPid(killed), StopAction::ReadPid),
        },
        StopPhase::Terminating => (StopPhase::Checking(0, false), StopAction::Check),
        StopPhase::Killing => (StopPhase::Checking(0, true), StopAction::Check),
        StopPhase::Checking(n, killed) => match event {
            StopEvent::Up(false) => (StopPhase::Stopped, StopAction::Done),
            StopEvent::Up(true) => (StopPhase::Sleeping(n, killed), StopAction::Wait),
            _ => (StopPhase::Checking(n, killed), StopAction::Check),
        },
        StopPhase::Sleeping(n, killed) => if n + 1 < (if killed {
            STOP_KILL_POLLS
        } else {
            STOP_GRACE_POLLS
        }) {
            (StopPhase::Checking((n + 1) as u32, killed), StopAction::Check)
        } else if killed {
            (StopPhase::Stopped, StopAction::Done)
        } else {
            (StopPhase::ReadingPid(true), StopAction::ReadPid)
        },
        StopPhase::Stopped => (StopPhase::Stopped, StopAction::Done),
    }
}

/// Poll counters stay within their stage's budget.
pub open spec fn stop_phase_ok(phase: StopPhase) -> bool {
    match phase {
        StopPhase::Checking(n, killed) | StopPhase::Sleeping(n, killed) => n < (if killed {
            STOP_KILL_POLLS
        } else {
            STOP_GRACE_POLLS
        }),
        _ => true,
    }
}

/// Stopping the engine daemon: SIGTERM, up to 80 liveness checks 100 ms
/// apart, then SIGKILL and up to 10 more; it ends as soon as the daemon
/// is seen down, or when no pid is left to signal before the forced stage.
#[derive(Debug)]
pub struct Stopper {
    pub phase: StopPhase,
}

impl Stopper {
    pub fn new() -> (r: Stopper)
        ensures
            r.phase == StopPhase::Idle,
    {
        Stopper { phase: StopPhase::Idle }
    }

    /// Advance on `event` and say what to do next.
    pub fn step(&mut self, event: StopEvent) -> (r: StopAction)
        requires
            stop_phase_ok(old(self).phase),
        ensures
            (final(self).phase, r) == stop_next(old(self).phase, event),
            stop_phase_ok(final(self).phase),
    {
        let (p, a) = match self.phase {
            StopPhase::Idle => (StopPhase::ReadingPid(false), StopAction::ReadPid),
            StopPhase::ReadingPid(killed) => match event {
                StopEvent::Pid(true) => if killed {
                    (StopPhase::Killing, StopAction::Kill)
                } else {
                    (StopPhase::Terminating, StopAction::Term)
                },
                StopEvent::Pid(false) => if killed {
                    (StopPhase::Stopped, StopAction::Done)
                } else {
                    (StopPhase::Checking(0, false), StopAction::Check)
                },
                _ => (StopPhase::ReadingPid(killed), StopAction::ReadPid),
            },
            StopPhase::Terminating => (StopPhase::Checking(0, false), StopAction::Check),
            StopPhase::Killing => (StopPhase::Checking(0, true), StopAction::Check),
            StopPhase::Checking(n, killed) => match event {
                StopEvent::Up(false) => (StopPhase::Stopped, StopAction::Done),
                StopEvent::Up(true) => (StopPhase::Sleeping(n, killed), StopAction::Wait),
                _ => (StopPhase::Checking(n, killed), StopAction::Check),
            },
            StopPhase::Sleeping(n, killed) => {
                let budget = if killed {
                    STOP_KILL_POLLS
                } else {
                    STOP_GRACE_POLLS
                };
                if n + 1 < budget {
                    (StopPhase::Checking(n + 1, killed), StopAction::Check)
                } else if killed {
                    (StopPhase::Stopped, StopAction::Done)
                } else {
                    (StopPhase::ReadingPid(true), StopAction::ReadPid)
                }
            },
            StopPhase::Stopped => (StopPhase::Stopped, StopAction::Done),
        };
        self.phase = p;
        a
    }
}

/// The actions stopping asks for when it starts in `phase` and hears
/// `events` in turn.
pub open spec fn stop_run(phase: StopPhase, events: Seq<StopEvent>) -> Seq<StopAction>
    decreases events.len(),
{
    if events.len() == 0 {
        Seq::empty()
    } else {
        let (p, a) = stop_next(phase, events[0]);
        seq![a] + stop_run(p, events.drop_first())
    }
}

/// Whether `event` is the answer owed in `phase`.
pub open spec fn stop_expected(phase: StopPhase, event: StopEvent) -> bool {
    match phase {
        StopPhase::Idle => event == StopEvent::Start,
        StopPhase::ReadingPid(_) => event is Pid,
        StopPhase::Checking(_, _) => event is Up,
        StopPhase::Stopped => true,
        _ => event == StopEvent::Done,
    }
}

/// A bound on the actions left before stopping is over.
pub open spec fn stop_remaining(phase: StopPhase) -> int {
    match phase {
        StopPhase::Idle => 200,
        StopPhase::ReadingPid(killed) => if killed {
            24
        } else {
            195
        },
        StopPhase::Terminating => 190,
        StopPhase::Checking(n, killed) => if killed {
            2 * (STOP_KILL_POLLS - n) + 1
        } else {
            2 * (STOP_GRACE_POLLS - n) + 26
        },
        StopPhase::Sleeping(n, killed) => if killed {
            2 * (STOP_KILL_POLLS - n)
        } else {
            2 * (STOP_GRACE_POLLS - n) + 25
        },
        StopPhase::Killing => 22,
        StopPhase::Stopped => 0,
    }
}

/// Every answered action brings stopping closer to its end: it is over
/// within 200 actions.
pub proof fn law_stop_terminates(phase: StopPhase, event: StopEvent)
    requires
        stop_phase_ok(phase),
        stop_expected(phase, event),
        phase != StopPhase::Stopped,
    ensures
        0 <= stop_remaining(stop_next(phase, event).0) < stop_remaining(phase),
{
}

/// The escalation: the polite signal goes out only first, to a known pid;
/// the forced one only after all 80 grace checks saw the daemon up (and
/// its pid is still known); a daemon seen down ends the stop at once.
pub proof fn law_stop_escalates_after_grace(phase: StopPhase, event: StopEvent)
    requires
        stop_phase_ok(phase),
    ensures
        stop_next(phase, event).1 == StopAction::Term ==> phase == StopPhase::ReadingPid(false)
            && event == StopEvent::Pid(true),
        stop_next(phase, event).1 == StopAction::Kill ==> phase == StopPhase::ReadingPid(true)
            && event == StopEvent::Pid(true),
        stop_next(phase, event).0 == StopPhase::ReadingPid(true) ==> (phase
            == StopPhase::ReadingPid(true) || phase == StopPhase::Sleeping(
            (STOP_GRACE_POLLS - 1) as u32,
            false,
        )),
        phase is Checking && event == StopEvent::Up(false) ==> stop_next(phase, event) == (
            StopPhase::Stopped,
            StopAction::Done,
        ),
{
}

proof fn lemma_stop_run_len(phase: StopPhase, events: Seq<StopEvent>)
    ensures
        stop_run(phase, events).len() == events.len(),
    decreases events.len(),
{
    if events.len() > 0 {
        lemma_stop_run_len(stop_next(phase, events[0]).0, events.drop_first());
    }
}

/// From grace check `n` on, a daemon that stays up is waited for at every
/// remaining grace check and then, its pid still known, killed.
proof fn lemma_grace(n: u32, e: Seq<StopEvent>)
    requires
        n < STOP_GRACE_POLLS,
        e.len() == 2 * (STOP_GRACE_POLLS - n) + 1,
        forall|j: int| 0 <= j < 2 * (STOP_GRACE_POLLS - n) && j % 2 == 0 ==> #[trigger] e[j]
            == StopEvent::Up(true),
        e[2 * (STOP_GRACE_POLLS - n)] == StopEvent::Pid(true),
    ensures
        forall|j: int|
            0 <= j < 2 * (STOP_GRACE_POLLS - n) && j % 2 == 0 ==> #[trigger] stop_run(
                StopPhase::Checking(n, false),
                e,
            )[j] == StopAction::Wait,
        stop_run(StopPhase::Checking(n, false), e)[2 * (STOP_GRACE_POLLS - n)] == StopAction::Kill,
    decreases STOP_GRACE_POLLS - n,
{
    let c = StopPhase::Checking(n, false);
    assert(e[0] == StopEvent::Up(true));
    let rest = e.drop_first();
    let rest2 = rest.drop_first();
    let r = stop_run(c, e);
    assert(r == seq![StopAction::Wait] + stop_run(StopPhase::Sleeping(n, false), rest));
    let tail = stop_run(StopPhase::Sleeping(n, false), rest);
    if n + 1 < STOP_GRACE_POLLS {
        let c2 = StopPhase::Checking((n + 1) as u32, false);
        assert(tail == seq![StopAction::Check] + stop_run(c2, rest2));
        assert forall|j: int| 0 <= j < 2 * (STOP_GRACE_POLLS - (n + 1)) && j % 2 == 0 implies #[trigger] rest2[j]
            == StopEvent::Up(true) by {
            assert(rest2[j] == e[j + 2]);
        }
        assert(rest2[2 * (STOP_GRACE_POLLS - (n + 1))] == e[2 * (STOP_GRACE_POLLS - n)]);
        lemma_grace((n + 1) as u32, rest2);
        lemma_stop_run_len(c2, rest2);
        assert forall|j: int| 0 <= j < 2 * (STOP_GRACE_POLLS - n) && j % 2 == 0 implies #[trigger] r[j]
            == StopAction::Wait by {
            if j > 0 {
                assert(r[j] == stop_run(c2, rest2)[j - 2]);
            }
        }
        assert(r[2 * (STOP_GRACE_POLLS - n)] == stop_run(c2, rest2)[2 * (STOP_GRACE_POLLS - (n
            + 1))]);
    } else {
        assert(tail == seq![StopAction::ReadPid] + stop_run(StopPhase::ReadingPid(true), rest2));
        assert(rest2.len() == 1);
        assert(rest2[0] == StopEvent::Pid(true));
        assert(stop_run(StopPhase::ReadingPid(true), rest2) == seq![StopAction::Kill] + stop_run(
            StopPhase::Killing,
            rest2.drop_first(),
        ));
        assert(r[2] == StopAction::Kill);
    }
}

/// A daemon that ignores the polite signal: after SIGTERM it is checked
/// and waited for at every one of the 80 grace checks, and only then, its
/// pid still known, sent SIGKILL.
pub proof fn law_grace_before_kill(events: Seq<StopEvent>)
    requires
        events.len() == 2 * STOP_GRACE_POLLS + 4,
        events[1] == StopEvent::Pid(true),
        forall|j: int| 3 <= j < 3 + 2 * STOP_GRACE_POLLS && (j - 3) % 2 == 0 ==> #[trigger] events[j]
            == StopEvent::Up(true),
        events[3 + 2 * STOP_GRACE_POLLS] == StopEvent::Pid(true),
    ensures
        stop_run(StopPhase::Idle, events)[0] == StopAction::ReadPid,
        stop_run(StopPhase::Idle, events)[1] == StopAction::Term,
        stop_run(StopPhase::Idle, events)[2] == StopAction::Check,
        forall|j: int|
            3 <= j < 3 + 2 * STOP_GRACE_POLLS && (j - 3) % 2 == 0 ==> #[trigger] stop_run(
                StopPhase::Idle,
                events,
            )[j] == StopAction::Wait,
        stop_run(StopPhase::Idle, events)[3 + 2 * STOP_GRACE_POLLS] == StopAction::Kill,
{
    let e1 = events.drop_first();
    let e2 = e1.drop_first();
    let e3 = e2.drop_first();
    let c0 = StopPhase::Checking(0, false);
    let r = stop_run(StopPhase::Idle, events);
    assert(r == seq![StopAction::ReadPid] + stop_run(StopPhase::ReadingPid(false), e1));
    assert(e1[0] == StopEvent::Pid(true));
    assert(stop_run(StopPhase::ReadingPid(false), e1) == seq![StopAction::Term] + stop_run(
        StopPhase::Terminating,
        e2,
    ));
    assert(stop_run(StopPhase::Terminating, e2) == seq![StopAction::Check] + stop_run(c0, e3));
    assert forall|j: int| 0 <= j < 2 * STOP_GRACE_POLLS && j % 2 == 0 implies #[trigger] e3[j]
        == StopEvent::Up(true) by {
        assert(e3[j] == events[j + 3]);
    }
    assert(e3[2 * STOP_GRACE_POLLS] == events[3 + 2 * STOP_GRACE_POLLS]);
    lemma_grace(0, e3);
    lemma_stop_run_len(c0, e3);
    assert forall|j: int| 3 <= j < 3 + 2 * STOP_GRACE_POLLS && (j - 3) % 2 == 0 implies #[trigger] r[j]
        == StopAction::Wait by {
        assert(r[j] == stop_run(c0, e3)[j - 3]);
    }
    assert(r[3 + 2 * STOP_GRACE_POLLS] == stop_run(c0, e3)[2 * STOP_GRACE_POLLS]);
}

/// The daemon pid written in the pidfile `contents` (surrounding
/// whitespace allowed).
pub fn parse_pid(contents: &str) -> (r: Option<u32>)
    ensures
        r == parse_u32(crate::text::trim(contents@)),
{
    let all = chars_of(contents);
    let (a, b) = crate::text::trim_bounds(&all);
    let mut start = a;
    if start < b && all[start] == '+' {
        start = start + 1;
    }
    let ghost t = all@.subrange(a as int, b as int);
    let ghost body = all@.subrange(start as int, b as int);
    assert(body =~= (if t.len() > 0 && t[0] == '+' {
        t.drop_first()
    } else {
        t
    }));
    if start == b {
        return None;
    }
    let mut value: u64 = 0;
    let mut i = start;
    while i < b
        invariant
            a <= start <= i <= b <= all.len(),
            body == all@.subrange(start as int, b as int),
            all@ == contents@,
            t == crate::text::trim(contents@),
            body == (if t.len() > 0 && t[0] == '+' {
                t.drop_first()
            } else {
                t
            }),
            all_digits(body.take(i - start)),
            value == digits_value(body.take(i - start)),
            value <= u32::MAX,
        decreases b - i,
    {
        let c = all[i];
        assert(body[i - start] == all@[i as int]);
        if !('0' <= c && c <= '9') {
            assert(!all_digits(body));
            return None;
        }
        let d = (c as u32 - 48) as u64;
        assert(body.take(i + 1 - start).drop_last() =~= body.take(i - start));
        assert(all_digits(body.take(i + 1 - start)));
        value = value * 10 + d;
        if value > 0xffff_ffff {
            proof {
                if all_digits(body) {
                    lemma_digits_value_grows(body, i + 1 - start);
                }
            }
            return None;
        }
        i = i + 1;
    }
    assert(body.take(b - start) =~= body);
    Some(value as u32)
}

/// The daemon's entry-point marker in a process command line.
pub open spec fn run_marker() -> Seq<u8> {
    seq![95u8, 95, 110, 97, 116, 105, 118, 101, 45, 114, 117, 110]
}

pub open spec fn bytes_contain(s: Seq<u8>, p: Seq<u8>) -> bool {
    exists|i: int| 0 <= i && i + p.len() <= s.len() && #[trigger] s.subrange(i, i + p.len()) == p
}

/// Whether a `/proc/<pid>/cmdline` belongs to our daemon: it contains
/// `__native-run` (which guards against pid reuse).
pub fn is_daemon_cmdline(cmdline: &[u8]) -> (r: bool)
    ensures
        r == bytes_contain(cmdline@, run_marker()),
{
    let marker: [u8; 12] = [95, 95, 110, 97, 116, 105, 118, 101, 45, 114, 117, 110];
    assert(marker@ =~= run_marker());
    if cmdline.len() < 12 {
        return false;
    }
    let last = cmdline.len() - 12;
    let mut i: usize = 0;
    loop
        invariant
            12 <= cmdline.len(),
            last == cmdline.len() - 12,
            i <= last,
            marker@ == run_marker(),
            forall|j: int| 0 <= j < i ==> #[trigger] cmdline@.subrange(j, j + 12) != run_marker(),
        ensures
            forall|j: int| 0 <= j <= last ==> #[trigger] cmdline@.subrange(j, j + 12) != run_marker(),
        decreases last - i,
    {
        let mut k: usize = 0;
        let mut same = true;
        while k < 12
            invariant
                k <= 12,
                i + 12 <= cmdline.len(),
                same == (forall|m: int| 0 <= m < k ==> cmdline@[i + m] == marker@[m]),
            decreases 12 - k,
        {
            if cmdline[i + k] != marker[k] {
                same = false;
            }
            k = k + 1;
        }
        if same {
            assert(cmdline@.subrange(i as int, i + 12) =~= run_marker());
            return true;
        }
        assert(cmdline@.subrange(i as int, i + 12)[0] == cmdline@[i as int]);
        assert(cmdline@.subrange(i as int, i + 12) != run_marker()) by {
            let w = choose|m: int| 0 <= m < 12 && cmdline@[i + m] != marker@[m];
            assert(cmdline@.subrange(i as int, i + 12)[w] != run_marker()[w]);
        }
        if i == last {
            break;
        }
        i = i + 1;
    }
    false
}

/// Whether the engine daemon is alive: the pidfile named a process
/// (`pid`) whose command line (`cmdline`, when it could be read) is our
/// daemon's.
pub fn process_up(pid: Option<u32>, cmdline: Option<&[u8]>) -> (r: bool)
    ensures
        r == (pid is Some && (cmdline matches Some(c) && bytes_contain(c@, run_marker()))),
{
    match (pid, cmdline) {
        (Some(_), Some(c)) => is_daemon_cmdline(c),
        _ => false,
    }
}

/// Capture chunks dropped since the last report, when there are new
/// ones: `total` counted so far, `reported` already logged.
pub fn dropped_since(total: u64, reported: u64) -> (r: Option<u64>)
    ensures
        r == (if total > reported {
            Some((total - reported) as u64)
        } else {
            None::<u64>
        }),
{
    if total > reported {
        Some(total - reported)
    } else {
        None
    }
}

} // verus!
