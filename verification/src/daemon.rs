//! The engine daemon's lifecycle as a protocol: refuse a second instance,
//! claim the pidfile, build the recognizer, the audio capture and the
//! typer, listen until told to stop, then flush the last utterance and
//! clear every marker.
//!
//! The caller performs each [`DaemonStep`] (logging, file updates, model
//! and device work) and answers with a [`DaemonEvent`]. Texts are `String`
//! at run time and `Seq<char>` in contracts.
use crate::text::{concat2, concat3, owned};
use vstd::prelude::*;

verus! {

/// What the caller saw or did since the last step.
#[derive(Debug, PartialEq, Eq)]
pub enum DaemonEvent<S> {
    /// The first event of a run.
    Start,
    /// Whether a daemon with our entry point is already up.
    Running(bool),
    /// A log line, marker update, release, feed or flush is done.
    Done,
    /// The outcome of building a part; `Ok` carries the part's name.
    Made(Result<S, S>),
    /// The stop signal arrived.
    Stop,
    /// The audio stream reported this error.
    AudioFailed(S),
    /// A chunk of audio arrived.
    Chunk,
    /// No chunk arrived within the wait.
    Quiet,
    /// The audio channel is closed.
    Closed,
}

/// What the caller must do next.
#[derive(Debug, PartialEq, Eq)]
pub enum DaemonStep<S> {
    /// Find out whether a daemon is up; answer [`DaemonEvent::Running`].
    CheckRunning,
    /// Take over: install the stop signal handlers, write our pid to the
    /// pidfile (logging a failure) and remove the busy marker.
    Claim,
    /// Write this line to the daemon log.
    Log(S),
    /// Load the configured recognizer; answer [`DaemonEvent::Made`].
    MakeRecognizer,
    /// Open the audio capture; answer [`DaemonEvent::Made`].
    OpenAudio,
    /// Build the typer; answer [`DaemonEvent::Made`] with its name.
    MakeTyper,
    /// Report dropped chunks (at most every 5 s), then check the stop
    /// signal, then the audio stream's errors, then wait up to 200 ms for
    /// a chunk, and answer with the first thing seen.
    Listen,
    /// Feed the chunk to the recognizer and type what it returns.
    Feed,
    /// Create (`true`) or remove (`false`) the active marker.
    SetActive(bool),
    /// Create (`true`) or remove (`false`) the busy marker.
    SetBusy(bool),
    /// Stop and drop the audio capture.
    ReleaseAudio,
    /// Flush the recognizer and type what it returns.
    Flush,
    /// Remove the pidfile.
    RemovePid,
    /// Exit the process with this code.
    Exit(i32),
}

/// Where the daemon stands.
#[derive(Debug, PartialEq, Eq)]
pub enum DaemonPhase<S> {
    /// Nothing done yet.
    Idle,
    /// Waiting to hear whether a daemon is up.
    Checking,
    /// Another daemon is up; the refusal is being logged.
    Refusing,
    /// The pidfile and busy marker are being claimed.
    Claiming,
    /// The backend is being announced in the log.
    Announcing,
    /// Waiting for the recognizer.
    MakingRecognizer,
    /// Waiting for the audio capture.
    OpeningAudio,
    /// Waiting for the typer.
    MakingTyper,
    /// The typer failed: the capture is being released before the
    /// failure is logged with this message.
    ReleasingFor(S),
    /// A start failed and its message is being logged; then, stage by
    /// stage, the active marker, the busy marker and the pidfile go.
    Aborting(u8),
    /// The typer is being announced.
    Greeting,
    /// The start of listening is being announced.
    Welcoming,
    /// Waiting for the next thing the capture loop sees.
    Listening,
    /// A chunk is being fed.
    Feeding,
    /// The reason for leaving the loop is being logged.
    Breaking,
    /// Stopping: the active marker is being removed.
    Closing,
    /// Stopping: the capture is being released.
    Releasing,
    /// Stopping: the last utterance is being flushed.
    Flushing,
    /// Stopping: the pidfile is being removed.
    Unpublishing,
    /// Stopping: the busy marker is being removed.
    ClearingBusy,
    /// Stopping: the final log line is being written.
    SigningOff,
    /// The process exits with this code.
    Finished(i32),
}

pub open spec fn refusal_message() -> Seq<char> {
    "already running, refusing second instance"@
}

pub open spec fn listening_message() -> Seq<char> {
    "listening \u{2014} native backend active"@
}

/// The next phase and step on `event` in `phase`, for the daemon of
/// `backend`.
pub open spec fn daemon_next(backend: Seq<char>, phase: DaemonPhase<Seq<char>>, event: DaemonEvent<
    Seq<char>,
>) -> (DaemonPhase<Seq<char>>, DaemonStep<Seq<char>>) {
    match phase {
        DaemonPhase::Idle => (DaemonPhase::Checking, DaemonStep::CheckRunning),
        DaemonPhase::Checking => match event {
            DaemonEvent::Running(true) => (
                DaemonPhase::Refusing,
                DaemonStep::Log(refusal_message()),
            ),
            DaemonEvent::Running(false) => (DaemonPhase::Claiming, DaemonStep::Claim),
            _ => (DaemonPhase::Checking, DaemonStep::CheckRunning),
        },
        DaemonPhase::Refusing => (DaemonPhase::Finished(0), DaemonStep::Exit(0)),
        DaemonPhase::Claiming => (
            DaemonPhase::Announcing,
            DaemonStep::Log("starting backend `"@ + backend + "`"@),
        ),
        DaemonPhase::Announcing => (DaemonPhase::MakingRecognizer, DaemonStep::MakeRecognizer),
        DaemonPhase::MakingRecognizer => match event {
            DaemonEvent::Made(Ok(_)) => (DaemonPhase::OpeningAudio, DaemonStep::OpenAudio),
            DaemonEvent::Made(Err(e)) => (DaemonPhase::Aborting(0), DaemonStep::Log(e)),
            _ => (DaemonPhase::MakingRecognizer, DaemonStep::MakeRecognizer),
        },
        DaemonPhase::OpeningAudio => match event {
            DaemonEvent::Made(Ok(_)) => (DaemonPhase::MakingTyper, DaemonStep::MakeTyper),
            DaemonEvent::Made(Err(e)) => (
                DaemonPhase::Aborting(0),
                DaemonStep::Log("audio: "@ + e),
            ),
            _ => (DaemonPhase::OpeningAudio, DaemonStep::OpenAudio),
        },
        DaemonPhase::MakingTyper => match event {
            DaemonEvent::Made(Ok(name)) => (
                DaemonPhase::Greeting,
                DaemonStep::Log("typing via `"@ + name + "`"@),
            ),
            DaemonEvent::Made(Err(e)) => (
                DaemonPhase::ReleasingFor("typing backend: "@ + e),
                DaemonStep::ReleaseAudio,
            ),
            _ => (DaemonPhase::MakingTyper, DaemonStep::MakeTyper),
        },
        DaemonPhase::ReleasingFor(m) => (DaemonPhase::Aborting(0), DaemonStep::Log(m)),
        DaemonPhase::Aborting(n) => if n == 0 {
            (DaemonPhase::Aborting(1), DaemonStep::SetActive(false))
        } else if n == 1 {
            (DaemonPhase::Aborting(2), DaemonStep::SetBusy(false))
        } else if n == 2 {
            (DaemonPhase::Aborting(3), DaemonStep::RemovePid)
        } else {
            (DaemonPhase::Finished(1), DaemonStep::Exit(1))
        },
        DaemonPhase::Greeting => (DaemonPhase::Welcoming, DaemonStep::Log(listening_message())),
        DaemonPhase::Welcoming => (DaemonPhase::Listening, DaemonStep::Listen),
        DaemonPhase::Listening => match event {
            DaemonEvent::Stop => (DaemonPhase::Closing, DaemonStep::SetActive(false)),
            DaemonEvent::AudioFailed(e) => (
                DaemonPhase::Breaking,
                DaemonStep::Log("audio stream failed: "@ + e),
            ),
            DaemonEvent::Closed => (DaemonPhase::Breaking, DaemonStep::Log("audio channel closed"@)),
            DaemonEvent::Chunk => (DaemonPhase::Feeding, DaemonStep::Feed),
            _ => (DaemonPhase::Listening, DaemonStep::Listen),
        },
        DaemonPhase::Feeding => (DaemonPhase::Listening, DaemonStep::Listen),
        DaemonPhase::Breaking => (DaemonPhase::Closing, DaemonStep::SetActive(false)),
        DaemonPhase::Closing => (DaemonPhase::Releasing, DaemonStep::ReleaseAudio),
        DaemonPhase::Releasing => (DaemonPhase::Flushing, DaemonStep::Flush),
        DaemonPhase::Flushing => (DaemonPhase::Unpublishing, DaemonStep::RemovePid),
        DaemonPhase::Unpublishing => (DaemonPhase::ClearingBusy, DaemonStep::SetBusy(false)),
        DaemonPhase::ClearingBusy => (DaemonPhase::SigningOff, DaemonStep::Log("stopped"@)),
        DaemonPhase::SigningOff => (DaemonPhase::Finished(0), DaemonStep::Exit(0)),
        DaemonPhase::Finished(c) => (DaemonPhase::Finished(c), DaemonStep::Exit(c)),
    }
}

pub open spec fn event_view(e: DaemonEvent<String>) -> DaemonEvent<Seq<char>> {
    match e {
        DaemonEvent::Start => DaemonEvent::Start,
        DaemonEvent::Running(b) => DaemonEvent::Running(b),
        DaemonEvent::Done => DaemonEvent::Done,
        DaemonEvent::Made(Ok(s)) => DaemonEvent::Made(Ok(s@)),
        DaemonEvent::Made(Err(s)) => DaemonEvent::Made(Err(s@)),
        DaemonEvent::Stop => DaemonEvent::Stop,
        DaemonEvent::AudioFailed(s) => DaemonEvent::AudioFailed(s@),
        DaemonEvent::Chunk => DaemonEvent::Chunk,
        DaemonEvent::Quiet => DaemonEvent::Quiet,
        DaemonEvent::Closed => DaemonEvent::Closed,
    }
}

pub open spec fn step_view(s: DaemonStep<String>) -> DaemonStep<Seq<char>> {
    match s {
        DaemonStep::CheckRunning => DaemonStep::CheckRunning,
        DaemonStep::Claim => DaemonStep::Claim,
        DaemonStep::Log(m) => DaemonStep::Log(m@),
        DaemonStep::MakeRecognizer => DaemonStep::MakeRecognizer,
        DaemonStep::OpenAudio => DaemonStep::OpenAudio,
        DaemonStep::MakeTyper => DaemonStep::MakeTyper,
        DaemonStep::Listen => DaemonStep::Listen,
        DaemonStep::Feed => DaemonStep::Feed,
        DaemonStep::SetActive(b) => DaemonStep::SetActive(b),
        DaemonStep::SetBusy(b) => DaemonStep::SetBusy(b),
        DaemonStep::ReleaseAudio => DaemonStep::ReleaseAudio,
        DaemonStep::Flush => DaemonStep::Flush,
        DaemonStep::RemovePid => DaemonStep::RemovePid,
        DaemonStep::Exit(c) => DaemonStep::Exit(c),
    }
}

pub open spec fn phase_view(p: DaemonPhase<String>) -> DaemonPhase<Seq<char>> {
    match p {
        DaemonPhase::Idle => DaemonPhase::Idle,
        DaemonPhase::Checking => DaemonPhase::Checking,
        DaemonPhase::Refusing => DaemonPhase::Refusing,
        DaemonPhase::Claiming => DaemonPhase::Claiming,
        DaemonPhase::Announcing => DaemonPhase::Announcing,
        DaemonPhase::MakingRecognizer => DaemonPhase::MakingRecognizer,
        DaemonPhase::OpeningAudio => DaemonPhase::OpeningAudio,
        DaemonPhase::MakingTyper => DaemonPhase::MakingTyper,
        DaemonPhase::ReleasingFor(m) => DaemonPhase::ReleasingFor(m@),
        DaemonPhase::Aborting(n) => DaemonPhase::Aborting(n),
        DaemonPhase::Greeting => DaemonPhase::Greeting,
        DaemonPhase::Welcoming => DaemonPhase::Welcoming,
        DaemonPhase::Listening => DaemonPhase::Listening,
        DaemonPhase::Feeding => DaemonPhase::Feeding,
        DaemonPhase::Breaking => DaemonPhase::Breaking,
        DaemonPhase::Closing => DaemonPhase::Closing,
        DaemonPhase::Releasing => DaemonPhase::Releasing,
        DaemonPhase::Flushing => DaemonPhase::Flushing,
        DaemonPhase::Unpublishing => DaemonPhase::Unpublishing,
        DaemonPhase::ClearingBusy => DaemonPhase::ClearingBusy,
        DaemonPhase::SigningOff => DaemonPhase::SigningOff,
        DaemonPhase::Finished(c) => DaemonPhase::Finished(c),
    }
}

/// The steps the daemon of `backend` asks for when it starts in `phase`
/// and hears `events` in turn.
pub open spec fn daemon_run(
    backend: Seq<char>,
    phase: DaemonPhase<Seq<char>>,
    events: Seq<DaemonEvent<Seq<char>>>,
) -> Seq<DaemonStep<Seq<char>>>
    decreases events.len(),
{
    if events.len() == 0 {
        Seq::empty()
    } else {
        let (p, s) = daemon_next(backend, phase, events[0]);
        seq![s] + daemon_run(backend, p, events.drop_first())
    }
}

/// How a daemon that listened ends: capture stops, the last utterance is
/// flushed, the pidfile and busy marker go, and the process exits 0.
pub open spec fn shutdown_steps() -> Seq<DaemonStep<Seq<char>>> {
    seq![
        DaemonStep::SetActive(false),
        DaemonStep::ReleaseAudio,
        DaemonStep::Flush,
        DaemonStep::RemovePid,
        DaemonStep::SetBusy(false),
        DaemonStep::Log("stopped"@),
        DaemonStep::Exit(0),
    ]
}

/// How a failed start ends: the active marker, the busy marker and the
/// pidfile go, and the process exits 1.
pub open spec fn abort_steps() -> Seq<DaemonStep<Seq<char>>> {
    seq![
        DaemonStep::SetActive(false),
        DaemonStep::SetBusy(false),
        DaemonStep::RemovePid,
        DaemonStep::Exit(1),
    ]
}

/// A normal stop flushes the last usable audio before the daemon exits:
/// on the stop signal the microphone marker goes first, then the capture,
/// then the recognizer is flushed, and only then is the daemon's state
/// cleared, whatever the caller answers along the way.
pub proof fn law_stop_flushes_then_clears(
    backend: Seq<char>,
    events: Seq<DaemonEvent<Seq<char>>>,
)
    requires
        events.len() == 7,
        events[0] == DaemonEvent::<Seq<char>>::Stop,
    ensures
        daemon_run(backend, DaemonPhase::Listening, events) == shutdown_steps(),
{
    reveal_with_fuel(daemon_run, 8);
    assert(daemon_run(backend, DaemonPhase::Listening, events) =~= shutdown_steps());
}

/// Losing the audio (a stream error or a closed channel) is logged, and
/// then the daemon ends exactly as on a stop: flush first, then clear.
pub proof fn law_lost_audio_flushes_then_clears(
    backend: Seq<char>,
    events: Seq<DaemonEvent<Seq<char>>>,
)
    requires
        events.len() == 8,
        events[0] is AudioFailed || events[0] is Closed,
    ensures
        daemon_run(backend, DaemonPhase::Listening, events) == seq![
            DaemonStep::Log(
                if events[0] is AudioFailed {
                    "audio stream failed: "@ + events[0]->AudioFailed_0
                } else {
                    "audio channel closed"@
                },
            ),
        ] + shutdown_steps(),
{
    reveal_with_fuel(daemon_run, 9);
    assert(daemon_run(backend, DaemonPhase::Listening, events) =~= seq![
        DaemonStep::Log(
            if events[0] is AudioFailed {
                "audio stream failed: "@ + events[0]->AudioFailed_0
            } else {
                "audio channel closed"@
            },
        ),
    ] + shutdown_steps());
}

/// The capture loop goes on until a stop, an audio error or a closed
/// channel: a chunk is fed and listening resumes; anything else listens
/// again.
pub proof fn law_listening_continues(backend: Seq<char>, event: DaemonEvent<Seq<char>>)
    requires
        !(event is Stop || event is AudioFailed || event is Closed),
    ensures
        daemon_next(backend, DaemonPhase::Listening, event) == (if event is Chunk {
            (DaemonPhase::<Seq<char>>::Feeding, DaemonStep::<Seq<char>>::Feed)
        } else {
            (DaemonPhase::<Seq<char>>::Listening, DaemonStep::<Seq<char>>::Listen)
        }),
        daemon_next(backend, DaemonPhase::Feeding, event) == (
            DaemonPhase::<Seq<char>>::Listening,
            DaemonStep::<Seq<char>>::Listen,
        ),
{
}

/// A start that fails leaves nothing stale behind: the failure is logged
/// (a typer failure releases the capture first), then the active marker,
/// the busy marker and the pidfile go and the process exits 1.
pub proof fn law_failed_start_clears(
    backend: Seq<char>,
    phase: DaemonPhase<Seq<char>>,
    error: Seq<char>,
    events: Seq<DaemonEvent<Seq<char>>>,
)
    requires
        phase == DaemonPhase::<Seq<char>>::MakingRecognizer || phase
            == DaemonPhase::<Seq<char>>::OpeningAudio || phase
            == DaemonPhase::<Seq<char>>::MakingTyper,
        events.len() == 6,
        events[0] == DaemonEvent::Made(Err::<Seq<char>, Seq<char>>(error)),
    ensures
        phase == DaemonPhase::<Seq<char>>::MakingRecognizer ==> daemon_run(
            backend,
            phase,
            events.take(5),
        ) == seq![DaemonStep::Log(error)] + abort_steps(),
        phase == DaemonPhase::<Seq<char>>::OpeningAudio ==> daemon_run(
            backend,
            phase,
            events.take(5),
        ) == seq![DaemonStep::Log("audio: "@ + error)] + abort_steps(),
        phase == DaemonPhase::<Seq<char>>::MakingTyper ==> daemon_run(backend, phase, events)
            == seq![DaemonStep::ReleaseAudio, DaemonStep::Log("typing backend: "@ + error)]
            + abort_steps(),
{
    reveal_with_fuel(daemon_run, 7);
    if phase == DaemonPhase::<Seq<char>>::MakingTyper {
        assert(daemon_run(backend, phase, events) =~= seq![
            DaemonStep::ReleaseAudio,
            DaemonStep::Log("typing backend: "@ + error),
        ] + abort_steps());
    } else if phase == DaemonPhase::<Seq<char>>::OpeningAudio {
        assert(daemon_run(backend, phase, events.take(5)) =~= seq![
            DaemonStep::Log("audio: "@ + error),
        ] + abort_steps());
    } else {
        assert(daemon_run(backend, phase, events.take(5)) =~= seq![DaemonStep::Log(error)]
            + abort_steps());
    }
}

/// A second instance refuses and exits 0 without claiming the pidfile or
/// touching a marker.
pub proof fn law_second_instance_refused(
    backend: Seq<char>,
    events: Seq<DaemonEvent<Seq<char>>>,
)
    requires
        events.len() == 3,
        events[1] == DaemonEvent::<Seq<char>>::Running(true),
    ensures
        daemon_run(backend, DaemonPhase::Idle, events) == seq![
            DaemonStep::CheckRunning,
            DaemonStep::Log(refusal_message()),
            DaemonStep::Exit(0),
        ],
{
    reveal_with_fuel(daemon_run, 4);
    assert(daemon_run(backend, DaemonPhase::Idle, events) =~= seq![
        DaemonStep::CheckRunning,
        DaemonStep::Log(refusal_message()),
        DaemonStep::Exit(0),
    ]);
}

/// A start that succeeds claims the pidfile before loading anything,
/// then builds the recognizer, the capture and the typer in that order,
/// and only then listens.
pub proof fn law_start_order(
    backend: Seq<char>,
    a: Seq<char>,
    b: Seq<char>,
    typer: Seq<char>,
    events: Seq<DaemonEvent<Seq<char>>>,
)
    requires
        events.len() == 9,
        events[1] == DaemonEvent::<Seq<char>>::Running(false),
        events[4] == DaemonEvent::Made(Ok::<Seq<char>, Seq<char>>(a)),
        events[5] == DaemonEvent::Made(Ok::<Seq<char>, Seq<char>>(b)),
        events[6] == DaemonEvent::Made(Ok::<Seq<char>, Seq<char>>(typer)),
    ensures
        daemon_run(backend, DaemonPhase::Idle, events) == seq![
            DaemonStep::CheckRunning,
            DaemonStep::Claim,
            DaemonStep::Log("starting backend `"@ + backend + "`"@),
            DaemonStep::MakeRecognizer,
            DaemonStep::OpenAudio,
            DaemonStep::MakeTyper,
            DaemonStep::Log("typing via `"@ + typer + "`"@),
            DaemonStep::Log(listening_message()),
            DaemonStep::Listen,
        ],
{
    reveal_with_fuel(daemon_run, 10);
    assert(daemon_run(backend, DaemonPhase::Idle, events) =~= seq![
        DaemonStep::CheckRunning,
        DaemonStep::Claim,
        DaemonStep::Log("starting backend `"@ + backend + "`"@),
        DaemonStep::MakeRecognizer,
        DaemonStep::OpenAudio,
        DaemonStep::MakeTyper,
        DaemonStep::Log("typing via `"@ + typer + "`"@),
        DaemonStep::Log(listening_message()),
        DaemonStep::Listen,
    ]);
}

/// The lifecycle of one daemon process.
#[derive(Debug)]
pub struct Daemon {
    /// The configured recognition backend, for the log.
    pub backend: String,
    pub phase: DaemonPhase<String>,
}

impl Daemon {
    /// A daemon for `backend` that has done nothing yet.
    pub fn new(backend: &str) -> (r: Daemon)
        ensures
            r.backend@ == backend@,
            r.phase == DaemonPhase::<String>::Idle,
    {
        Daemon { backend: owned(backend), phase: DaemonPhase::Idle }
    }

    /// Advance on `event` and say what to do next.
    pub fn step(&mut self, event: DaemonEvent<String>) -> (r: DaemonStep<String>)
        ensures
            (phase_view(final(self).phase), step_view(r)) == daemon_next(
                old(self).backend@,
                phase_view(old(self).phase),
                event_view(event),
            ),
            final(self).backend == old(self).backend,
    {
        let mut phase = DaemonPhase::Idle;
        core::mem::swap(&mut phase, &mut self.phase);
        let (p, s) = match phase {
            DaemonPhase::Idle => (DaemonPhase::Checking, DaemonStep::CheckRunning),
            DaemonPhase::Checking => match event {
                DaemonEvent::Running(true) => (
                    DaemonPhase::Refusing,
                    DaemonStep::Log(owned("already running, refusing second instance")),
                ),
                DaemonEvent::Running(false) => (DaemonPhase::Claiming, DaemonStep::Claim),
                _ => (DaemonPhase::Checking, DaemonStep::CheckRunning),
            },
            DaemonPhase::Refusing => (DaemonPhase::Finished(0), DaemonStep::Exit(0)),
            DaemonPhase::Claiming => (
                DaemonPhase::Announcing,
                DaemonStep::Log(concat3("starting backend `", self.backend.as_str(), "`")),
            ),
            DaemonPhase::Announcing => (DaemonPhase::MakingRecognizer, DaemonStep::MakeRecognizer),
            DaemonPhase::MakingRecognizer => match event {
                DaemonEvent::Made(Ok(_)) => (DaemonPhase::OpeningAudio, DaemonStep::OpenAudio),
                DaemonEvent::Made(Err(e)) => (DaemonPhase::Aborting(0), DaemonStep::Log(e)),
                _ => (DaemonPhase::MakingRecognizer, DaemonStep::MakeRecognizer),
            },
            DaemonPhase::OpeningAudio => match event {
                DaemonEvent::Made(Ok(_)) => (DaemonPhase::MakingTyper, DaemonStep::MakeTyper),
                DaemonEvent::Made(Err(e)) => (
                    DaemonPhase::Aborting(0),
                    DaemonStep::Log(concat2("audio: ", e.as_str())),
                ),
                _ => (DaemonPhase::OpeningAudio, DaemonStep::OpenAudio),
            },
            DaemonPhase::MakingTyper => match event {
                DaemonEvent::Made(Ok(name)) => (
                    DaemonPhase::Greeting,
                    DaemonStep::Log(concat3("typing via `", name.as_str(), "`")),
                ),
                DaemonEvent::Made(Err(e)) => (
                    DaemonPhase::ReleasingFor(concat2("typing backend: ", e.as_str())),
                    DaemonStep::ReleaseAudio,
                ),
                _ => (DaemonPhase::MakingTyper, DaemonStep::MakeTyper),
            },
            DaemonPhase::ReleasingFor(m) => (DaemonPhase::Aborting(0), DaemonStep::Log(m)),
            DaemonPhase::Aborting(n) => if n == 0 {
                (DaemonPhase::Aborting(1), DaemonStep::SetActive(false))
            } else if n == 1 {
                (DaemonPhase::Aborting(2), DaemonStep::SetBusy(false))
            } else if n == 2 {
                (DaemonPhase::Aborting(3), DaemonStep::RemovePid)
            } else {
                (DaemonPhase::Finished(1), DaemonStep::Exit(1))
            },
            DaemonPhase::Greeting => (
                DaemonPhase::Welcoming,
                DaemonStep::Log(owned("listening \u{2014} native backend active")),
            ),
            DaemonPhase::Welcoming => (DaemonPhase::Listening, DaemonStep::Listen),
            DaemonPhase::Listening => match event {
                DaemonEvent::Stop => (DaemonPhase::Closing, DaemonStep::SetActive(false)),
                DaemonEvent::AudioFailed(e) => (
                    DaemonPhase::Breaking,
                    DaemonStep::Log(concat2("audio stream failed: ", e.as_str())),
                ),
                DaemonEvent::Closed => (
                    DaemonPhase::Breaking,
                    DaemonStep::Log(owned("audio channel closed")),
                ),
                DaemonEvent::Chunk => (DaemonPhase::Feeding, DaemonStep::Feed),
                _ => (DaemonPhase::Listening, DaemonStep::Listen),
            },
            DaemonPhase::Feeding => (DaemonPhase::Listening, DaemonStep::Listen),
            DaemonPhase::Breaking => (DaemonPhase::Closing, DaemonStep::SetActive(false)),
            DaemonPhase::Closing => (DaemonPhase::Releasing, DaemonStep::ReleaseAudio),
            DaemonPhase::Releasing => (DaemonPhase::Flushing, DaemonStep::Flush),
            DaemonPhase::Flushing => (DaemonPhase::Unpublishing, DaemonStep::RemovePid),
            DaemonPhase::Unpublishing => (DaemonPhase::ClearingBusy, DaemonStep::SetBusy(false)),
            DaemonPhase::ClearingBusy => (DaemonPhase::SigningOff, DaemonStep::Log(owned("stopped"))),
            DaemonPhase::SigningOff => (DaemonPhase::Finished(0), DaemonStep::Exit(0)),
            DaemonPhase::Finished(c) => (DaemonPhase::Finished(c), DaemonStep::Exit(c)),
        };
        self.phase = p;
        s
    }
}

} // verus!
