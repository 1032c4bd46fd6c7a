use dictation::daemon::DaemonEvent::{AudioFailed, Chunk, Closed, Done, Quiet, Running, Start, Stop};
use dictation::daemon::{Daemon, DaemonEvent, DaemonStep};

fn run(backend: &str, events: Vec<DaemonEvent<String>>) -> Vec<DaemonStep<String>> {
    let mut daemon = Daemon::new(backend);
    events.into_iter().map(|e| daemon.step(e)).collect()
}

fn made(name: &str) -> DaemonEvent<String> {
    DaemonEvent::Made(Ok(name.to_string()))
}

fn failed(message: &str) -> DaemonEvent<String> {
    DaemonEvent::Made(Err(message.to_string()))
}

fn log(message: &str) -> DaemonStep<String> {
    DaemonStep::Log(message.to_string())
}

#[test]
fn a_session_starts_listens_and_flushes_before_it_exits() {
    let steps = run(
        "whisper",
        vec![
            Start,
            Running(false),
            Done,
            Done,
            made("whisper"),
            made("default"),
            made("wtype"),
            Done,
            Done,
            Quiet,
            Chunk,
            Done,
            Stop,
            Done,
            Done,
            Done,
            Done,
            Done,
            Done,
        ],
    );
    assert_eq!(
        steps,
        vec![
            DaemonStep::CheckRunning,
            DaemonStep::Claim,
            log("starting backend `whisper`"),
            DaemonStep::MakeRecognizer,
            DaemonStep::OpenAudio,
            DaemonStep::MakeTyper,
            log("typing via `wtype`"),
            log("listening \u{2014} native backend active"),
            DaemonStep::Listen,
            DaemonStep::Listen,
            DaemonStep::Feed,
            DaemonStep::Listen,
            DaemonStep::SetActive(false),
            DaemonStep::ReleaseAudio,
            DaemonStep::Flush,
            DaemonStep::RemovePid,
            DaemonStep::SetBusy(false),
            log("stopped"),
            DaemonStep::Exit(0),
        ]
    );
}

#[test]
fn a_second_daemon_refuses_without_touching_anything() {
    let steps = run("vosk", vec![Start, Running(true), Done]);
    assert_eq!(
        steps,
        vec![
            DaemonStep::CheckRunning,
            log("already running, refusing second instance"),
            DaemonStep::Exit(0),
        ]
    );
}

fn abort_tail() -> Vec<DaemonStep<String>> {
    vec![
        DaemonStep::SetActive(false),
        DaemonStep::SetBusy(false),
        DaemonStep::RemovePid,
        DaemonStep::Exit(1),
    ]
}

fn started() -> Vec<DaemonEvent<String>> {
    vec![Start, Running(false), Done, Done]
}

#[test]
fn failed_starts_clear_the_markers_and_exit_1() {
    let mut events = started();
    events.extend([failed("model missing"), Done, Done, Done, Done]);
    let mut expected = vec![
        DaemonStep::CheckRunning,
        DaemonStep::Claim,
        log("starting backend `whisper`"),
        DaemonStep::MakeRecognizer,
        log("model missing"),
    ];
    expected.extend(abort_tail());
    assert_eq!(run("whisper", events), expected);

    let mut events = started();
    events.extend([made("whisper"), failed("no input device"), Done, Done, Done, Done]);
    let steps = run("whisper", events);
    assert_eq!(steps[5], log("audio: no input device"));
    assert_eq!(&steps[6..], &abort_tail()[..]);

    let mut events = started();
    events.extend([made("whisper"), made("mic"), failed("no uinput"), Done, Done, Done, Done, Done]);
    let steps = run("whisper", events);
    assert_eq!(steps[6], DaemonStep::ReleaseAudio);
    assert_eq!(steps[7], log("typing backend: no uinput"));
    assert_eq!(&steps[8..], &abort_tail()[..]);
}

#[test]
fn losing_the_audio_is_logged_then_flushed() {
    for (event, line) in [
        (AudioFailed("device unplugged".to_string()), "audio stream failed: device unplugged"),
        (Closed, "audio channel closed"),
    ] {
        let mut events = vec![
            Start,
            Running(false),
            Done,
            Done,
            made("vosk"),
            made("mic"),
            made("uinput"),
            Done,
            Done,
            event,
        ];
        for _ in 0..7 {
            events.push(Done);
        }
        let steps = run("vosk", events);
        assert_eq!(steps[9], log(line));
        assert_eq!(steps[10], DaemonStep::SetActive(false));
        assert_eq!(steps[12], DaemonStep::Flush);
        assert_eq!(steps[16], DaemonStep::Exit(0));
    }
}
