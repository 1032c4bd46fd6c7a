use dictation::cli::{
    bench_child_args, bench_header, bench_models, check_line, dedup_strings, parse_config_command,
    parse_invocation, status_line, typing_probe, usage, BenchOptions, BenchStep, ConfigCommand,
    Invocation, TypingProbe,
};
use dictation::config::TypingBackend;
use dictation::session::SessionState;

fn args(list: &[&str]) -> Vec<String> {
    list.iter().map(|s| s.to_string()).collect()
}

#[test]
fn invocations_parse() {
    let p = |a: &[&str]| parse_invocation(&args(a));
    assert!(matches!(p(&["dictation", "toggle"]), Invocation::Toggle));
    assert!(matches!(p(&["dictation", "start"]), Invocation::Begin));
    assert!(matches!(p(&["dictation", "stop"]), Invocation::End));
    assert!(matches!(p(&["dictation", "--help"]), Invocation::Help));
    assert!(matches!(p(&["dictation"]), Invocation::Usage));
    assert!(matches!(p(&["dictation", "nonsense"]), Invocation::Usage));
    assert!(matches!(p(&["dictation", "__native-run"]), Invocation::NativeRun));
    assert!(matches!(p(&["dictation", "benchmark-tune"]), Invocation::BenchmarkTune(None)));
    match p(&["dictation", "__type"]) {
        Invocation::TypeText(t) => assert_eq!(t, ""),
        other => panic!("{other:?}"),
    }
    match p(&["dictation", "__whisper-bench-one", "a.wav", "m.bin", "-"]) {
        Invocation::WhisperBenchOne(w, m, None) => {
            assert_eq!(w, "a.wav");
            assert_eq!(m, "m.bin");
        }
        other => panic!("{other:?}"),
    }
    match p(&["dictation", "__streaming-bench-one", "a.wav", "zipformer", "hello"]) {
        Invocation::StreamingBenchOne(_, b, Some(r)) => {
            assert_eq!(b, "zipformer");
            assert_eq!(r, "hello");
        }
        other => panic!("{other:?}"),
    }
    match p(&["dictation", "__whisper-bench-one", "a.wav"]) {
        Invocation::Missing(m) => assert_eq!(m, "missing benchmark model path"),
        other => panic!("{other:?}"),
    }
    match p(&["dictation", "__streaming-bench-one"]) {
        Invocation::Missing(m) => assert_eq!(m, "missing benchmark WAV path"),
        other => panic!("{other:?}"),
    }
    assert!(usage().starts_with("Usage: dictation <command>\n"));
}

fn read_all(a: &[&str]) -> (BenchOptions, BenchStep) {
    let a = args(a);
    let mut o = BenchOptions::new();
    let step = o.read(&a);
    (o, step)
}

#[test]
fn benchmark_options_parse() {
    let (o, step) = read_all(&[
        "dictation",
        "benchmark",
        "a.wav",
        "--model",
        "m1",
        "--backend",
        "zipformer",
        "--reference",
        "hi there",
    ]);
    assert!(matches!(step, BenchStep::Done));
    assert_eq!(o.wav.as_deref(), Some("a.wav"));
    assert_eq!(o.models, ["m1"]);
    assert_eq!(o.backends, ["zipformer"]);
    assert_eq!(o.reference.as_deref(), Some("hi there"));

    let a = args(&["dictation", "benchmark", "--reference-file", "ref.txt", "b.wav"]);
    let mut o = BenchOptions::new();
    match o.read(&a) {
        BenchStep::ReadReference(path) => assert_eq!(path, "ref.txt"),
        other => panic!("{other:?}"),
    }
    o.set_reference("from file".to_string());
    assert!(matches!(o.read(&a), BenchStep::Done));
    assert_eq!(o.wav.as_deref(), Some("b.wav"));
    assert_eq!(o.reference.as_deref(), Some("from file"));

    let fails = |a: &[&str], expected: &str| match read_all(a).1 {
        BenchStep::Failed(m) => assert_eq!(m, expected),
        other => panic!("{other:?}"),
    };
    fails(
        &["dictation", "benchmark", "--backend", "vosk"],
        "unsupported candidate backend `vosk`; use moonshine or zipformer",
    );
    fails(&["dictation", "benchmark", "-x"], "unknown benchmark option `-x`");
    fails(
        &["dictation", "benchmark", "a.wav", "b.wav"],
        "unexpected benchmark argument `b.wav`",
    );
    fails(&["dictation", "benchmark", "--model"], "--model requires a model path");
    fails(
        &["dictation", "benchmark", "--backend"],
        "--backend requires a name (moonshine or zipformer)",
    );
    fails(
        &["dictation", "benchmark", "--reference"],
        "--reference requires transcript text",
    );
    fails(
        &["dictation", "benchmark", "--reference-file"],
        "--reference-file requires a file path",
    );
}

#[test]
fn benchmark_candidates_run_once_each() {
    let extra = args(&["a.bin", "cfg.bin", "a.bin", "b.bin"]);
    assert_eq!(bench_models("cfg.bin", &extra), ["cfg.bin", "a.bin", "b.bin"]);
    assert_eq!(
        dedup_strings(&args(&["zipformer", "moonshine", "zipformer"])),
        ["zipformer", "moonshine"]
    );
    assert_eq!(
        bench_child_args("__whisper-bench-one", "w.wav", "m.bin", None),
        ["__whisper-bench-one", "w.wav", "m.bin", "-"]
    );
    assert_eq!(
        bench_child_args("__streaming-bench-one", "w.wav", "moonshine", Some("hi")),
        ["__streaming-bench-one", "w.wav", "moonshine", "hi"]
    );
    assert_eq!(
        bench_header("w.wav", false),
        "Dictation backend benchmark\naudio: w.wav\nquality: transcript shown for manual comparison; pass --reference or --reference-file for WER\n"
    );
    assert_eq!(bench_header("w.wav", true), "Dictation backend benchmark\naudio: w.wav\n");
}

#[test]
fn status_and_doctor_lines() {
    assert_eq!(
        status_line(SessionState::Listening, "whisper"),
        "on — listening (backend: whisper)"
    );
    assert_eq!(
        status_line(SessionState::Dictating, "vosk"),
        "finishing — dictating final audio (backend: vosk)"
    );
    assert_eq!(status_line(SessionState::Off, "vosk"), "off");
    assert!(matches!(typing_probe(TypingBackend::Uinput), TypingProbe::Device("/dev/uinput")));
    assert!(matches!(
        typing_probe(TypingBackend::Wtype),
        TypingProbe::Program("wtype", "--version")
    ));
    assert!(matches!(
        typing_probe(TypingBackend::Ydotool),
        TypingProbe::Program("ydotool", "--help")
    ));
    assert_eq!(check_line("config", true, ""), "[ok] config");
    assert_eq!(
        check_line("typing backend", false, "wtype"),
        "[issue] typing backend: wtype"
    );
}

#[test]
fn config_subcommands_parse() {
    assert!(matches!(
        parse_config_command(&args(&["dictation", "config"])),
        ConfigCommand::ShowPath
    ));
    assert!(matches!(
        parse_config_command(&args(&["dictation", "config", "check"])),
        ConfigCommand::Check
    ));
    match parse_config_command(&args(&["dictation", "config", "edit"])) {
        ConfigCommand::Unknown(o) => assert_eq!(o, "edit"),
        other => panic!("{other:?}"),
    }
}
