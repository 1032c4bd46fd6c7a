use dictation::config::{EngineConfig, Provider};
use dictation::provider::ProviderCandidate;
use dictation::segment::{
    auto_audio_ctx, buf_frames, buf_ms, create, join_parts, recognizer, strip_parens, Recognizer,
    RATE,
};

#[test]
fn stage_directions_are_dropped_but_speech_is_not() {
    assert_eq!(strip_parens("(upbeat music)"), "");
    assert_eq!(strip_parens("(crickets chirping)"), "");
    assert_eq!(strip_parens("hello (laughs) world"), "hello world");
    assert_eq!(strip_parens("hello (laughs)"), "hello");
    assert_eq!(strip_parens("no parens here"), "no parens here");
    assert_eq!(strip_parens("unclosed (laughs"), "unclosed (laughs");
}

#[test]
fn buf_ms_reports_milliseconds_not_deciseconds() {
    let rate = RATE as usize;
    assert_eq!(buf_ms(rate), 1000);
    assert_eq!(buf_ms(rate / 10), 100);
    assert_eq!(buf_ms(rate / 100), 10);
    assert_eq!(buf_ms(rate * 6), 6000);
}

#[test]
fn encoder_window_follows_the_buffer() {
    assert_eq!(buf_frames(320), 1);
    assert_eq!(buf_frames(321), 2);
    // 1 s = 50 frames, plus the 50-frame guard, already a multiple of 25.
    assert_eq!(auto_audio_ctx(16000), 100);
    // 0.1 s = 5 frames + 50 = 55, rounded up to 75.
    assert_eq!(auto_audio_ctx(1600), 75);
    // Never past Whisper's 30 s window.
    assert_eq!(auto_audio_ctx(16000 * 60), 1500);
}

#[test]
fn parts_join_with_one_space() {
    assert_eq!(join_parts("hello", "world"), "hello world");
    assert_eq!(join_parts("hello ", "world"), "hello world");
    assert_eq!(join_parts("", "world"), "world");
    assert_eq!(join_parts("hello", ""), "hello");
}

#[test]
fn backend_names_select_their_recognizer() {
    assert_eq!(recognizer("whisper"), Ok(Recognizer::Whisper));
    assert_eq!(recognizer("vosk"), Ok(Recognizer::Vosk));
    assert_eq!(recognizer("native"), Ok(Recognizer::Vosk));
    assert_eq!(recognizer("moonshine"), Ok(Recognizer::Moonshine));
    assert_eq!(recognizer("sensevoice"), Ok(Recognizer::SenseVoice));
    assert_eq!(recognizer("zipformer"), Ok(Recognizer::Zipformer));
    assert_eq!(recognizer("kaldi"), Err("unknown backend `kaldi`".to_string()));
    assert_eq!(recognizer("Whisper"), Err("unknown backend `Whisper`".to_string()));
}

#[test]
fn create_checks_the_provider_before_the_backend() {
    let mut engine = EngineConfig::defaults_under("/data");
    assert_eq!(create(&engine), Ok((ProviderCandidate::Cpu, Recognizer::Whisper)));
    engine.backend = "moonshine".to_string();
    assert_eq!(create(&engine), Ok((ProviderCandidate::Cpu, Recognizer::Moonshine)));
    engine.backend = "kaldi".to_string();
    assert_eq!(create(&engine), Err("unknown backend `kaldi`".to_string()));
    // A GPU pin on a CPU-only backend fails first, whatever the backend.
    engine.provider = Provider::Cuda;
    assert_eq!(
        create(&engine),
        Err("provider `cuda` needs the whisper backend; backend `kaldi` runs on CPU only"
            .to_string())
    );
}
