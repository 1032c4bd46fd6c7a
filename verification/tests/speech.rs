use dictation::speech::{
    finish, offline_final, partial_text, Decision, Offline, OfflineDetector, SpeechDetector,
};

const CHUNK: usize = 1600; // 100 ms at 16 kHz

#[test]
fn quiet_audio_never_opens_an_utterance() {
    let mut g = SpeechDetector::new();
    for _ in 0..20 {
        let (opened, d) = g.feed(CHUNK, false, true);
        assert!(!opened);
        assert!(matches!(d, Decision::Wait));
    }
    assert_eq!(g.buffered, 0);
    assert!(g.flush().is_none());
}

#[test]
fn a_second_of_speech_triggers_a_rolling_decode_then_the_tail_is_joined() {
    let mut g = SpeechDetector::new();
    let (opened, d) = g.feed(CHUNK, true, true);
    assert!(opened);
    assert!(matches!(d, Decision::Wait));
    for _ in 0..8 {
        let (opened, d) = g.feed(CHUNK, true, true);
        assert!(!opened);
        assert!(matches!(d, Decision::Wait));
    }
    // The tenth chunk makes one second of audio.
    match g.feed(CHUNK, true, true).1 {
        Decision::Rolling(ctx) => assert_eq!(ctx, 100),
        other => panic!("{other:?}"),
    }
    assert_eq!(g.rolling_done("hello".to_string()), Some(("hello".to_string(), true)));
    assert_eq!(g.transcribed, 16000);
    // The cadence has not passed: no second decode yet.
    assert!(matches!(g.feed(CHUNK, true, false).1, Decision::Wait));
    // Half a second of quiet after 1.1 s of speech ends the utterance.
    for _ in 0..4 {
        assert!(matches!(g.feed(CHUNK, false, true).1, Decision::Wait));
    }
    let plan = match g.feed(CHUNK, false, true).1 {
        Decision::Finish(Some(plan)) => plan,
        other => panic!("{other:?}"),
    };
    assert!(plan.tail);
    assert!(!plan.fresh);
    assert_eq!(plan.from, 16000);
    assert_eq!(plan.prior, "hello");
    assert!(!g.in_speech);
    assert_eq!(g.buffered, 0);
    assert_eq!(finish(&plan, "world"), Some(("hello world".to_string(), false)));
}

#[test]
fn a_noise_blip_is_not_transcribed() {
    let mut g = SpeechDetector::new();
    g.feed(CHUNK, true, true);
    // Too little speech for the pause to end it: the segment runs to
    // its six-second cap and is then dropped.
    for _ in 0..58 {
        assert!(matches!(g.feed(CHUNK, false, true).1, Decision::Wait));
    }
    assert!(matches!(g.feed(CHUNK, false, true).1, Decision::Finish(None)));
    assert!(!g.in_speech);
}

#[test]
fn a_short_utterance_is_decoded_whole_on_shutdown() {
    let mut g = SpeechDetector::new();
    for _ in 0..3 {
        g.feed(CHUNK, true, true);
    }
    let plan = g.flush().expect("300 ms of speech");
    assert!(!plan.tail);
    assert!(plan.fresh);
    assert_eq!(plan.from, 0);
    assert_eq!(plan.ctx, 75);
    assert_eq!(finish(&plan, "yes"), Some(("yes".to_string(), true)));
    assert_eq!(finish(&plan, ""), None);
}

#[test]
fn an_empty_rolling_decode_is_retried_later() {
    let mut g = SpeechDetector::new();
    for _ in 0..9 {
        g.feed(CHUNK, true, true);
    }
    assert!(matches!(g.feed(CHUNK, true, true).1, Decision::Rolling(_)));
    assert_eq!(g.rolling_done(String::new()), None);
    assert!(!g.emitted);
    assert!(g.decoded);
    assert!(matches!(g.feed(CHUNK, true, false).1, Decision::Wait));
    assert!(matches!(g.feed(CHUNK, true, true).1, Decision::Rolling(_)));
    assert!(g.can_feed(CHUNK));
}

#[test]
fn offline_backends_decode_after_a_pause() {
    let mut d = OfflineDetector::new(96000, true);
    // Quiet audio before speech is neither buffered nor busy.
    assert_eq!(d.feed(CHUNK, false, true), (false, Offline::Wait));
    assert_eq!(d.buffered, 0);
    assert_eq!(d.feed(CHUNK, true, true), (true, Offline::Wait));
    // 200 ms of speech allows a rolling decode.
    assert_eq!(d.feed(CHUNK, true, true), (true, Offline::Rolling));
    assert_eq!(d.rolling_done("hi".to_string()), Some(("hi".to_string(), false)));
    assert_eq!(d.rolling_done("hi".to_string()), None);
    // Interval not yet passed: no new decode.
    assert_eq!(d.feed(CHUNK, true, false), (true, Offline::Wait));
    for _ in 0..4 {
        assert_eq!(d.feed(CHUNK, false, false), (false, Offline::Wait));
    }
    assert_eq!(d.feed(CHUNK, false, false), (false, Offline::Finish(true)));
    assert!(!d.in_speech);
    assert_eq!(d.buffered, 0);
    assert_eq!(offline_final("hi there".to_string()), Some(("hi there".to_string(), true)));
    assert_eq!(offline_final(String::new()), None);
}

#[test]
fn offline_utterances_are_cut_at_the_buffer_limit() {
    let mut d = OfflineDetector::new(4 * CHUNK, false);
    for _ in 0..3 {
        assert_eq!(d.feed(CHUNK, true, true), (true, Offline::Wait));
    }
    assert_eq!(d.feed(CHUNK, true, true), (true, Offline::Finish(true)));
    assert_eq!(d.feed(0, true, true), (false, Offline::Wait));
    d.feed(CHUNK, true, true);
    assert_eq!(d.flush(), Some(false));
    assert_eq!(d.flush(), None);
}

#[test]
fn streaming_partials_are_emitted_once() {
    let mut last = String::new();
    assert_eq!(partial_text(&mut last, "one".to_string()), Some(("one".to_string(), false)));
    assert_eq!(partial_text(&mut last, "one".to_string()), None);
    assert_eq!(partial_text(&mut last, String::new()), None);
    assert_eq!(last, "one");
}
