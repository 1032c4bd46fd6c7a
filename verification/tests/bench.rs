use dictation::bench::{
    edit_distance, read_wav, scored_words, thread_plan, wav_readable, window_label, window_plan,
    word_error_rate, word_errors, WavError,
};

fn words(list: &[&str]) -> Vec<String> {
    list.iter().map(|s| s.to_string()).collect()
}

#[test]
fn transcripts_are_scored_on_lowercase_words() {
    assert_eq!(scored_words("Hello, World! it's"), ["hello", "world", "it's"]);
    assert!(scored_words(" ... ").is_empty());
}

#[test]
fn word_error_rate_counts_edits() {
    assert_eq!(word_error_rate("the cat sat", "The cat sat."), (0, 3));
    assert_eq!(word_error_rate("the cat sat", "the bat sat down"), (2, 3));
    assert_eq!(word_error_rate("", "noise"), (1, 0));
    assert_eq!(word_error_rate("one two three", ""), (3, 3));
    assert_eq!(word_errors("a b", "a c"), Some((1, 2)));
    assert_eq!(
        edit_distance(&words(&["kitten", "sat"]), &words(&["sitting", "sat", "up"])),
        2
    );
}

fn wav(channels: u16, rate: u32, bits: u16, format: u16, data: &[u8]) -> Vec<u8> {
    let mut b = Vec::new();
    b.extend_from_slice(b"RIFF");
    b.extend_from_slice(&(36 + data.len() as u32).to_le_bytes());
    b.extend_from_slice(b"WAVE");
    b.extend_from_slice(b"fmt ");
    b.extend_from_slice(&16u32.to_le_bytes());
    b.extend_from_slice(&format.to_le_bytes());
    b.extend_from_slice(&channels.to_le_bytes());
    b.extend_from_slice(&rate.to_le_bytes());
    b.extend_from_slice(&(rate * channels as u32 * 2).to_le_bytes());
    b.extend_from_slice(&(channels * 2).to_le_bytes());
    b.extend_from_slice(&bits.to_le_bytes());
    b.extend_from_slice(b"data");
    b.extend_from_slice(&(data.len() as u32).to_le_bytes());
    b.extend_from_slice(data);
    b
}

fn pcm(samples: &[i16]) -> Vec<u8> {
    samples.iter().flat_map(|s| s.to_le_bytes()).collect()
}

#[test]
fn wav_frames_are_averaged_to_mono() {
    let bytes = wav(2, 48000, 16, 1, &pcm(&[100, 300, -3, -4, 7]));
    assert!(wav_readable(&bytes));
    let (mono, rate) = read_wav(&bytes).unwrap();
    assert_eq!(rate, 48000);
    // Rounds toward zero; the odd trailing sample is no full frame.
    assert_eq!(mono, [200, -3]);
    let bytes = wav(1, 16000, 16, 1, &pcm(&[1, -2, 3]));
    assert_eq!(read_wav(&bytes).unwrap().0, [1, -2, 3]);
}

#[test]
fn unusable_wavs_are_explained() {
    assert_eq!(read_wav(&[0u8; 50]).unwrap_err(), WavError::NotWave);
    assert_eq!(
        WavError::NotWave.message("x.wav"),
        "x.wav: not a RIFF/WAVE file"
    );
    let float = wav(1, 16000, 32, 3, &[0; 8]);
    assert_eq!(read_wav(&float).unwrap_err(), WavError::Compressed(3));
    assert_eq!(
        WavError::Compressed(3).message("x"),
        "compressed wav (format 3), need PCM"
    );
    let eight = wav(1, 16000, 8, 1, &[0; 8]);
    assert_eq!(read_wav(&eight).unwrap_err(), WavError::Depth(8));
    assert_eq!(WavError::Depth(8).message("x"), "8-bit wav unsupported for bench");
    let mut no_data = wav(1, 16000, 16, 1, &[]);
    no_data.truncate(36);
    no_data.extend_from_slice(b"LIST");
    no_data.extend_from_slice(&4u32.to_le_bytes());
    no_data.extend_from_slice(b"abcd");
    assert_eq!(read_wav(&no_data).unwrap_err(), WavError::NoData);
    assert_eq!(WavError::NoData.message("x"), "no data chunk");
    let mut cut = Vec::new();
    cut.extend_from_slice(b"RIFF");
    cut.extend_from_slice(&48u32.to_le_bytes());
    cut.extend_from_slice(b"WAVE");
    cut.extend_from_slice(b"data");
    cut.extend_from_slice(&24u32.to_le_bytes());
    cut.extend_from_slice(&[0; 24]);
    cut.extend_from_slice(b"fmt ");
    cut.extend_from_slice(&16u32.to_le_bytes());
    cut.extend_from_slice(&[1, 0, 1, 0]);
    assert!(!wav_readable(&cut));
    assert!(wav_readable(&[0u8; 30]));
}

#[test]
fn tuning_runs_skip_windows_too_small_for_the_audio() {
    let runs = window_plan(16000 * 10);
    assert_eq!(runs.len(), 13);
    assert_eq!(runs[0], (0, 1, 16000));
    assert_eq!(runs[3], (0, 8, 128000));
    assert_eq!(runs[8..11], [(300, 1, 16000), (300, 2, 32000), (300, 4, 64000)]);
    assert_eq!(runs[11..], [(150, 1, 16000), (150, 2, 32000)]);
    assert!(window_plan(7999).is_empty());
    let short = window_plan(10000);
    assert_eq!(short.len(), 16);
    assert!(short.iter().all(|r| r.2 == 10000));

    let threads = thread_plan(32000);
    assert_eq!(threads.len(), 8);
    assert_eq!(threads[0], (1, 1, 16000, 100));
    assert_eq!(threads[1], (1, 4, 32000, 150));
    assert_eq!(threads[7], (8, 4, 32000, 150));
    assert!(thread_plan(100).is_empty());
    assert_eq!(window_label(0), "default(30s)");
    assert_eq!(window_label(600), "audio_ctx=600");
}
