//! The catalog of downloadable speech models and the decisions the
//! `model` command makes about them: where a model lives, whether it is
//! complete, how it is fetched, and what the configuration becomes when
//! it is selected.
use crate::config::{
    all_true, files_in, join_all, moonshine_files_v1, moonshine_files_v2, sense_voice_files,
    vosk_files, zipformer_files, EngineConfig,
};
use crate::paths::{
    base_or_tmp, models_root, opt_view, path_has_base, path_starts_with, paths_equal, same_path,
};
use crate::inject::push_all;
use crate::text::{
    chars_of, concat2, concat3, decimal, decimal_string, join, join_path, owned, parse_decimal,
    parse_u64, split, split_on, split_words, string_of_range, words,
};
use crate::text::{contains, ends_with, has_infix, has_prefix, has_suffix, starts_with, str_eq};
use vstd::prelude::*;

verus! {

/// One downloadable model.
#[derive(Clone, Copy, Debug)]
pub struct Entry {
    /// Name used on the command line.
    pub name: &'static str,
    /// Recognition backend that loads it.
    pub backend: &'static str,
    /// File (Whisper) or directory (other backends) under the model root.
    pub file: &'static str,
    /// Where it is downloaded from.
    pub url: &'static str,
}

/// An entry as plain text: name, backend, file, url.
pub type EntryView = (Seq<char>, Seq<char>, Seq<char>, Seq<char>);

pub open spec fn entry_view(e: Entry) -> EntryView {
    (e.name@, e.backend@, e.file@, e.url@)
}

/// Every model the catalog offers, in catalog order.
pub open spec fn catalog_spec() -> Seq<EntryView> {
    seq![
        ("whisper-tiny.en"@, "whisper"@, "ggml-tiny.en-q5_1.bin"@, "https://huggingface.co/ggerganov/whisper.cpp/resolve/main/ggml-tiny.en-q5_1.bin"@),
        ("whisper-base.en"@, "whisper"@, "ggml-base.en-q5_1.bin"@, "https://huggingface.co/ggerganov/whisper.cpp/resolve/main/ggml-base.en-q5_1.bin"@),
        ("whisper-small.en"@, "whisper"@, "ggml-small.en-q5_1.bin"@, "https://huggingface.co/ggerganov/whisper.cpp/resolve/main/ggml-small.en-q5_1.bin"@),
        ("whisper-tiny"@, "whisper"@, "ggml-tiny-q5_1.bin"@, "https://huggingface.co/ggerganov/whisper.cpp/resolve/main/ggml-tiny-q5_1.bin"@),
        ("whisper-base"@, "whisper"@, "ggml-base-q5_1.bin"@, "https://huggingface.co/ggerganov/whisper.cpp/resolve/main/ggml-base-q5_1.bin"@),
        ("whisper-small"@, "whisper"@, "ggml-small-q5_1.bin"@, "https://huggingface.co/ggerganov/whisper.cpp/resolve/main/ggml-small-q5_1.bin"@),
        ("whisper-medium.en"@, "whisper"@, "ggml-medium.en-q5_0.bin"@, "https://huggingface.co/ggerganov/whisper.cpp/resolve/main/ggml-medium.en-q5_0.bin"@),
        ("whisper-medium"@, "whisper"@, "ggml-medium-q5_0.bin"@, "https://huggingface.co/ggerganov/whisper.cpp/resolve/main/ggml-medium-q5_0.bin"@),
        ("whisper-large-v2"@, "whisper"@, "ggml-large-v2-q5_0.bin"@, "https://huggingface.co/ggerganov/whisper.cpp/resolve/main/ggml-large-v2-q5_0.bin"@),
        ("whisper-large-v3"@, "whisper"@, "ggml-large-v3-q5_0.bin"@, "https://huggingface.co/ggerganov/whisper.cpp/resolve/main/ggml-large-v3-q5_0.bin"@),
        ("whisper-large-v3-turbo"@, "whisper"@, "ggml-large-v3-turbo-q5_0.bin"@, "https://huggingface.co/ggerganov/whisper.cpp/resolve/main/ggml-large-v3-turbo-q5_0.bin"@),
        ("whisper-tiny.en-q8_0"@, "whisper"@, "ggml-tiny.en-q8_0.bin"@, "https://huggingface.co/ggerganov/whisper.cpp/resolve/main/ggml-tiny.en-q8_0.bin"@),
        ("whisper-tiny-q8_0"@, "whisper"@, "ggml-tiny-q8_0.bin"@, "https://huggingface.co/ggerganov/whisper.cpp/resolve/main/ggml-tiny-q8_0.bin"@),
        ("whisper-base.en-q8_0"@, "whisper"@, "ggml-base.en-q8_0.bin"@, "https://huggingface.co/ggerganov/whisper.cpp/resolve/main/ggml-base.en-q8_0.bin"@),
        ("whisper-base-q8_0"@, "whisper"@, "ggml-base-q8_0.bin"@, "https://huggingface.co/ggerganov/whisper.cpp/resolve/main/ggml-base-q8_0.bin"@),
        ("whisper-small.en-q8_0"@, "whisper"@, "ggml-small.en-q8_0.bin"@, "https://huggingface.co/ggerganov/whisper.cpp/resolve/main/ggml-small.en-q8_0.bin"@),
        ("whisper-small-q8_0"@, "whisper"@, "ggml-small-q8_0.bin"@, "https://huggingface.co/ggerganov/whisper.cpp/resolve/main/ggml-small-q8_0.bin"@),
        ("whisper-medium.en-q8_0"@, "whisper"@, "ggml-medium.en-q8_0.bin"@, "https://huggingface.co/ggerganov/whisper.cpp/resolve/main/ggml-medium.en-q8_0.bin"@),
        ("whisper-medium-q8_0"@, "whisper"@, "ggml-medium-q8_0.bin"@, "https://huggingface.co/ggerganov/whisper.cpp/resolve/main/ggml-medium-q8_0.bin"@),
        ("whisper-large-v3-turbo-q8_0"@, "whisper"@, "ggml-large-v3-turbo-q8_0.bin"@, "https://huggingface.co/ggerganov/whisper.cpp/resolve/main/ggml-large-v3-turbo-q8_0.bin"@),
        ("moonshine-tiny"@, "moonshine"@, "sherpa-onnx-moonshine-tiny-en-int8"@, "https://github.com/k2-fsa/sherpa-onnx/releases/download/asr-models/sherpa-onnx-moonshine-tiny-en-int8.tar.bz2"@),
        ("zipformer-20m"@, "zipformer"@, "sherpa-onnx-streaming-zipformer-en-20M-2023-02-17"@, "https://github.com/k2-fsa/sherpa-onnx/releases/download/asr-models/sherpa-onnx-streaming-zipformer-en-20M-2023-02-17.tar.bz2"@),
        ("sensevoice-multilingual-2025"@, "sensevoice"@, "sherpa-onnx-sense-voice-zh-en-ja-ko-yue-int8-2025-09-09"@, "https://github.com/k2-fsa/sherpa-onnx/releases/download/asr-models/sherpa-onnx-sense-voice-zh-en-ja-ko-yue-int8-2025-09-09.tar.bz2"@),
        ("sensevoice-multilingual-2024"@, "sensevoice"@, "sherpa-onnx-sense-voice-zh-en-ja-ko-yue-int8-2024-07-17"@, "https://github.com/k2-fsa/sherpa-onnx/releases/download/asr-models/sherpa-onnx-sense-voice-zh-en-ja-ko-yue-int8-2024-07-17.tar.bz2"@),
        ("moonshine-base-en"@, "moonshine"@, "sherpa-onnx-moonshine-base-en-int8"@, "https://github.com/k2-fsa/sherpa-onnx/releases/download/asr-models/sherpa-onnx-moonshine-base-en-int8.tar.bz2"@),
        ("moonshine-v2-base-en"@, "moonshine"@, "sherpa-onnx-moonshine-base-en-quantized-2026-02-27"@, "https://github.com/k2-fsa/sherpa-onnx/releases/download/asr-models/sherpa-onnx-moonshine-base-en-quantized-2026-02-27.tar.bz2"@),
        ("moonshine-v2-base-es"@, "moonshine"@, "sherpa-onnx-moonshine-base-es-quantized-2026-02-27"@, "https://github.com/k2-fsa/sherpa-onnx/releases/download/asr-models/sherpa-onnx-moonshine-base-es-quantized-2026-02-27.tar.bz2"@),
        ("moonshine-v2-base-ar"@, "moonshine"@, "sherpa-onnx-moonshine-base-ar-quantized-2026-02-27"@, "https://github.com/k2-fsa/sherpa-onnx/releases/download/asr-models/sherpa-onnx-moonshine-base-ar-quantized-2026-02-27.tar.bz2"@),
        ("moonshine-v2-base-zh"@, "moonshine"@, "sherpa-onnx-moonshine-base-zh-quantized-2026-02-27"@, "https://github.com/k2-fsa/sherpa-onnx/releases/download/asr-models/sherpa-onnx-moonshine-base-zh-quantized-2026-02-27.tar.bz2"@),
        ("moonshine-v2-base-ja"@, "moonshine"@, "sherpa-onnx-moonshine-base-ja-quantized-2026-02-27"@, "https://github.com/k2-fsa/sherpa-onnx/releases/download/asr-models/sherpa-onnx-moonshine-base-ja-quantized-2026-02-27.tar.bz2"@),
        ("moonshine-v2-base-ko"@, "moonshine"@, "sherpa-onnx-moonshine-base-ko-quantized-2026-02-27"@, "https://github.com/k2-fsa/sherpa-onnx/releases/download/asr-models/sherpa-onnx-moonshine-base-ko-quantized-2026-02-27.tar.bz2"@),
        ("moonshine-v2-base-uk"@, "moonshine"@, "sherpa-onnx-moonshine-base-uk-quantized-2026-02-27"@, "https://github.com/k2-fsa/sherpa-onnx/releases/download/asr-models/sherpa-onnx-moonshine-base-uk-quantized-2026-02-27.tar.bz2"@),
        ("moonshine-v2-base-vi"@, "moonshine"@, "sherpa-onnx-moonshine-base-vi-quantized-2026-02-27"@, "https://github.com/k2-fsa/sherpa-onnx/releases/download/asr-models/sherpa-onnx-moonshine-base-vi-quantized-2026-02-27.tar.bz2"@),
        ("vosk-en-us-small"@, "vosk"@, "vosk-model-small-en-us-0.15"@, "https://alphacephei.com/vosk/models/vosk-model-small-en-us-0.15.zip"@),
        ("vosk-en-us"@, "vosk"@, "vosk-model-en-us-0.22"@, "https://alphacephei.com/vosk/models/vosk-model-en-us-0.22.zip"@),
        ("vosk-en-us-lgraph"@, "vosk"@, "vosk-model-en-us-0.22-lgraph"@, "https://alphacephei.com/vosk/models/vosk-model-en-us-0.22-lgraph.zip"@),
        ("vosk-en-us-gigaspeech"@, "vosk"@, "vosk-model-en-us-0.42-gigaspeech"@, "https://alphacephei.com/vosk/models/vosk-model-en-us-0.42-gigaspeech.zip"@),
        ("vosk-en-in-small"@, "vosk"@, "vosk-model-small-en-in-0.4"@, "https://alphacephei.com/vosk/models/vosk-model-small-en-in-0.4.zip"@),
        ("vosk-en-in"@, "vosk"@, "vosk-model-en-in-0.5"@, "https://alphacephei.com/vosk/models/vosk-model-en-in-0.5.zip"@),
        ("vosk-ru-small"@, "vosk"@, "vosk-model-small-ru-0.22"@, "https://alphacephei.com/vosk/models/vosk-model-small-ru-0.22.zip"@),
        ("vosk-ru"@, "vosk"@, "vosk-model-ru-0.42"@, "https://alphacephei.com/vosk/models/vosk-model-ru-0.42.zip"@),
        ("vosk-fr-small"@, "vosk"@, "vosk-model-small-fr-0.22"@, "https://alphacephei.com/vosk/models/vosk-model-small-fr-0.22.zip"@),
        ("vosk-fr"@, "vosk"@, "vosk-model-fr-0.22"@, "https://alphacephei.com/vosk/models/vosk-model-fr-0.22.zip"@),
        ("vosk-de-small"@, "vosk"@, "vosk-model-small-de-0.15"@, "https://alphacephei.com/vosk/models/vosk-model-small-de-0.15.zip"@),
        ("vosk-de"@, "vosk"@, "vosk-model-de-0.21"@, "https://alphacephei.com/vosk/models/vosk-model-de-0.21.zip"@),
        ("vosk-es-small"@, "vosk"@, "vosk-model-small-es-0.42"@, "https://alphacephei.com/vosk/models/vosk-model-small-es-0.42.zip"@),
        ("vosk-es"@, "vosk"@, "vosk-model-es-0.42"@, "https://alphacephei.com/vosk/models/vosk-model-es-0.42.zip"@),
        ("vosk-pt-small"@, "vosk"@, "vosk-model-small-pt-0.3"@, "https://alphacephei.com/vosk/models/vosk-model-small-pt-0.3.zip"@),
        ("vosk-tr-small"@, "vosk"@, "vosk-model-small-tr-0.3"@, "https://alphacephei.com/vosk/models/vosk-model-small-tr-0.3.zip"@),
        ("vosk-vn-small"@, "vosk"@, "vosk-model-small-vn-0.4"@, "https://alphacephei.com/vosk/models/vosk-model-small-vn-0.4.zip"@),
        ("vosk-vn"@, "vosk"@, "vosk-model-vn-0.4"@, "https://alphacephei.com/vosk/models/vosk-model-vn-0.4.zip"@),
        ("vosk-it-small"@, "vosk"@, "vosk-model-small-it-0.22"@, "https://alphacephei.com/vosk/models/vosk-model-small-it-0.22.zip"@),
        ("vosk-it"@, "vosk"@, "vosk-model-it-0.22"@, "https://alphacephei.com/vosk/models/vosk-model-it-0.22.zip"@),
        ("vosk-nl-small"@, "vosk"@, "vosk-model-small-nl-0.22"@, "https://alphacephei.com/vosk/models/vosk-model-small-nl-0.22.zip"@),
        ("vosk-ca-small"@, "vosk"@, "vosk-model-small-ca-0.4"@, "https://alphacephei.com/vosk/models/vosk-model-small-ca-0.4.zip"@),
        ("vosk-ar"@, "vosk"@, "vosk-model-ar-mgb2-0.4"@, "https://alphacephei.com/vosk/models/vosk-model-ar-mgb2-0.4.zip"@),
        ("vosk-fa-small"@, "vosk"@, "vosk-model-small-fa-0.42"@, "https://alphacephei.com/vosk/models/vosk-model-small-fa-0.42.zip"@),
        ("vosk-hi-small"@, "vosk"@, "vosk-model-small-hi-0.22"@, "https://alphacephei.com/vosk/models/vosk-model-small-hi-0.22.zip"@),
        ("vosk-hi"@, "vosk"@, "vosk-model-hi-0.22"@, "https://alphacephei.com/vosk/models/vosk-model-hi-0.22.zip"@),
        ("vosk-ja-small"@, "vosk"@, "vosk-model-small-ja-0.22"@, "https://alphacephei.com/vosk/models/vosk-model-small-ja-0.22.zip"@),
        ("vosk-ja"@, "vosk"@, "vosk-model-ja-0.22"@, "https://alphacephei.com/vosk/models/vosk-model-ja-0.22.zip"@),
        ("vosk-zh-small"@, "vosk"@, "vosk-model-small-cn-0.22"@, "https://alphacephei.com/vosk/models/vosk-model-small-cn-0.22.zip"@),
        ("vosk-zh"@, "vosk"@, "vosk-model-cn-0.22"@, "https://alphacephei.com/vosk/models/vosk-model-cn-0.22.zip"@),
        ("vosk-pl-small"@, "vosk"@, "vosk-model-small-pl-0.22"@, "https://alphacephei.com/vosk/models/vosk-model-small-pl-0.22.zip"@),
        ("vosk-ko-small"@, "vosk"@, "vosk-model-small-ko-0.22"@, "https://alphacephei.com/vosk/models/vosk-model-small-ko-0.22.zip"@),
        ("vosk-kz-small"@, "vosk"@, "vosk-model-small-kz-0.42"@, "https://alphacephei.com/vosk/models/vosk-model-small-kz-0.42.zip"@),
        ("vosk-eo-small"@, "vosk"@, "vosk-model-small-eo-0.42"@, "https://alphacephei.com/vosk/models/vosk-model-small-eo-0.42.zip"@),
        ("vosk-cs-small"@, "vosk"@, "vosk-model-small-cs-0.4-rhasspy"@, "https://alphacephei.com/vosk/models/vosk-model-small-cs-0.4-rhasspy.zip"@),
        ("vosk-uz-small"@, "vosk"@, "vosk-model-small-uz-0.22"@, "https://alphacephei.com/vosk/models/vosk-model-small-uz-0.22.zip"@),
        ("vosk-gu-small"@, "vosk"@, "vosk-model-small-gu-0.42"@, "https://alphacephei.com/vosk/models/vosk-model-small-gu-0.42.zip"@),
        ("vosk-tg-small"@, "vosk"@, "vosk-model-small-tg-0.22"@, "https://alphacephei.com/vosk/models/vosk-model-small-tg-0.22.zip"@),
        ("vosk-te-small"@, "vosk"@, "vosk-model-small-te-0.42"@, "https://alphacephei.com/vosk/models/vosk-model-small-te-0.42.zip"@),
        ("vosk-ky-small"@, "vosk"@, "vosk-model-small-ky-0.42"@, "https://alphacephei.com/vosk/models/vosk-model-small-ky-0.42.zip"@),
        ("vosk-ka-small"@, "vosk"@, "vosk-model-small-ka-0.42"@, "https://alphacephei.com/vosk/models/vosk-model-small-ka-0.42.zip"@),
    ]
}

/// The catalog.
pub fn catalog() -> (r: Vec<Entry>)
    ensures
        r.len() == catalog_spec().len(),
        forall|i: int| 0 <= i < r.len() ==> #[trigger] entry_view(r@[i]) == catalog_spec()[i],
{
    let r = vec![
        Entry { name: "whisper-tiny.en", backend: "whisper", file: "ggml-tiny.en-q5_1.bin", url: "https://huggingface.co/ggerganov/whisper.cpp/resolve/main/ggml-tiny.en-q5_1.bin" },
        Entry { name: "whisper-base.en", backend: "whisper", file: "ggml-base.en-q5_1.bin", url: "https://huggingface.co/ggerganov/whisper.cpp/resolve/main/ggml-base.en-q5_1.bin" },
        Entry { name: "whisper-small.en", backend: "whisper", file: "ggml-small.en-q5_1.bin", url: "https://huggingface.co/ggerganov/whisper.cpp/resolve/main/ggml-small.en-q5_1.bin" },
        Entry { name: "whisper-tiny", backend: "whisper", file: "ggml-tiny-q5_1.bin", url: "https://huggingface.co/ggerganov/whisper.cpp/resolve/main/ggml-tiny-q5_1.bin" },
        Entry { name: "whisper-base", backend: "whisper", file: "ggml-base-q5_1.bin", url: "https://huggingface.co/ggerganov/whisper.cpp/resolve/main/ggml-base-q5_1.bin" },
        Entry { name: "whisper-small", backend: "whisper", file: "ggml-small-q5_1.bin", url: "https://huggingface.co/ggerganov/whisper.cpp/resolve/main/ggml-small-q5_1.bin" },
        Entry { name: "whisper-medium.en", backend: "whisper", file: "ggml-medium.en-q5_0.bin", url: "https://huggingface.co/ggerganov/whisper.cpp/resolve/main/ggml-medium.en-q5_0.bin" },
        Entry { name: "whisper-medium", backend: "whisper", file: "ggml-medium-q5_0.bin", url: "https://huggingface.co/ggerganov/whisper.cpp/resolve/main/ggml-medium-q5_0.bin" },
        Entry { name: "whisper-large-v2", backend: "whisper", file: "ggml-large-v2-q5_0.bin", url: "https://huggingface.co/ggerganov/whisper.cpp/resolve/main/ggml-large-v2-q5_0.bin" },
        Entry { name: "whisper-large-v3", backend: "whisper", file: "ggml-large-v3-q5_0.bin", url: "https://huggingface.co/ggerganov/whisper.cpp/resolve/main/ggml-large-v3-q5_0.bin" },
        Entry { name: "whisper-large-v3-turbo", backend: "whisper", file: "ggml-large-v3-turbo-q5_0.bin", url: "https://huggingface.co/ggerganov/whisper.cpp/resolve/main/ggml-large-v3-turbo-q5_0.bin" },
        Entry { name: "whisper-tiny.en-q8_0", backend: "whisper", file: "ggml-tiny.en-q8_0.bin", url: "https://huggingface.co/ggerganov/whisper.cpp/resolve/main/ggml-tiny.en-q8_0.bin" },
        Entry { name: "whisper-tiny-q8_0", backend: "whisper", file: "ggml-tiny-q8_0.bin", url: "https://huggingface.co/ggerganov/whisper.cpp/resolve/main/ggml-tiny-q8_0.bin" },
        Entry { name: "whisper-base.en-q8_0", backend: "whisper", file: "ggml-base.en-q8_0.bin", url: "https://huggingface.co/ggerganov/whisper.cpp/resolve/main/ggml-base.en-q8_0.bin" },
        Entry { name: "whisper-base-q8_0", backend: "whisper", file: "ggml-base-q8_0.bin", url: "https://huggingface.co/ggerganov/whisper.cpp/resolve/main/ggml-base-q8_0.bin" },
        Entry { name: "whisper-small.en-q8_0", backend: "whisper", file: "ggml-small.en-q8_0.bin", url: "https://huggingface.co/ggerganov/whisper.cpp/resolve/main/ggml-small.en-q8_0.bin" },
        Entry { name: "whisper-small-q8_0", backend: "whisper", file: "ggml-small-q8_0.bin", url: "https://huggingface.co/ggerganov/whisper.cpp/resolve/main/ggml-small-q8_0.bin" },
        Entry { name: "whisper-medium.en-q8_0", backend: "whisper", file: "ggml-medium.en-q8_0.bin", url: "https://huggingface.co/ggerganov/whisper.cpp/resolve/main/ggml-medium.en-q8_0.bin" },
        Entry { name: "whisper-medium-q8_0", backend: "whisper", file: "ggml-medium-q8_0.bin", url: "https://huggingface.co/ggerganov/whisper.cpp/resolve/main/ggml-medium-q8_0.bin" },
        Entry { name: "whisper-large-v3-turbo-q8_0", backend: "whisper", file: "ggml-large-v3-turbo-q8_0.bin", url: "https://huggingface.co/ggerganov/whisper.cpp/resolve/main/ggml-large-v3-turbo-q8_0.bin" },
        Entry { name: "moonshine-tiny", backend: "moonshine", file: "sherpa-onnx-moonshine-tiny-en-int8", url: "https://github.com/k2-fsa/sherpa-onnx/releases/download/asr-models/sherpa-onnx-moonshine-tiny-en-int8.tar.bz2" },
        Entry { name: "zipformer-20m", backend: "zipformer", file: "sherpa-onnx-streaming-zipformer-en-20M-2023-02-17", url: "https://github.com/k2-fsa/sherpa-onnx/releases/download/asr-models/sherpa-onnx-streaming-zipformer-en-20M-2023-02-17.tar.bz2" },
        Entry { name: "sensevoice-multilingual-2025", backend: "sensevoice", file: "sherpa-onnx-sense-voice-zh-en-ja-ko-yue-int8-2025-09-09", url: "https://github.com/k2-fsa/sherpa-onnx/releases/download/asr-models/sherpa-onnx-sense-voice-zh-en-ja-ko-yue-int8-2025-09-09.tar.bz2" },
        Entry { name: "sensevoice-multilingual-2024", backend: "sensevoice", file: "sherpa-onnx-sense-voice-zh-en-ja-ko-yue-int8-2024-07-17", url: "https://github.com/k2-fsa/sherpa-onnx/releases/download/asr-models/sherpa-onnx-sense-voice-zh-en-ja-ko-yue-int8-2024-07-17.tar.bz2" },
        Entry { name: "moonshine-base-en", backend: "moonshine", file: "sherpa-onnx-moonshine-base-en-int8", url: "https://github.com/k2-fsa/sherpa-onnx/releases/download/asr-models/sherpa-onnx-moonshine-base-en-int8.tar.bz2" },
        Entry { name: "moonshine-v2-base-en", backend: "moonshine", file: "sherpa-onnx-moonshine-base-en-quantized-2026-02-27", url: "https://github.com/k2-fsa/sherpa-onnx/releases/download/asr-models/sherpa-onnx-moonshine-base-en-quantized-2026-02-27.tar.bz2" },
        Entry { name: "moonshine-v2-base-es", backend: "moonshine", file: "sherpa-onnx-moonshine-base-es-quantized-2026-02-27", url: "https://github.com/k2-fsa/sherpa-onnx/releases/download/asr-models/sherpa-onnx-moonshine-base-es-quantized-2026-02-27.tar.bz2" },
        Entry { name: "moonshine-v2-base-ar", backend: "moonshine", file: "sherpa-onnx-moonshine-base-ar-quantized-2026-02-27", url: "https://github.com/k2-fsa/sherpa-onnx/releases/download/asr-models/sherpa-onnx-moonshine-base-ar-quantized-2026-02-27.tar.bz2" },
        Entry { name: "moonshine-v2-base-zh", backend: "moonshine", file: "sherpa-onnx-moonshine-base-zh-quantized-2026-02-27", url: "https://github.com/k2-fsa/sherpa-onnx/releases/download/asr-models/sherpa-onnx-moonshine-base-zh-quantized-2026-02-27.tar.bz2" },
        Entry { name: "moonshine-v2-base-ja", backend: "moonshine", file: "sherpa-onnx-moonshine-base-ja-quantized-2026-02-27", url: "https://github.com/k2-fsa/sherpa-onnx/releases/download/asr-models/sherpa-onnx-moonshine-base-ja-quantized-2026-02-27.tar.bz2" },
        Entry { name: "moonshine-v2-base-ko", backend: "moonshine", file: "sherpa-onnx-moonshine-base-ko-quantized-2026-02-27", url: "https://github.com/k2-fsa/sherpa-onnx/releases/download/asr-models/sherpa-onnx-moonshine-base-ko-quantized-2026-02-27.tar.bz2" },
        Entry { name: "moonshine-v2-base-uk", backend: "moonshine", file: "sherpa-onnx-moonshine-base-uk-quantized-2026-02-27", url: "https://github.com/k2-fsa/sherpa-onnx/releases/download/asr-models/sherpa-onnx-moonshine-base-uk-quantized-2026-02-27.tar.bz2" },
        Entry { name: "moonshine-v2-base-vi", backend: "moonshine", file: "sherpa-onnx-moonshine-base-vi-quantized-2026-02-27", url: "https://github.com/k2-fsa/sherpa-onnx/releases/download/asr-models/sherpa-onnx-moonshine-base-vi-quantized-2026-02-27.tar.bz2" },
        Entry { name: "vosk-en-us-small", backend: "vosk", file: "vosk-model-small-en-us-0.15", url: "https://alphacephei.com/vosk/models/vosk-model-small-en-us-0.15.zip" },
        Entry { name: "vosk-en-us", backend: "vosk", file: "vosk-model-en-us-0.22", url: "https://alphacephei.com/vosk/models/vosk-model-en-us-0.22.zip" },
        Entry { name: "vosk-en-us-lgraph", backend: "vosk", file: "vosk-model-en-us-0.22-lgraph", url: "https://alphacephei.com/vosk/models/vosk-model-en-us-0.22-lgraph.zip" },
        Entry { name: "vosk-en-us-gigaspeech", backend: "vosk", file: "vosk-model-en-us-0.42-gigaspeech", url: "https://alphacephei.com/vosk/models/vosk-model-en-us-0.42-gigaspeech.zip" },
        Entry { name: "vosk-en-in-small", backend: "vosk", file: "vosk-model-small-en-in-0.4", url: "https://alphacephei.com/vosk/models/vosk-model-small-en-in-0.4.zip" },
        Entry { name: "vosk-en-in", backend: "vosk", file: "vosk-model-en-in-0.5", url: "https://alphacephei.com/vosk/models/vosk-model-en-in-0.5.zip" },
        Entry { name: "vosk-ru-small", backend: "vosk", file: "vosk-model-small-ru-0.22", url: "https://alphacephei.com/vosk/models/vosk-model-small-ru-0.22.zip" },
        Entry { name: "vosk-ru", backend: "vosk", file: "vosk-model-ru-0.42", url: "https://alphacephei.com/vosk/models/vosk-model-ru-0.42.zip" },
        Entry { name: "vosk-fr-small", backend: "vosk", file: "vosk-model-small-fr-0.22", url: "https://alphacephei.com/vosk/models/vosk-model-small-fr-0.22.zip" },
        Entry { name: "vosk-fr", backend: "vosk", file: "vosk-model-fr-0.22", url: "https://alphacephei.com/vosk/models/vosk-model-fr-0.22.zip" },
        Entry { name: "vosk-de-small", backend: "vosk", file: "vosk-model-small-de-0.15", url: "https://alphacephei.com/vosk/models/vosk-model-small-de-0.15.zip" },
        Entry { name: "vosk-de", backend: "vosk", file: "vosk-model-de-0.21", url: "https://alphacephei.com/vosk/models/vosk-model-de-0.21.zip" },
        Entry { name: "vosk-es-small", backend: "vosk", file: "vosk-model-small-es-0.42", url: "https://alphacephei.com/vosk/models/vosk-model-small-es-0.42.zip" },
        Entry { name: "vosk-es", backend: "vosk", file: "vosk-model-es-0.42", url: "https://alphacephei.com/vosk/models/vosk-model-es-0.42.zip" },
        Entry { name: "vosk-pt-small", backend: "vosk", file: "vosk-model-small-pt-0.3", url: "https://alphacephei.com/vosk/models/vosk-model-small-pt-0.3.zip" },
        Entry { name: "vosk-tr-small", backend: "vosk", file: "vosk-model-small-tr-0.3", url: "https://alphacephei.com/vosk/models/vosk-model-small-tr-0.3.zip" },
        Entry { name: "vosk-vn-small", backend: "vosk", file: "vosk-model-small-vn-0.4", url: "https://alphacephei.com/vosk/models/vosk-model-small-vn-0.4.zip" },
        Entry { name: "vosk-vn", backend: "vosk", file: "vosk-model-vn-0.4", url: "https://alphacephei.com/vosk/models/vosk-model-vn-0.4.zip" },
        Entry { name: "vosk-it-small", backend: "vosk", file: "vosk-model-small-it-0.22", url: "https://alphacephei.com/vosk/models/vosk-model-small-it-0.22.zip" },
        Entry { name: "vosk-it", backend: "vosk", file: "vosk-model-it-0.22", url: "https://alphacephei.com/vosk/models/vosk-model-it-0.22.zip" },
        Entry { name: "vosk-nl-small", backend: "vosk", file: "vosk-model-small-nl-0.22", url: "https://alphacephei.com/vosk/models/vosk-model-small-nl-0.22.zip" },
        Entry { name: "vosk-ca-small", backend: "vosk", file: "vosk-model-small-ca-0.4", url: "https://alphacephei.com/vosk/models/vosk-model-small-ca-0.4.zip" },
        Entry { name: "vosk-ar", backend: "vosk", file: "vosk-model-ar-mgb2-0.4", url: "https://alphacephei.com/vosk/models/vosk-model-ar-mgb2-0.4.zip" },
        Entry { name: "vosk-fa-small", backend: "vosk", file: "vosk-model-small-fa-0.42", url: "https://alphacephei.com/vosk/models/vosk-model-small-fa-0.42.zip" },
        Entry { name: "vosk-hi-small", backend: "vosk", file: "vosk-model-small-hi-0.22", url: "https://alphacephei.com/vosk/models/vosk-model-small-hi-0.22.zip" },
        Entry { name: "vosk-hi", backend: "vosk", file: "vosk-model-hi-0.22", url: "https://alphacephei.com/vosk/models/vosk-model-hi-0.22.zip" },
        Entry { name: "vosk-ja-small", backend: "vosk", file: "vosk-model-small-ja-0.22", url: "https://alphacephei.com/vosk/models/vosk-model-small-ja-0.22.zip" },
        Entry { name: "vosk-ja", backend: "vosk", file: "vosk-model-ja-0.22", url: "https://alphacephei.com/vosk/models/vosk-model-ja-0.22.zip" },
        Entry { name: "vosk-zh-small", backend: "vosk", file: "vosk-model-small-cn-0.22", url: "https://alphacephei.com/vosk/models/vosk-model-small-cn-0.22.zip" },
        Entry { name: "vosk-zh", backend: "vosk", file: "vosk-model-cn-0.22", url: "https://alphacephei.com/vosk/models/vosk-model-cn-0.22.zip" },
        Entry { name: "vosk-pl-small", backend: "vosk", file: "vosk-model-small-pl-0.22", url: "https://alphacephei.com/vosk/models/vosk-model-small-pl-0.22.zip" },
        Entry { name: "vosk-ko-small", backend: "vosk", file: "vosk-model-small-ko-0.22", url: "https://alphacephei.com/vosk/models/vosk-model-small-ko-0.22.zip" },
        Entry { name: "vosk-kz-small", backend: "vosk", file: "vosk-model-small-kz-0.42", url: "https://alphacephei.com/vosk/models/vosk-model-small-kz-0.42.zip" },
        Entry { name: "vosk-eo-small", backend: "vosk", file: "vosk-model-small-eo-0.42", url: "https://alphacephei.com/vosk/models/vosk-model-small-eo-0.42.zip" },
        Entry { name: "vosk-cs-small", backend: "vosk", file: "vosk-model-small-cs-0.4-rhasspy", url: "https://alphacephei.com/vosk/models/vosk-model-small-cs-0.4-rhasspy.zip" },
        Entry { name: "vosk-uz-small", backend: "vosk", file: "vosk-model-small-uz-0.22", url: "https://alphacephei.com/vosk/models/vosk-model-small-uz-0.22.zip" },
        Entry { name: "vosk-gu-small", backend: "vosk", file: "vosk-model-small-gu-0.42", url: "https://alphacephei.com/vosk/models/vosk-model-small-gu-0.42.zip" },
        Entry { name: "vosk-tg-small", backend: "vosk", file: "vosk-model-small-tg-0.22", url: "https://alphacephei.com/vosk/models/vosk-model-small-tg-0.22.zip" },
        Entry { name: "vosk-te-small", backend: "vosk", file: "vosk-model-small-te-0.42", url: "https://alphacephei.com/vosk/models/vosk-model-small-te-0.42.zip" },
        Entry { name: "vosk-ky-small", backend: "vosk", file: "vosk-model-small-ky-0.42", url: "https://alphacephei.com/vosk/models/vosk-model-small-ky-0.42.zip" },
        Entry { name: "vosk-ka-small", backend: "vosk", file: "vosk-model-small-ka-0.42", url: "https://alphacephei.com/vosk/models/vosk-model-small-ka-0.42.zip" },
    ];
    assert(r.len() == catalog_spec().len());
    r
}


/// Position of the first catalog entry named `name`, searching from `i`.
pub open spec fn find_named(name: Seq<char>, i: int) -> Option<int>
    decreases catalog_spec().len() - i,
{
    if i < 0 || i >= catalog_spec().len() {
        None
    } else if catalog_spec()[i].0 == name {
        Some(i)
    } else {
        find_named(name, i + 1)
    }
}

proof fn lemma_find_named(name: Seq<char>, i: int)
    requires
        0 <= i <= catalog_spec().len(),
    ensures
        match find_named(name, i) {
            Some(k) => i <= k < catalog_spec().len() && catalog_spec()[k].0 == name
                && forall|j: int| i <= j < k ==> catalog_spec()[j].0 != name,
            None => forall|j: int| i <= j < catalog_spec().len() ==> catalog_spec()[j].0 != name,
        },
    decreases catalog_spec().len() - i,
{
    if i < catalog_spec().len() && catalog_spec()[i].0 != name {
        lemma_find_named(name, i + 1);
    }
}

/// The catalog entry called `name`, if there is one.
pub fn known(name: &str) -> (r: Option<Entry>)
    ensures
        match find_named(name@, 0) {
            Some(k) => r.is_some() && entry_view(r.unwrap()) == catalog_spec()[k],
            None => r.is_none(),
        },
{
    let cat = catalog();
    let mut i: usize = 0;
    while i < cat.len()
        invariant
            i <= cat.len(),
            cat.len() == catalog_spec().len(),
            forall|k: int| 0 <= k < cat.len() ==> #[trigger] entry_view(cat@[k]) == catalog_spec()[k],
            find_named(name@, 0) == find_named(name@, i as int),
        decreases cat.len() - i,
    {
        let e = cat[i];
        assert(entry_view(cat@[i as int]) == catalog_spec()[i as int]);
        if str_eq(e.name, name) {
            return Some(e);
        }
        i = i + 1;
    }
    None
}

/// Language column of the model list.
pub open spec fn language_of(name: Seq<char>, backend: Seq<char>) -> Seq<char> {
    if backend == "whisper"@ { if has_infix(name, ".en"@) { "English only"@ } else { "Multilingual"@ } } else if backend == "vosk"@ { if has_prefix(name, "vosk-en-in"@) { "English (India)"@ } else if has_prefix(name, "vosk-en"@) { "English (US)"@ } else if has_prefix(name, "vosk-ru"@) { "Russian"@ } else if has_prefix(name, "vosk-fr"@) { "French"@ } else if has_prefix(name, "vosk-de"@) { "German"@ } else if has_prefix(name, "vosk-es"@) { "Spanish"@ } else if has_prefix(name, "vosk-pt"@) { "Portuguese"@ } else if has_prefix(name, "vosk-tr"@) { "Turkish"@ } else if has_prefix(name, "vosk-vn"@) { "Vietnamese"@ } else if has_prefix(name, "vosk-it"@) { "Italian"@ } else if has_prefix(name, "vosk-nl"@) { "Dutch"@ } else if has_prefix(name, "vosk-ca"@) { "Catalan"@ } else if has_prefix(name, "vosk-ar"@) { "Arabic"@ } else if has_prefix(name, "vosk-fa"@) { "Persian"@ } else if has_prefix(name, "vosk-hi"@) { "Hindi"@ } else if has_prefix(name, "vosk-ja"@) { "Japanese"@ } else if has_prefix(name, "vosk-zh"@) { "Chinese"@ } else if has_prefix(name, "vosk-pl"@) { "Polish"@ } else if has_prefix(name, "vosk-ko"@) { "Korean"@ } else if has_prefix(name, "vosk-kz"@) { "Kazakh"@ } else if has_prefix(name, "vosk-eo"@) { "Esperanto"@ } else if has_prefix(name, "vosk-cs"@) { "Czech"@ } else if has_prefix(name, "vosk-uz"@) { "Uzbek"@ } else if has_prefix(name, "vosk-gu"@) { "Gujarati"@ } else if has_prefix(name, "vosk-tg"@) { "Tajik"@ } else if has_prefix(name, "vosk-te"@) { "Telugu"@ } else if has_prefix(name, "vosk-ky"@) { "Kyrgyz"@ } else if has_prefix(name, "vosk-ka"@) { "Georgian"@ } else { "See model name"@ } } else if backend == "moonshine"@ { if has_suffix(name, "-en"@) { "English"@ } else if has_suffix(name, "-es"@) { "Spanish"@ } else if has_suffix(name, "-ar"@) { "Arabic"@ } else if has_suffix(name, "-zh"@) { "Chinese"@ } else if has_suffix(name, "-ja"@) { "Japanese"@ } else if has_suffix(name, "-ko"@) { "Korean"@ } else if has_suffix(name, "-uk"@) { "Ukrainian"@ } else if has_suffix(name, "-vi"@) { "Vietnamese"@ } else { "English"@ } } else if backend == "sensevoice"@ { "English, Chinese, Japanese, Korean, Cantonese"@ } else if backend == "zipformer"@ { "English"@ } else { "Model specific"@ }
}

/// Approximate download size column of the model list.
pub open spec fn download_size_of(name: Seq<char>, backend: Seq<char>, file: Seq<char>) -> Seq<char> {
    if backend == "whisper"@ { if has_infix(file, "large-v3-turbo-q5_0"@) { "~547 MiB"@ } else if has_infix(file, "large-v3-turbo-q8_0"@) { "~834 MiB"@ } else if (has_infix(file, "large-v2-q5_0"@) || has_infix(file, "large-v3-q5_0"@)) { "~1.03 GiB"@ } else if (has_infix(file, "medium"@) && has_infix(file, "q5_0"@)) { "~514 MiB"@ } else if (has_infix(file, "medium"@) && has_infix(file, "q8_0"@)) { "~786 MiB"@ } else if (has_infix(file, "small"@) && has_infix(file, "q5_1"@)) { "~181 MiB"@ } else if (has_infix(file, "small"@) && has_infix(file, "q8_0"@)) { "~252 MiB"@ } else if (has_infix(file, "base"@) && has_infix(file, "q5_1"@)) { "~57 MiB"@ } else if (has_infix(file, "base"@) && has_infix(file, "q8_0"@)) { "~78 MiB"@ } else if (has_infix(file, "tiny"@) && has_infix(file, "q5_1"@)) { "~31 MiB"@ } else if (has_infix(file, "tiny"@) && has_infix(file, "q8_0"@)) { "~44 MiB"@ } else { "varies"@ } } else if backend == "vosk"@ { if file == "vosk-model-vn-0.4"@ { "~80 MiB"@ } else if file == "vosk-model-ar-mgb2-0.4"@ { "~320 MiB"@ } else if has_infix(file, "lgraph"@) { "~100–130 MiB"@ } else if has_infix(file, "small-"@) { "~30–90 MiB"@ } else { "~0.7–4.4 GiB"@ } } else if (backend == "moonshine"@ && has_prefix(name, "moonshine-v2"@)) { "~60–140 MiB"@ } else if (backend == "moonshine"@ && name == "moonshine-tiny"@) { "~235 MiB"@ } else if backend == "moonshine"@ { "~550 MiB"@ } else if backend == "sensevoice"@ { "~230 MiB"@ } else { "varies by package"@ }
}

/// One-line description of a model.
pub open spec fn summary_of(name: Seq<char>, backend: Seq<char>, file: Seq<char>) -> Seq<char> {
    if backend == "whisper"@ { if has_infix(name, "large-v3-turbo"@) { "Large-v3 Turbo; multilingual, faster large-model option"@ } else if has_infix(name, "large"@) { "Large multilingual model; highest resource demand"@ } else if has_infix(name, "medium"@) { "Medium model; balance of recognition and resource use"@ } else if has_infix(name, "small"@) { "Small model; balanced quality and resource use"@ } else if has_infix(name, "base"@) { "Base model; moderate resource use"@ } else { "Tiny model; lowest resource use"@ } } else if backend == "vosk"@ { if has_infix(file, "small-"@) { "Small-footprint streaming model"@ } else if has_infix(file, "lgraph"@) { "Medium model with dynamic graph"@ } else { "Larger-vocabulary model; higher disk and memory use"@ } } else if backend == "moonshine"@ { if has_prefix(name, "moonshine-v2"@) { "Newer language-specific Moonshine Base model"@ } else if has_infix(name, "base"@) { "Moonshine Base; larger English model"@ } else { "Moonshine Tiny; compact English model"@ } } else if backend == "sensevoice"@ { "Multilingual SenseVoiceSmall; automatic language recognition"@ } else if backend == "zipformer"@ { "Streaming Zipformer transducer"@ } else { "Speech recognition model"@ }
}

/// Smallest plausible size, in MiB, of a complete Whisper model file.
pub open spec fn whisper_min_mib(file: Seq<char>) -> nat {
    if has_infix(file, "large-v3-turbo-q5_0"@) { 500 } else if has_infix(file, "large-v3-turbo-q8_0"@) { 750 } else if (has_infix(file, "large-v2-q5_0"@) || has_infix(file, "large-v3-q5_0"@)) { 900 } else if (has_infix(file, "medium"@) && has_infix(file, "q5_0"@)) { 450 } else if (has_infix(file, "medium"@) && has_infix(file, "q8_0"@)) { 700 } else if (has_infix(file, "small"@) && has_infix(file, "q5_1"@)) { 160 } else if (has_infix(file, "small"@) && has_infix(file, "q8_0"@)) { 210 } else if (has_infix(file, "base"@) && has_infix(file, "q5_1"@)) { 48 } else if (has_infix(file, "base"@) && has_infix(file, "q8_0"@)) { 65 } else if (has_infix(file, "tiny"@) && has_infix(file, "q5_1"@)) { 25 } else if (has_infix(file, "tiny"@) && has_infix(file, "q8_0"@)) { 35 } else { 1 }
}

/// Language column of the model list.
#[verifier::rlimit(50)]
pub fn language(e: &Entry) -> (r: &'static str)
    ensures
        r@ == language_of(e.name@, e.backend@),
{
    let name = e.name;
    let backend = e.backend;
    if str_eq(backend, "whisper") { if contains(name, ".en") { "English only" } else { "Multilingual" } } else if str_eq(backend, "vosk") { if starts_with(name, "vosk-en-in") { "English (India)" } else if starts_with(name, "vosk-en") { "English (US)" } else if starts_with(name, "vosk-ru") { "Russian" } else if starts_with(name, "vosk-fr") { "French" } else if starts_with(name, "vosk-de") { "German" } else if starts_with(name, "vosk-es") { "Spanish" } else if starts_with(name, "vosk-pt") { "Portuguese" } else if starts_with(name, "vosk-tr") { "Turkish" } else if starts_with(name, "vosk-vn") { "Vietnamese" } else if starts_with(name, "vosk-it") { "Italian" } else if starts_with(name, "vosk-nl") { "Dutch" } else if starts_with(name, "vosk-ca") { "Catalan" } else if starts_with(name, "vosk-ar") { "Arabic" } else if starts_with(name, "vosk-fa") { "Persian" } else if starts_with(name, "vosk-hi") { "Hindi" } else if starts_with(name, "vosk-ja") { "Japanese" } else if starts_with(name, "vosk-zh") { "Chinese" } else if starts_with(name, "vosk-pl") { "Polish" } else if starts_with(name, "vosk-ko") { "Korean" } else if starts_with(name, "vosk-kz") { "Kazakh" } else if starts_with(name, "vosk-eo") { "Esperanto" } else if starts_with(name, "vosk-cs") { "Czech" } else if starts_with(name, "vosk-uz") { "Uzbek" } else if starts_with(name, "vosk-gu") { "Gujarati" } else if starts_with(name, "vosk-tg") { "Tajik" } else if starts_with(name, "vosk-te") { "Telugu" } else if starts_with(name, "vosk-ky") { "Kyrgyz" } else if starts_with(name, "vosk-ka") { "Georgian" } else { "See model name" } } else if str_eq(backend, "moonshine") { if ends_with(name, "-en") { "English" } else if ends_with(name, "-es") { "Spanish" } else if ends_with(name, "-ar") { "Arabic" } else if ends_with(name, "-zh") { "Chinese" } else if ends_with(name, "-ja") { "Japanese" } else if ends_with(name, "-ko") { "Korean" } else if ends_with(name, "-uk") { "Ukrainian" } else if ends_with(name, "-vi") { "Vietnamese" } else { "English" } } else if str_eq(backend, "sensevoice") { "English, Chinese, Japanese, Korean, Cantonese" } else if str_eq(backend, "zipformer") { "English" } else { "Model specific" }
}

/// Approximate download size column of the model list.
#[verifier::rlimit(50)]
pub fn download_size(e: &Entry) -> (r: &'static str)
    ensures
        r@ == download_size_of(e.name@, e.backend@, e.file@),
{
    let name = e.name;
    let backend = e.backend;
    let file = e.file;
    if str_eq(backend, "whisper") { if contains(file, "large-v3-turbo-q5_0") { "~547 MiB" } else if contains(file, "large-v3-turbo-q8_0") { "~834 MiB" } else if (contains(file, "large-v2-q5_0") || contains(file, "large-v3-q5_0")) { "~1.03 GiB" } else if (contains(file, "medium") && contains(file, "q5_0")) { "~514 MiB" } else if (contains(file, "medium") && contains(file, "q8_0")) { "~786 MiB" } else if (contains(file, "small") && contains(file, "q5_1")) { "~181 MiB" } else if (contains(file, "small") && contains(file, "q8_0")) { "~252 MiB" } else if (contains(file, "base") && contains(file, "q5_1")) { "~57 MiB" } else if (contains(file, "base") && contains(file, "q8_0")) { "~78 MiB" } else if (contains(file, "tiny") && contains(file, "q5_1")) { "~31 MiB" } else if (contains(file, "tiny") && contains(file, "q8_0")) { "~44 MiB" } else { "varies" } } else if str_eq(backend, "vosk") { if str_eq(file, "vosk-model-vn-0.4") { "~80 MiB" } else if str_eq(file, "vosk-model-ar-mgb2-0.4") { "~320 MiB" } else if contains(file, "lgraph") { "~100–130 MiB" } else if contains(file, "small-") { "~30–90 MiB" } else { "~0.7–4.4 GiB" } } else if (str_eq(backend, "moonshine") && starts_with(name, "moonshine-v2")) { "~60–140 MiB" } else if (str_eq(backend, "moonshine") && str_eq(name, "moonshine-tiny")) { "~235 MiB" } else if str_eq(backend, "moonshine") { "~550 MiB" } else if str_eq(backend, "sensevoice") { "~230 MiB" } else { "varies by package" }
}

/// One-line description of a model.
#[verifier::rlimit(50)]
pub fn summary(e: &Entry) -> (r: &'static str)
    ensures
        r@ == summary_of(e.name@, e.backend@, e.file@),
{
    let name = e.name;
    let backend = e.backend;
    let file = e.file;
    if str_eq(backend, "whisper") { if contains(name, "large-v3-turbo") { "Large-v3 Turbo; multilingual, faster large-model option" } else if contains(name, "large") { "Large multilingual model; highest resource demand" } else if contains(name, "medium") { "Medium model; balance of recognition and resource use" } else if contains(name, "small") { "Small model; balanced quality and resource use" } else if contains(name, "base") { "Base model; moderate resource use" } else { "Tiny model; lowest resource use" } } else if str_eq(backend, "vosk") { if contains(file, "small-") { "Small-footprint streaming model" } else if contains(file, "lgraph") { "Medium model with dynamic graph" } else { "Larger-vocabulary model; higher disk and memory use" } } else if str_eq(backend, "moonshine") { if starts_with(name, "moonshine-v2") { "Newer language-specific Moonshine Base model" } else if contains(name, "base") { "Moonshine Base; larger English model" } else { "Moonshine Tiny; compact English model" } } else if str_eq(backend, "sensevoice") { "Multilingual SenseVoiceSmall; automatic language recognition" } else if str_eq(backend, "zipformer") { "Streaming Zipformer transducer" } else { "Speech recognition model" }
}

/// Bytes below which a downloaded Whisper model file is truncated.
#[verifier::rlimit(50)]
pub fn whisper_min_bytes(file: &str) -> (r: u64)
    ensures
        r == whisper_min_mib(file@) * 1024 * 1024,
{
    let mib: u64 = if contains(file, "large-v3-turbo-q5_0") { 500 } else if contains(file, "large-v3-turbo-q8_0") { 750 } else if (contains(file, "large-v2-q5_0") || contains(file, "large-v3-q5_0")) { 900 } else if (contains(file, "medium") && contains(file, "q5_0")) { 450 } else if (contains(file, "medium") && contains(file, "q8_0")) { 700 } else if (contains(file, "small") && contains(file, "q5_1")) { 160 } else if (contains(file, "small") && contains(file, "q8_0")) { 210 } else if (contains(file, "base") && contains(file, "q5_1")) { 48 } else if (contains(file, "base") && contains(file, "q8_0")) { 65 } else if (contains(file, "tiny") && contains(file, "q5_1")) { 25 } else if (contains(file, "tiny") && contains(file, "q8_0")) { 35 } else { 1 };
    mib * 1024 * 1024
}

/// Where a catalog model lives under the model root.
pub open spec fn model_path_under(root: Seq<char>, file: Seq<char>) -> Seq<char> {
    join_path(root, file)
}

/// Where `e` lives under `root`.
pub fn model_path_in(root: &str, e: &Entry) -> (r: String)
    ensures
        r@ == model_path_under(root@, e.file@),
{
    join(root, e.file)
}

/// Where `e` lives under the managed model directory.
pub fn model_path(e: &Entry) -> (r: String)
    ensures
        exists|base: Option<Seq<char>>| r@ == model_path_under(
            join_path(base_or_tmp(base), "dictation/models"@),
            e.file@,
        ),
{
    let root = models_root();
    let ghost b = choose|base: Option<Seq<char>>| root@ == join_path(base_or_tmp(base), "dictation/models"@);
    let r = model_path_in(root.as_str(), e);
    assert(r@ == model_path_under(join_path(base_or_tmp(b), "dictation/models"@), e.file@));
    r
}

/// The engine setting that holds the model of `backend`, if any.
pub open spec fn model_setting(engine: EngineConfig, backend: Seq<char>) -> Option<Seq<char>> {
    if backend == "whisper"@ {
        Some(engine.whisper_model@)
    } else if backend == "moonshine"@ {
        Some(engine.moonshine_model_dir@)
    } else if backend == "zipformer"@ {
        Some(engine.zipformer_model_dir@)
    } else if backend == "vosk"@ {
        Some(engine.model_path@)
    } else if backend == "sensevoice"@ {
        Some(engine.sense_voice_model_dir@)
    } else {
        None
    }
}

/// `e`, found at `path`, is the model the configuration uses.
pub open spec fn active_spec(engine: EngineConfig, backend: Seq<char>, path: Seq<char>) -> bool {
    engine.backend@ == backend && match model_setting(engine, backend) {
        Some(setting) => same_path(setting, path),
        None => false,
    }
}

/// Whether the configuration uses `e`, installed at `path`.
pub fn is_active(engine: &EngineConfig, e: &Entry, path: &str) -> (r: bool)
    ensures
        r == active_spec(*engine, e.backend@, path@),
{
    if !str_eq(engine.backend.as_str(), e.backend) {
        return false;
    }
    let b = e.backend;
    if str_eq(b, "whisper") {
        paths_equal(engine.whisper_model.as_str(), path)
    } else if str_eq(b, "moonshine") {
        paths_equal(engine.moonshine_model_dir.as_str(), path)
    } else if str_eq(b, "zipformer") {
        paths_equal(engine.zipformer_model_dir.as_str(), path)
    } else if str_eq(b, "vosk") {
        paths_equal(engine.model_path.as_str(), path)
    } else if str_eq(b, "sensevoice") {
        paths_equal(engine.sense_voice_model_dir.as_str(), path)
    } else {
        false
    }
}

/// Files whose presence decides whether a model of `backend` is
/// complete; a Whisper model is judged by its own size instead.
pub open spec fn probe_names(backend: Seq<char>) -> Seq<Seq<char>> {
    if backend == "whisper"@ {
        Seq::empty()
    } else if backend == "vosk"@ {
        vosk_files()
    } else if backend == "moonshine"@ {
        moonshine_files_v2() + moonshine_files_v1()
    } else if backend == "sensevoice"@ {
        sense_voice_files()
    } else {
        zipformer_files()
    }
}

/// Whether a model is complete, given which of its probe files are
/// regular files (`present`, in `probe_names` order) and, for Whisper,
/// the size of the model file when it is a regular file.
pub open spec fn complete_spec(
    backend: Seq<char>,
    file: Seq<char>,
    present: Seq<bool>,
    size: Option<u64>,
) -> bool {
    if backend == "whisper"@ {
        match size {
            Some(n) => n >= whisper_min_mib(file) * 1024 * 1024,
            None => false,
        }
    } else if backend == "moonshine"@ {
        if present[0] {
            present[1] && present[2]
        } else {
            all_true(present.subrange(3, 8))
        }
    } else {
        all_true(present)
    }
}

/// The files to look for when judging whether `e`, at `path`, is complete.
pub fn probe_files(e: &Entry, path: &str) -> (r: Vec<String>)
    ensures
        r.deep_view() == files_in(path@, probe_names(e.backend@)),
{
    let b = e.backend;
    if str_eq(b, "whisper") {
        let r: Vec<String> = Vec::new();
        assert(r.deep_view() =~= files_in(path@, probe_names(e.backend@)));
        r
    } else if str_eq(b, "vosk") {
        let names = ["am/final.mdl", "conf/model.conf"];
        let r = join_all(path, &names);
        assert(names@.map_values(|n: &str| n@) =~= vosk_files());
        r
    } else if str_eq(b, "moonshine") {
        let names = [
            "encoder_model.ort",
            "decoder_model_merged.ort",
            "tokens.txt",
            "preprocess.onnx",
            "encode.int8.onnx",
            "uncached_decode.int8.onnx",
            "cached_decode.int8.onnx",
            "tokens.txt",
        ];
        let r = join_all(path, &names);
        assert(names@.map_values(|n: &str| n@) =~= moonshine_files_v2() + moonshine_files_v1());
        r
    } else if str_eq(b, "sensevoice") {
        let names = ["model.int8.onnx", "tokens.txt"];
        let r = join_all(path, &names);
        assert(names@.map_values(|n: &str| n@) =~= sense_voice_files());
        r
    } else {
        let names = [
            "encoder-epoch-99-avg-1.int8.onnx",
            "decoder-epoch-99-avg-1.onnx",
            "joiner-epoch-99-avg-1.int8.onnx",
            "tokens.txt",
        ];
        let r = join_all(path, &names);
        assert(names@.map_values(|n: &str| n@) =~= zipformer_files());
        r
    }
}

fn all_set(v: &Vec<bool>, from: usize, to: usize) -> (r: bool)
    requires
        from <= to <= v.len(),
    ensures
        r == all_true(v@.subrange(from as int, to as int)),
{
    let mut i = from;
    while i < to
        invariant
            from <= i <= to <= v.len(),
            all_true(v@.subrange(from as int, i as int)),
        decreases to - i,
    {
        if !v[i] {
            assert(v@.subrange(from as int, to as int)[i - from] == false);
            return false;
        }
        assert forall|j: int| 0 <= j < i + 1 - from implies #[trigger] v@.subrange(from as int, i + 1)[j] by {
            if j < i - from {
                assert(v@.subrange(from as int, i + 1)[j] == v@.subrange(from as int, i as int)[j]);
            }
        }
        i = i + 1;
    }
    true
}

/// Whether `e` is completely installed (see [`complete_spec`]).
pub fn is_complete(e: &Entry, present: &Vec<bool>, size: Option<u64>) -> (r: bool)
    requires
        present.len() == probe_names(e.backend@).len(),
    ensures
        r == complete_spec(e.backend@, e.file@, present@, size),
{
    let b = e.backend;
    if str_eq(b, "whisper") {
        match size {
            Some(n) => n >= whisper_min_bytes(e.file),
            None => false,
        }
    } else if str_eq(b, "moonshine") {
        proof {
            reveal_strlit("moonshine");
            reveal_strlit("vosk");
            assert("moonshine"@.len() == 9);
            assert("vosk"@.len() == 4);
            assert(b@ != "vosk"@);
            assert(probe_names(b@) == moonshine_files_v2() + moonshine_files_v1());
            assert(moonshine_files_v2().len() == 3);
            assert(present.len() == 8);
        }
        if present[0] {
            present[1] && present[2]
        } else {
            all_set(present, 3, 8)
        }
    } else {
        let r = all_set(present, 0, present.len());
        assert(present@.subrange(0, present.len() as int) =~= present@);
        r
    }
}

/// Index of the last `.` in `s`, or `-1`.
pub open spec fn last_dot(s: Seq<char>) -> int
    decreases s.len(),
{
    if s.len() == 0 {
        -1
    } else if s.last() == '.' {
        s.len() - 1
    } else {
        last_dot(s.drop_last())
    }
}

/// `Path::file_stem` of a file name: everything before the last `.`,
/// unless that dot is the first character.
pub open spec fn stem_of(name: Seq<char>) -> Seq<char> {
    if last_dot(name) <= 0 {
        name
    } else {
        name.subrange(0, last_dot(name))
    }
}

/// `Path::with_extension` on a plain file name.
pub open spec fn with_extension_name(name: Seq<char>, ext: Seq<char>) -> Seq<char> {
    stem_of(name) + seq!['.'] + ext
}

/// The stem of a file name (see [`stem_of`]).
fn stem(name: &str) -> (r: String)
    ensures
        r@ == stem_of(name@),
{
    let v = chars_of(name);
    let mut i = v.len();
    assert(v@.take(i as int) =~= v@);
    while i > 0
        invariant
            i <= v.len(),
            v@ == name@,
            last_dot(v@) == last_dot(v@.take(i as int)),
        decreases i,
    {
        assert(v@.take(i as int).drop_last() =~= v@.take(i - 1));
        assert(v@.take(i as int).last() == v@[i - 1]);
        if v[i - 1] == '.' {
            assert(last_dot(v@) == i - 1);
            if i - 1 == 0 {
                return owned(name);
            }
            let r = string_of_range(&v, 0, i - 1);
            assert(r@ == stem_of(name@));
            return r;
        }
        i = i - 1;
    }
    assert(v@.take(0) =~= Seq::<char>::empty());
    owned(name)
}

/// One program the download runs, with the messages for its failures.
#[derive(Debug, Clone)]
pub struct Fetch {
    pub program: String,
    pub args: Vec<String>,
    /// Reported, followed by `: ` and the OS error, when it cannot start.
    pub start_error: String,
    /// Reported when it exits unsuccessfully.
    pub failure: String,
}

pub type FetchView = (Seq<char>, Seq<Seq<char>>, Seq<char>, Seq<char>);

pub open spec fn fetch_view(f: Fetch) -> FetchView {
    (f.program@, f.args.deep_view(), f.start_error@, f.failure@)
}

pub open spec fn curl_spec(url: Seq<char>, to: Seq<char>, name: Seq<char>) -> FetchView {
    (
        "curl"@,
        seq!["-fL"@, "--retry"@, "3"@, "-C"@, "-"@, url, "-o"@, to],
        "start curl"@,
        "download failed for "@ + name + "; rerun install to resume"@,
    )
}

pub open spec fn unpack_failure(name: Seq<char>, archive: Seq<char>) -> Seq<char> {
    "could not unpack "@ + name + "; archive kept at "@ + archive
}

/// Archive a non-Whisper model is downloaded to before it is unpacked.
pub open spec fn archive_under(root: Seq<char>, backend: Seq<char>, file: Seq<char>) -> Seq<char> {
    join_path(
        root,
        with_extension_name(file, if backend == "vosk"@ { "zip"@ } else { "tar.bz2"@ }),
    )
}

/// The programs that download `(name, backend, file, url)` into `root`,
/// in order: Whisper files are fetched in place; Vosk zips and sherpa
/// tarballs are fetched beside their directory and unpacked into `root`.
pub open spec fn download_spec(
    root: Seq<char>,
    name: Seq<char>,
    backend: Seq<char>,
    file: Seq<char>,
    url: Seq<char>,
) -> Seq<FetchView> {
    let dest = model_path_under(root, file);
    let archive = archive_under(root, backend, file);
    if backend == "whisper"@ {
        seq![curl_spec(url, dest, name)]
    } else if backend == "vosk"@ {
        seq![
            curl_spec(url, archive, name),
            (
                "unzip"@,
                seq!["-oq"@, archive, "-d"@, root],
                "start unzip (install unzip)"@,
                unpack_failure(name, archive),
            ),
        ]
    } else {
        seq![
            curl_spec(url, archive, name),
            ("tar"@, seq!["-xjf"@, archive, "-C"@, root], "start tar"@, unpack_failure(name, archive)),
        ]
    }
}

/// Downloads are resumable: every download starts with a `curl` that
/// continues a partial file (`-C -`) and retries, into the model's own
/// path for Whisper and into an archive beside the model otherwise, and
/// a failed transfer asks for the install to be rerun.
pub proof fn law_downloads_resume(
    root: Seq<char>,
    name: Seq<char>,
    backend: Seq<char>,
    file: Seq<char>,
    url: Seq<char>,
)
    ensures
        download_spec(root, name, backend, file, url).len() >= 1,
        download_spec(root, name, backend, file, url)[0] == curl_spec(
            url,
            if backend == "whisper"@ {
                model_path_under(root, file)
            } else {
                archive_under(root, backend, file)
            },
            name,
        ),
        curl_spec(url, root, name).1.subrange(3, 5) == seq!["-C"@, "-"@],
        download_spec(root, name, backend, file, url).len() == 1 <==> backend == "whisper"@,
{
    assert(curl_spec(url, root, name).1.subrange(3, 5) =~= seq!["-C"@, "-"@]);
}

fn curl(url: &str, to: &str, name: &str) -> (r: Fetch)
    ensures
        fetch_view(r) == curl_spec(url@, to@, name@),
{
    let mut args: Vec<String> = Vec::new();
    let flags = ["-fL", "--retry", "3", "-C", "-"];
    push_all(&mut args, &flags);
    assert(args.deep_view() =~= seq!["-fL"@, "--retry"@, "3"@, "-C"@, "-"@]);
    args.push(owned(url));
    args.push(owned("-o"));
    args.push(owned(to));
    let failure = concat3("download failed for ", name, "; rerun install to resume");
    let r = Fetch { program: owned("curl"), args, start_error: owned("start curl"), failure };
    assert(r.args.deep_view() =~= seq!["-fL"@, "--retry"@, "3"@, "-C"@, "-"@, url@, "-o"@, to@]);
    r
}

fn unpack(program: &str, flag: &str, archive: &str, dir_flag: &str, root: &str, start: &str, name: &str) -> (r: Fetch)
    ensures
        fetch_view(r) == (
            program@,
            seq![flag@, archive@, dir_flag@, root@],
            start@,
            unpack_failure(name@, archive@),
        ),
{
    let mut args: Vec<String> = Vec::new();
    args.push(owned(flag));
    args.push(owned(archive));
    args.push(owned(dir_flag));
    args.push(owned(root));
    let head = concat3("could not unpack ", name, "; archive kept at ");
    let failure = concat2(head.as_str(), archive);
    let r = Fetch { program: owned(program), args, start_error: owned(start), failure };
    assert(r.args.deep_view() =~= seq![flag@, archive@, dir_flag@, root@]);
    r
}

/// The programs that download `e` into `root` (see [`download_spec`]).
pub fn download_steps(e: &Entry, root: &str) -> (r: Vec<Fetch>)
    ensures
        r@.map_values(|f: Fetch| fetch_view(f)) == download_spec(root@, e.name@, e.backend@, e.file@, e.url@),
{
    let dest = model_path_in(root, e);
    let mut r: Vec<Fetch> = Vec::new();
    if str_eq(e.backend, "whisper") {
        r.push(curl(e.url, dest.as_str(), e.name));
    } else {
        let vosk = str_eq(e.backend, "vosk");
        let base = stem(e.file);
        let ext = if vosk { "zip" } else { "tar.bz2" };
        let dotted = concat3(base.as_str(), ".", ext);
        let archive = join(root, dotted.as_str());
        proof {
            reveal_strlit(".");
            assert("."@ =~= seq!['.']);
            assert(dotted@ =~= with_extension_name(e.file@, ext@));
            assert(archive@ == archive_under(root@, e.backend@, e.file@));
        }
        r.push(curl(e.url, archive.as_str(), e.name));
        if vosk {
            r.push(unpack("unzip", "-oq", archive.as_str(), "-d", root, "start unzip (install unzip)", e.name));
        } else {
            r.push(unpack("tar", "-xjf", archive.as_str(), "-C", root, "start tar", e.name));
        }
    }
    assert(r@.map_values(|f: Fetch| fetch_view(f)) =~= download_spec(root@, e.name@, e.backend@, e.file@, e.url@));
    r
}

/// Reported when the files are still incomplete after a download.
pub fn incomplete_message(e: &Entry) -> (r: String)
    ensures
        r@ == "downloaded files for "@ + e.name@ + "; rerun install to resume"@,
{
    concat3("downloaded files for ", e.name, "; rerun install to resume")
}

/// What `model set` was asked to select.
#[derive(Debug, Clone)]
pub enum Selection {
    /// A catalog model, at its managed path.
    Catalog(Entry, String),
    /// Any other value, taken as the path of a Whisper model file.
    File(String),
}

/// Interprets the argument of `model set`: a catalog name selects that
/// model under `root`; anything else is a Whisper model path.
pub fn selection_target(value: &str, root: &str) -> (r: Selection)
    ensures
        match find_named(value@, 0) {
            Some(k) => r matches Selection::Catalog(e, p) && entry_view(e) == catalog_spec()[k]
                && p@ == model_path_under(root@, e.file@),
            None => r matches Selection::File(p) && p@ == value@,
        },
{
    match known(value) {
        Some(e) => {
            let p = model_path_in(root, &e);
            Selection::Catalog(e, p)
        },
        None => Selection::File(owned(value)),
    }
}

/// Reported when the selected catalog model is not installed.
pub fn not_installed_message(e: &Entry) -> (r: String)
    ensures
        r@ == e.name@ + " is not installed; run dictation model install "@ + e.name@,
{
    concat3(e.name, " is not installed; run dictation model install ", e.name)
}

/// Reported when the selected model file does not exist.
pub fn file_not_found_message(path: &str) -> (r: String)
    ensures
        r@ == "model file not found: "@ + path@,
{
    concat2("model file not found: ", path)
}

pub open spec fn selectable_backend(b: Seq<char>) -> bool {
    ||| b == "whisper"@
    ||| b == "moonshine"@
    ||| b == "zipformer"@
    ||| b == "vosk"@
    ||| b == "sensevoice"@
}

/// The engine settings after selecting a model of `backend` at `path`:
/// the backend and that backend's model setting change, nothing else.
pub open spec fn selected(after: EngineConfig, before: EngineConfig, backend: Seq<char>, path: Seq<char>) -> bool {
    &&& after.backend@ == backend
    &&& after.whisper_model@ == (if backend == "whisper"@ { path } else { before.whisper_model@ })
    &&& after.moonshine_model_dir@ == (if backend == "moonshine"@ {
        path
    } else {
        before.moonshine_model_dir@
    })
    &&& after.zipformer_model_dir@ == (if backend == "zipformer"@ {
        path
    } else {
        before.zipformer_model_dir@
    })
    &&& after.model_path@ == (if backend == "vosk"@ { path } else { before.model_path@ })
    &&& after.sense_voice_model_dir@ == (if backend == "sensevoice"@ {
        path
    } else {
        before.sense_voice_model_dir@
    })
    &&& after.provider == before.provider
    &&& after.threads == before.threads
    &&& after.typing_backend == before.typing_backend
    &&& after.audio_device@ == before.audio_device@
    &&& after.model_management == before.model_management
}

/// Makes `target` the configured model. A catalog entry must belong to
/// one of the five backends the catalog uses.
pub fn select(engine: &mut EngineConfig, target: &Selection)
    requires
        target matches Selection::Catalog(e, _) ==> selectable_backend(e.backend@),
    ensures
        match target {
            Selection::Catalog(e, p) => selected(*final(engine), *old(engine), e.backend@, p@),
            Selection::File(p) => selected(*final(engine), *old(engine), "whisper"@, p@),
        },
{
    proof {
        reveal_strlit("whisper");
        reveal_strlit("moonshine");
        reveal_strlit("zipformer");
        reveal_strlit("vosk");
        reveal_strlit("sensevoice");
        assert("whisper"@.len() == 7 && "moonshine"@.len() == 9 && "zipformer"@.len() == 9);
        assert("vosk"@.len() == 4 && "sensevoice"@.len() == 10);
        assert("moonshine"@[0] != "zipformer"@[0]);
    }
    match target {
        Selection::Catalog(e, p) => {
            let b = e.backend;
            engine.backend = owned(b);
            if str_eq(b, "whisper") {
                engine.whisper_model = owned(p.as_str());
            } else if str_eq(b, "moonshine") {
                engine.moonshine_model_dir = owned(p.as_str());
            } else if str_eq(b, "zipformer") {
                engine.zipformer_model_dir = owned(p.as_str());
            } else if str_eq(b, "vosk") {
                engine.model_path = owned(p.as_str());
            } else {
                engine.sense_voice_model_dir = owned(p.as_str());
            }
        },
        Selection::File(p) => {
            engine.backend = owned("whisper");
            engine.whisper_model = owned(p.as_str());
        },
    }
}

/// Selecting a catalog model makes it the active one: the configuration
/// then uses the model at exactly the path it was selected at.
pub proof fn law_selected_model_is_active(
    before: EngineConfig,
    after: EngineConfig,
    backend: Seq<char>,
    path: Seq<char>,
)
    requires
        selectable_backend(backend),
        selected(after, before, backend, path),
    ensures
        active_spec(after, backend, path),
{
}

/// The model setting of the configured backend, after a selection.
pub open spec fn selected_path_of(engine: EngineConfig) -> Seq<char> {
    let b = engine.backend@;
    if b == "whisper"@ {
        engine.whisper_model@
    } else if b == "vosk"@ || b == "native"@ {
        engine.model_path@
    } else if b == "moonshine"@ {
        engine.moonshine_model_dir@
    } else if b == "zipformer"@ {
        engine.zipformer_model_dir@
    } else {
        engine.sense_voice_model_dir@
    }
}

/// Confirmation printed after `model set` saved the configuration.
pub fn saved_message(engine: &EngineConfig) -> (r: String)
    requires
        selectable_backend(engine.backend@) || engine.backend@ == "native"@,
    ensures
        r@ == "Default model saved: "@ + selected_path_of(*engine) + " ("@ + engine.backend@ + ")"@,
{
    let b = engine.backend.as_str();
    let path = if str_eq(b, "whisper") {
        engine.whisper_model.as_str()
    } else if str_eq(b, "vosk") || str_eq(b, "native") {
        engine.model_path.as_str()
    } else if str_eq(b, "moonshine") {
        engine.moonshine_model_dir.as_str()
    } else if str_eq(b, "zipformer") {
        engine.zipformer_model_dir.as_str()
    } else {
        engine.sense_voice_model_dir.as_str()
    };
    let head = concat3("Default model saved: ", path, " (");
    concat3(head.as_str(), b, ")")
}

/// Why `model remove` refuses to delete `e` at `path`, if it does: the
/// path must lie under `root`, and the model must not be the active one.
pub open spec fn removal_refusal(
    engine: EngineConfig,
    backend: Seq<char>,
    path: Seq<char>,
    root: Seq<char>,
) -> Option<Seq<char>> {
    if !path_starts_with(path, root) {
        Some("refusing to remove a path outside the managed model directory"@)
    } else if active_spec(engine, backend, path) {
        Some("cannot remove the active model; set another model first"@)
    } else {
        None
    }
}

/// Checks that `e`, at `path`, may be removed (see [`removal_refusal`]).
pub fn check_removal(engine: &EngineConfig, e: &Entry, path: &str, root: &str) -> (r: Result<(), String>)
    ensures
        match removal_refusal(*engine, e.backend@, path@, root@) {
            Some(m) => r matches Err(x) && x@ == m,
            None => r is Ok,
        },
{
    if !path_has_base(path, root) {
        return Err(owned("refusing to remove a path outside the managed model directory"));
    }
    if is_active(engine, e, path) {
        return Err(owned("cannot remove the active model; set another model first"));
    }
    Ok(())
}

/// Status column of the model list.
pub open spec fn status_of(active: bool, installed: bool) -> Seq<char> {
    if active {
        "active"@
    } else if installed {
        "installed"@
    } else {
        "missing"@
    }
}

pub fn status_word(active: bool, installed: bool) -> (r: &'static str)
    ensures
        r@ == status_of(active, installed),
{
    if active {
        "active"
    } else if installed {
        "installed"
    } else {
        "missing"
    }
}

/// Next-command column of the model list.
pub open spec fn next_command_of(name: Seq<char>, active: bool, installed: bool) -> Seq<char> {
    if active {
        "already the default"@
    } else if installed {
        "dictation model set "@ + name
    } else {
        "dictation model install "@ + name
    }
}

pub fn next_command(e: &Entry, active: bool, installed: bool) -> (r: String)
    ensures
        r@ == next_command_of(e.name@, active, installed),
{
    if active {
        owned("already the default")
    } else if installed {
        concat2("dictation model set ", e.name)
    } else {
        concat2("dictation model install ", e.name)
    }
}

/// The `i`th command-line argument, if there is one.
pub open spec fn arg_spec(args: Seq<Seq<char>>, i: int) -> Option<Seq<char>> {
    if 0 <= i < args.len() {
        Some(args[i])
    } else {
        None
    }
}

/// A copy of the `i`th argument, if there is one.
pub fn arg_at(args: &Vec<String>, i: usize) -> (r: Option<String>)
    ensures
        opt_view(r) == arg_spec(args.deep_view(), i as int),
{
    if i < args.len() {
        Some(owned(args[i].as_str()))
    } else {
        None
    }
}

/// The `model` subcommand, as plain text.
pub enum ModelRequest {
    /// `management on|off`.
    Management(bool),
    /// `management` without `on` or `off`.
    ManagementUsage,
    /// `install`, `set` or `remove` while model management is off.
    ManagementDisabled,
    List(Option<Seq<char>>, bool),
    ListError(Seq<char>),
    Info(Option<Seq<char>>),
    Check(Option<Seq<char>>),
    Install(Option<Seq<char>>),
    Select(Option<Seq<char>>),
    Remove(Option<Seq<char>>),
    Recommend,
    Benchmark,
    Unknown(Seq<char>),
}

/// The `model` subcommand as it was parsed.
#[derive(Debug)]
pub enum ModelCommand {
    Management(bool),
    ManagementUsage,
    ManagementDisabled,
    /// `list`, with the backend filter and `--installed`.
    List(Option<String>, bool),
    /// A `list` option that is not understood.
    ListError(String),
    Info(Option<String>),
    Check(Option<String>),
    Install(Option<String>),
    /// `set`: make a model the default.
    Select(Option<String>),
    Remove(Option<String>),
    Recommend,
    Benchmark,
    Unknown(String),
}

pub open spec fn request_of(c: ModelCommand) -> ModelRequest {
    match c {
        ModelCommand::Management(on) => ModelRequest::Management(on),
        ModelCommand::ManagementUsage => ModelRequest::ManagementUsage,
        ModelCommand::ManagementDisabled => ModelRequest::ManagementDisabled,
        ModelCommand::List(b, i) => ModelRequest::List(opt_view(b), i),
        ModelCommand::ListError(m) => ModelRequest::ListError(m@),
        ModelCommand::Info(n) => ModelRequest::Info(opt_view(n)),
        ModelCommand::Check(n) => ModelRequest::Check(opt_view(n)),
        ModelCommand::Install(n) => ModelRequest::Install(opt_view(n)),
        ModelCommand::Select(n) => ModelRequest::Select(opt_view(n)),
        ModelCommand::Remove(n) => ModelRequest::Remove(opt_view(n)),
        ModelCommand::Recommend => ModelRequest::Recommend,
        ModelCommand::Benchmark => ModelRequest::Benchmark,
        ModelCommand::Unknown(o) => ModelRequest::Unknown(o@),
    }
}

/// The options of `model list` from position `i` on, given what the
/// earlier ones set; a later `--backend` replaces an earlier one.
pub open spec fn list_options(
    args: Seq<Seq<char>>,
    i: int,
    backend: Option<Seq<char>>,
    installed: bool,
) -> ModelRequest
    decreases args.len() - i,
{
    if i < 0 || i >= args.len() {
        ModelRequest::List(backend, installed)
    } else if args[i] == "--backend"@ {
        if i + 1 >= args.len() {
            ModelRequest::ListError(
                "--backend requires whisper, vosk, moonshine, zipformer, or sensevoice"@,
            )
        } else {
            list_options(args, i + 2, Some(args[i + 1]), installed)
        }
    } else if args[i] == "--installed"@ {
        list_options(args, i + 1, backend, true)
    } else {
        ModelRequest::ListError(
            "unknown model list option `"@ + args[i] + "`; use --backend NAME or --installed"@,
        )
    }
}

/// `dictation model ...`: `args[2]` names the subcommand (`list` when
/// absent), `args[3..]` its operands. `management` is the configured
/// `engine.model_management`.
pub open spec fn model_request(args: Seq<Seq<char>>, management: bool) -> ModelRequest {
    let sub = arg_spec(args, 2);
    let operand = arg_spec(args, 3);
    if sub == Some("management"@) {
        if operand == Some("on"@) {
            ModelRequest::Management(true)
        } else if operand == Some("off"@) {
            ModelRequest::Management(false)
        } else {
            ModelRequest::ManagementUsage
        }
    } else if !management && (sub == Some("install"@) || sub == Some("set"@) || sub == Some(
        "remove"@,
    )) {
        ModelRequest::ManagementDisabled
    } else {
        let name = match sub {
            Some(n) => n,
            None => "list"@,
        };
        if name == "list"@ {
            list_options(args, 3, None, false)
        } else if name == "info"@ {
            ModelRequest::Info(operand)
        } else if name == "check"@ {
            ModelRequest::Check(operand)
        } else if name == "install"@ {
            ModelRequest::Install(operand)
        } else if name == "set"@ {
            ModelRequest::Select(operand)
        } else if name == "remove"@ {
            ModelRequest::Remove(operand)
        } else if name == "recommend"@ {
            ModelRequest::Recommend
        } else if name == "benchmark"@ {
            ModelRequest::Benchmark
        } else {
            ModelRequest::Unknown(name)
        }
    }
}

fn parse_list(args: &Vec<String>) -> (r: ModelCommand)
    ensures
        request_of(r) == list_options(args.deep_view(), 3, None, false),
{
    let ghost a = args.deep_view();
    let mut backend: Option<String> = None;
    let mut installed = false;
    let mut i: usize = 3;
    while i < args.len()
        invariant
            a == args.deep_view(),
            3 <= i,
            list_options(a, i as int, opt_view(backend), installed) == list_options(a, 3, None, false),
        decreases args.len() - i,
    {
        let arg = args[i].as_str();
        if str_eq(arg, "--backend") {
            if i + 1 >= args.len() {
                return ModelCommand::ListError(
                    owned("--backend requires whisper, vosk, moonshine, zipformer, or sensevoice"),
                );
            }
            backend = Some(owned(args[i + 1].as_str()));
            i = i + 2;
        } else if str_eq(arg, "--installed") {
            installed = true;
            i = i + 1;
        } else {
            let head = concat3("unknown model list option `", arg, "`; use --backend NAME or --installed");
            return ModelCommand::ListError(head);
        }
    }
    ModelCommand::List(backend, installed)
}

/// Parses `dictation model ...` (see [`model_request`]).
pub fn parse_model_command(args: &Vec<String>, management: bool) -> (r: ModelCommand)
    ensures
        request_of(r) == model_request(args.deep_view(), management),
{
    let sub = arg_at(args, 2);
    let operand = arg_at(args, 3);
    let name: &str = match &sub {
        Some(n) => n.as_str(),
        None => "list",
    };
    if sub.is_some() && str_eq(name, "management") {
        return match &operand {
            Some(o) => if str_eq(o.as_str(), "on") {
                ModelCommand::Management(true)
            } else if str_eq(o.as_str(), "off") {
                ModelCommand::Management(false)
            } else {
                ModelCommand::ManagementUsage
            },
            None => ModelCommand::ManagementUsage,
        };
    }
    let guarded = sub.is_some() && (str_eq(name, "install") || str_eq(name, "set") || str_eq(name, "remove"));
    if !management && guarded {
        return ModelCommand::ManagementDisabled;
    }
    proof {
        reveal_strlit("list");
        reveal_strlit("management");
        reveal_strlit("install");
        reveal_strlit("set");
        reveal_strlit("remove");
        assert("list"@.len() == 4 && "management"@.len() == 10 && "install"@.len() == 7);
        assert("set"@.len() == 3 && "remove"@.len() == 6);
    }
    if str_eq(name, "list") {
        parse_list(args)
    } else if str_eq(name, "info") {
        ModelCommand::Info(operand)
    } else if str_eq(name, "check") {
        ModelCommand::Check(operand)
    } else if str_eq(name, "install") {
        ModelCommand::Install(operand)
    } else if str_eq(name, "set") {
        ModelCommand::Select(operand)
    } else if str_eq(name, "remove") {
        ModelCommand::Remove(operand)
    } else if str_eq(name, "recommend") {
        ModelCommand::Recommend
    } else if str_eq(name, "benchmark") {
        ModelCommand::Benchmark
    } else {
        ModelCommand::Unknown(owned(name))
    }
}

/// Reported for an unknown `model` subcommand.
pub fn unknown_command_message(other: &str) -> (r: String)
    ensures
        r@ == "unknown model command `"@ + other@
            + "`; use check, list, install, set, remove, recommend, benchmark, management"@,
{
    concat3(
        "unknown model command `",
        other,
        "`; use check, list, install, set, remove, recommend, benchmark, management",
    )
}

/// `a < b` in the order of `str`: by code point, a proper prefix first.
pub open spec fn text_lt(a: Seq<char>, b: Seq<char>) -> bool
    decreases a.len(),
{
    if a.len() == 0 {
        b.len() > 0
    } else if b.len() == 0 {
        false
    } else if a[0] != b[0] {
        (a[0] as u32) < (b[0] as u32)
    } else {
        text_lt(a.drop_first(), b.drop_first())
    }
}

proof fn lemma_text_lt_irreflexive(a: Seq<char>)
    ensures
        !text_lt(a, a),
    decreases a.len(),
{
    if a.len() > 0 {
        lemma_text_lt_irreflexive(a.drop_first());
    }
}

proof fn lemma_text_lt_transitive(a: Seq<char>, b: Seq<char>, c: Seq<char>)
    requires
        text_lt(a, b),
        text_lt(b, c),
    ensures
        text_lt(a, c),
    decreases a.len(),
{
    if a.len() > 0 && b.len() > 0 && c.len() > 0 && a[0] == b[0] && b[0] == c[0] {
        lemma_text_lt_transitive(a.drop_first(), b.drop_first(), c.drop_first());
    }
}

/// `a < b` on strings.
fn text_less(a: &str, b: &str) -> (r: bool)
    ensures
        r == text_lt(a@, b@),
{
    let x = chars_of(a);
    let y = chars_of(b);
    let mut i: usize = 0;
    assert(x@.skip(0) =~= x@);
    assert(y@.skip(0) =~= y@);
    while i < x.len() && i < y.len()
        invariant
            i <= x.len(),
            i <= y.len(),
            x@ == a@,
            y@ == b@,
            text_lt(a@, b@) == text_lt(x@.skip(i as int), y@.skip(i as int)),
        decreases x.len() - i,
    {
        assert(x@.skip(i as int).drop_first() =~= x@.skip(i + 1));
        assert(y@.skip(i as int).drop_first() =~= y@.skip(i + 1));
        if x[i] != y[i] {
            return (x[i] as u32) < (y[i] as u32);
        }
        i = i + 1;
    }
    i == x.len() && i < y.len()
}

/// The list order: by backend, then by name.
pub open spec fn key_lt(x: EntryView, y: EntryView) -> bool {
    text_lt(x.1, y.1) || (x.1 == y.1 && text_lt(x.0, y.0))
}

proof fn lemma_key_lt_order(x: EntryView, y: EntryView, z: EntryView)
    ensures
        !key_lt(x, x),
        key_lt(x, y) && key_lt(y, z) ==> key_lt(x, z),
{
    lemma_text_lt_irreflexive(x.1);
    lemma_text_lt_irreflexive(x.0);
    if key_lt(x, y) && key_lt(y, z) {
        if text_lt(x.1, y.1) && text_lt(y.1, z.1) {
            lemma_text_lt_transitive(x.1, y.1, z.1);
        }
        if x.1 == y.1 && y.1 == z.1 {
            lemma_text_lt_transitive(x.0, y.0, z.0);
        }
    }
}

fn entry_less(x: &Entry, y: &Entry) -> (r: bool)
    ensures
        r == key_lt(entry_view(*x), entry_view(*y)),
{
    text_less(x.backend, y.backend) || (str_eq(x.backend, y.backend) && text_less(x.name, y.name))
}

/// No entry comes after one that sorts after it.
pub open spec fn list_sorted(s: Seq<EntryView>) -> bool {
    forall|i: int, j: int| 0 <= i < j < s.len() ==> !key_lt(#[trigger] s[j], #[trigger] s[i])
}

/// The catalog entries that pass the backend filter, in catalog order.
pub open spec fn listed(filter: Option<Seq<char>>) -> Seq<EntryView> {
    catalog_spec().filter(|e: EntryView| filter matches Some(b) ==> e.1 == b)
}

/// `model list`: the catalog entries of the `filter` backend (all when
/// `None`), ordered by backend and then by name.
pub fn list_entries(filter: Option<&str>) -> (r: Vec<Entry>)
    ensures
        r@.map_values(|e: Entry| entry_view(e)).to_multiset() == listed(
            match filter {
                Some(b) => Some(b@),
                None => None,
            },
        ).to_multiset(),
        list_sorted(r@.map_values(|e: Entry| entry_view(e))),
{
    let ghost f: Option<Seq<char>> = match filter {
        Some(b) => Some(b@),
        None => None,
    };
    let ghost keep = |e: EntryView| f matches Some(b) ==> e.1 == b;
    let cat = catalog();
    let mut out: Vec<Entry> = Vec::new();
    let mut i: usize = 0;
    proof {
        reveal(Seq::filter);
        assert(catalog_spec().take(0).filter(keep) =~= Seq::<EntryView>::empty());
        assert(out@.map_values(|e: Entry| entry_view(e)) =~= Seq::<EntryView>::empty());
    }
    while i < cat.len()
        invariant
            i <= cat.len(),
            cat.len() == catalog_spec().len(),
            forall|k: int| 0 <= k < cat.len() ==> #[trigger] entry_view(cat@[k]) == catalog_spec()[k],
            keep == (|e: EntryView| f matches Some(b) ==> e.1 == b),
            f == (match filter {
                Some(b) => Some(b@),
                None => None::<Seq<char>>,
            }),
            out@.map_values(|e: Entry| entry_view(e)).to_multiset() == catalog_spec().take(
                i as int,
            ).filter(keep).to_multiset(),
            list_sorted(out@.map_values(|e: Entry| entry_view(e))),
        decreases cat.len() - i,
    {
        let e = cat[i];
        let ghost ev = entry_view(e);
        assert(ev == catalog_spec()[i as int]);
        let ghost before = out@.map_values(|e: Entry| entry_view(e));
        assert(catalog_spec().take(i + 1).drop_last() =~= catalog_spec().take(i as int));
        proof {
            reveal(Seq::filter);
            assert(catalog_spec().take(i + 1).last() == catalog_spec()[i as int]);
            assert(catalog_spec().take(i + 1).filter(keep) == if keep(ev) {
                catalog_spec().take(i as int).filter(keep).push(ev)
            } else {
                catalog_spec().take(i as int).filter(keep)
            });
        }
        let pass = match filter {
            Some(b) => str_eq(e.backend, b),
            None => true,
        };
        if pass {
            let mut pos: usize = 0;
            while pos < out.len() && !entry_less(&e, &out[pos])
                invariant
                    pos <= out.len(),
                    before == out@.map_values(|e: Entry| entry_view(e)),
                    forall|k: int| 0 <= k < pos ==> !key_lt(ev, #[trigger] before[k]),
                    ev == entry_view(e),
                decreases out.len() - pos,
            {
                pos = pos + 1;
            }
            out.insert(pos, e);
            proof {
                let now = out@.map_values(|e: Entry| entry_view(e));
                assert(now =~= before.insert(pos as int, ev));
                vstd::seq_lib::to_multiset_insert(before, pos as int, ev);
                vstd::seq_lib::to_multiset_build(catalog_spec().take(i as int).filter(keep), ev);
                assert forall|a: int, b: int| 0 <= a < b < now.len() implies !key_lt(#[trigger] now[b], #[trigger] now[a]) by {
                    if a < pos && b == pos {
                    } else if a == pos && b > pos {
                        lemma_key_lt_order(now[b], ev, before[pos as int]);
                        if b > pos + 1 {
                            assert(!key_lt(before[b - 1], before[pos as int]));
                        }
                    } else if a < pos && b > pos {
                        assert(now[a] == before[a]);
                        assert(now[b] == before[b - 1]);
                    } else if b < pos {
                    } else {
                        assert(now[a] == before[a - 1]);
                        assert(now[b] == before[b - 1]);
                    }
                }
            }
        }
        i = i + 1;
    }
    assert(catalog_spec().take(cat.len() as int) =~= catalog_spec());
    out
}

/// The first of `lines[i..]` that starts with `p`.
pub open spec fn first_with_prefix(lines: Seq<Seq<char>>, p: Seq<char>, i: int) -> Option<Seq<char>>
    decreases lines.len() - i,
{
    if i < 0 || i >= lines.len() {
        None
    } else if has_prefix(lines[i], p) {
        Some(lines[i])
    } else {
        first_with_prefix(lines, p, i + 1)
    }
}

/// The `MemAvailable:` figure of `/proc/meminfo`, in KiB: the second word
/// of the first line that starts with that key.
pub open spec fn mem_available_kib(meminfo: Seq<char>) -> Option<u64> {
    match first_with_prefix(split_on(meminfo, '\n'), "MemAvailable:"@, 0) {
        Some(line) => if words(line).len() > 1 {
            parse_u64(words(line)[1])
        } else {
            None
        },
        None => None,
    }
}

/// Available memory in MiB, or 0 when it cannot be read.
pub open spec fn available_mib(meminfo: Option<Seq<char>>) -> u64 {
    match meminfo {
        Some(m) => match mem_available_kib(m) {
            Some(k) => k / 1024,
            None => 0,
        },
        None => 0,
    }
}

/// The Whisper model suggested for `mib` of free memory.
pub open spec fn recommended_for(mib: u64) -> Seq<char> {
    if mib > 6000 {
        "whisper-small.en"@
    } else if mib > 2500 {
        "whisper-base.en"@
    } else {
        "whisper-tiny.en"@
    }
}

/// The `MemAvailable:` figure of `/proc/meminfo` (see [`mem_available_kib`]).
fn mem_available(text: &str) -> (r: Option<u64>)
    ensures
        r == mem_available_kib(text@),
{
    let lines = split(text, '\n');
    let ghost ls = lines.deep_view();
    let mut i: usize = 0;
    while i < lines.len()
        invariant
            i <= lines.len(),
            ls == lines.deep_view(),
            ls == split_on(text@, '\n'),
            first_with_prefix(ls, "MemAvailable:"@, 0) == first_with_prefix(ls, "MemAvailable:"@, i as int),
        decreases lines.len() - i,
    {
        assert(ls[i as int] == lines@[i as int]@);
        assert(ls.len() == lines.len());
        if starts_with(lines[i].as_str(), "MemAvailable:") {
            let w = split_words(lines[i].as_str());
            assert(first_with_prefix(ls, "MemAvailable:"@, i as int) == Some(ls[i as int]));
            if w.len() > 1 {
                assert(w.deep_view()[1] == w@[1]@);
                return parse_decimal(w[1].as_str());
            }
            return None;
        }
        i = i + 1;
    }
    None
}

/// Available memory in MiB, from the text of `/proc/meminfo` if it
/// could be read.
pub fn available_memory_mib(meminfo: Option<&str>) -> (r: u64)
    ensures
        r == available_mib(match meminfo {
            Some(m) => Some(m@),
            None => None,
        }),
{
    match meminfo {
        Some(text) => match mem_available(text) {
            Some(k) => k / 1024,
            None => 0,
        },
        None => 0,
    }
}

/// The Whisper model suggested for `mib` of free memory.
pub fn recommended_model(mib: u64) -> (r: &'static str)
    ensures
        r@ == recommended_for(mib),
{
    if mib > 6000 {
        "whisper-small.en"
    } else if mib > 2500 {
        "whisper-base.en"
    } else {
        "whisper-tiny.en"
    }
}

/// What `model recommend` prints for `mib` of free memory.
pub fn recommendation(mib: u64) -> (r: String)
    ensures
        r@ == "Recommended starting point: "@ + recommended_for(mib) + " (about "@ + decimal(
            mib as nat,
        )
            + " MiB memory currently available). This is a rough memory-based suggestion; benchmark on your device for speed and recognition quality."@,
{
    let head = concat3("Recommended starting point: ", recommended_model(mib), " (about ");
    let n = decimal_string(mib);
    let tail = concat2(
        n.as_str(),
        " MiB memory currently available). This is a rough memory-based suggestion; benchmark on your device for speed and recognition quality.",
    );
    concat2(head.as_str(), tail.as_str())
}

/// `model benchmark` arguments handed to `benchmark`: catalog names
/// become `--model <managed path>`, everything else passes through.
pub open spec fn forwarded_args(rest: Seq<Seq<char>>, root: Seq<char>) -> Seq<Seq<char>>
    decreases rest.len(),
{
    if rest.len() == 0 {
        Seq::empty()
    } else {
        let last = rest.last();
        forwarded_args(rest.drop_last(), root) + match find_named(last, 0) {
            Some(k) => seq!["--model"@, model_path_under(root, catalog_spec()[k].2)],
            None => seq![last],
        }
    }
}

/// `args[from..]`, empty when there are not that many.
pub open spec fn operands(args: Seq<Seq<char>>, from: int) -> Seq<Seq<char>> {
    if args.len() <= from {
        Seq::empty()
    } else {
        args.skip(from)
    }
}

/// `dictation benchmark ...` for `dictation model benchmark args[3..]`.
pub fn benchmark_args(args: &Vec<String>, root: &str) -> (r: Vec<String>)
    ensures
        r.deep_view() == seq!["dictation"@, "benchmark"@] + forwarded_args(
            operands(args.deep_view(), 3),
            root@,
        ),
{
    let mut r: Vec<String> = Vec::new();
    r.push(owned("dictation"));
    r.push(owned("benchmark"));
    let ghost a = args.deep_view();
    let mut i: usize = 3;
    if args.len() <= 3 {
        assert(forwarded_args(Seq::empty(), root@) =~= Seq::<Seq<char>>::empty());
        assert(r.deep_view() =~= seq!["dictation"@, "benchmark"@]);
        return r;
    }
    assert(a.skip(3).take(0) =~= Seq::<Seq<char>>::empty());
    while i < args.len()
        invariant
            3 <= i <= args.len(),
            a == args.deep_view(),
            r.deep_view() == seq!["dictation"@, "benchmark"@] + forwarded_args(a.skip(3).take(i - 3), root@),
        decreases args.len() - i,
    {
        let ghost r0 = r.deep_view();
        assert(a.skip(3).take(i + 1 - 3).drop_last() =~= a.skip(3).take(i - 3));
        assert(a.skip(3).take(i + 1 - 3).last() == a[i as int]);
        match known(args[i].as_str()) {
            Some(e) => {
                r.push(owned("--model"));
                r.push(model_path_in(root, &e));
                assert(r.deep_view() =~= r0 + seq!["--model"@, model_path_under(root@, e.file@)]);
            },
            None => {
                r.push(owned(args[i].as_str()));
                assert(r.deep_view() =~= r0 + seq![a[i as int]]);
            },
        }
        i = i + 1;
    }
    assert(a.skip(3).take(args.len() - 3) =~= a.skip(3));
    r
}

} // verus!
