//! Configuration types, their defaults, and the checks that catch
//! settings which parse but cannot work.
use crate::paths::{base_or_tmp, config_dir, config_dir_under, data_dir};
use crate::text::{concat2, concat3, join, join_path, owned, str_eq};
use vstd::prelude::*;

verus! {

/// Upper bound accepted for `engine.threads`.
pub const MAX_THREADS: usize = 128;

/// How recognized text reaches the focused window.
#[derive(Debug, Clone, Copy, PartialEq, Eq, Structural)]
pub enum TypingBackend {
    /// Built-in virtual keyboard; requires `/dev/uinput` access.
    Uinput,
    /// Wayland virtual-keyboard protocol.
    Wtype,
    /// Layout-aware uinput tool.
    Dotool,
    /// `ydotool` plus its daemon.
    Ydotool,
    /// X11/XTEST, including XWayland clients.
    Xdotool,
}

impl TypingBackend {
    /// Spelling used in the config file.
    pub open spec fn name(self) -> Seq<char> {
        match self {
            TypingBackend::Uinput => "uinput"@,
            TypingBackend::Wtype => "wtype"@,
            TypingBackend::Dotool => "dotool"@,
            TypingBackend::Ydotool => "ydotool"@,
            TypingBackend::Xdotool => "xdotool"@,
        }
    }

    /// Spelling used in the config file.
    pub fn as_str(self) -> (r: &'static str)
        ensures
            r@ == self.name(),
    {
        match self {
            TypingBackend::Uinput => "uinput",
            TypingBackend::Wtype => "wtype",
            TypingBackend::Dotool => "dotool",
            TypingBackend::Ydotool => "ydotool",
            TypingBackend::Xdotool => "xdotool",
        }
    }
}

impl Default for TypingBackend {
    fn default() -> (r: Self)
        ensures
            r == TypingBackend::Uinput,
    {
        TypingBackend::Uinput
    }
}

/// Where recognition runs.
#[derive(Debug, Clone, Copy, PartialEq, Eq, Structural)]
pub enum Provider {
    /// Probe the machine once at startup and use the best device available.
    Auto,
    /// Force CPU inference.
    Cpu,
    /// GPU through Vulkan.
    Vulkan,
    /// GPU through CUDA (NVIDIA only).
    Cuda,
    /// GPU through HIP/ROCm (AMD discrete GPUs).
    Hip,
    /// GPU through Metal (Apple only).
    Metal,
}

impl Provider {
    /// Spelling used in the config file.
    pub open spec fn name(self) -> Seq<char> {
        match self {
            Provider::Auto => "auto"@,
            Provider::Cpu => "cpu"@,
            Provider::Vulkan => "vulkan"@,
            Provider::Cuda => "cuda"@,
            Provider::Hip => "hip"@,
            Provider::Metal => "metal"@,
        }
    }

    /// Whether this pins a GPU device (as opposed to `auto` or `cpu`).
    pub open spec fn gpu(self) -> bool {
        !(self is Auto || self is Cpu)
    }

    /// Spelling used in the config file.
    pub fn as_str(self) -> (r: &'static str)
        ensures
            r@ == self.name(),
    {
        match self {
            Provider::Auto => "auto",
            Provider::Cpu => "cpu",
            Provider::Vulkan => "vulkan",
            Provider::Cuda => "cuda",
            Provider::Hip => "hip",
            Provider::Metal => "metal",
        }
    }

    /// Whether this pins a GPU device (as opposed to `auto` or `cpu`).
    pub fn is_gpu(self) -> (r: bool)
        ensures
            r == self.gpu(),
    {
        match self {
            Provider::Auto | Provider::Cpu => false,
            _ => true,
        }
    }
}

impl Default for Provider {
    fn default() -> (r: Self)
        ensures
            r == Provider::Auto,
    {
        Provider::Auto
    }
}

/// Recognition engine settings.
#[derive(Debug, Clone)]
pub struct EngineConfig {
    /// Recognition backend: `whisper`, `vosk`, `moonshine`, `zipformer`, or `sensevoice`.
    pub backend: String,
    /// Compute provider; only the Whisper backend has GPU paths.
    pub provider: Provider,
    /// Whisper/sherpa-onnx threads; `0` selects a backend default.
    pub threads: usize,
    /// Vosk model directory.
    pub model_path: String,
    /// Whisper ggml model file.
    pub whisper_model: String,
    /// Directory containing sherpa-onnx Moonshine models.
    pub moonshine_model_dir: String,
    /// Directory containing sherpa-onnx streaming Zipformer models.
    pub zipformer_model_dir: String,
    /// Directory containing a sherpa-onnx SenseVoice model package.
    pub sense_voice_model_dir: String,
    /// Backend that injects recognized text into the focused window.
    pub typing_backend: TypingBackend,
    /// Optional input-device name substring; empty selects the system default.
    pub audio_device: String,
    /// Allow model changes and downloads through the CLI.
    pub model_management: bool,
}

/// The default engine settings with model paths under `data`.
pub open spec fn engine_defaults_under(e: EngineConfig, data: Seq<char>) -> bool {
    &&& e.backend@ == "whisper"@
    &&& e.provider == Provider::Auto
    &&& e.threads == 0
    &&& e.model_path@ == join_path(data, "vocalinux/models/vosk-model-small-en-us-0.15"@)
    &&& e.whisper_model@ == join_path(data, "dictation/models/ggml-base.en-q5_1.bin"@)
    &&& e.moonshine_model_dir@ == join_path(
        data,
        "dictation/models/sherpa-onnx-moonshine-tiny-en-int8"@,
    )
    &&& e.zipformer_model_dir@ == join_path(
        data,
        "dictation/models/sherpa-onnx-streaming-zipformer-en-20M-2023-02-17"@,
    )
    &&& e.sense_voice_model_dir@ == join_path(
        data,
        "dictation/models/sherpa-onnx-sense-voice-zh-en-ja-ko-yue-int8-2025-09-09"@,
    )
    &&& e.typing_backend == TypingBackend::Uinput
    &&& e.audio_device@ == Seq::<char>::empty()
    &&& e.model_management
}

impl EngineConfig {
    /// Default settings with every model path under the data directory `data`.
    pub fn defaults_under(data: &str) -> (r: EngineConfig)
        ensures
            engine_defaults_under(r, data@),
    {
        EngineConfig {
            backend: owned("whisper"),
            provider: Provider::Auto,
            threads: 0,
            model_path: join(data, "vocalinux/models/vosk-model-small-en-us-0.15"),
            whisper_model: join(data, "dictation/models/ggml-base.en-q5_1.bin"),
            moonshine_model_dir: join(data, "dictation/models/sherpa-onnx-moonshine-tiny-en-int8"),
            zipformer_model_dir: join(
                data,
                "dictation/models/sherpa-onnx-streaming-zipformer-en-20M-2023-02-17",
            ),
            sense_voice_model_dir: join(
                data,
                "dictation/models/sherpa-onnx-sense-voice-zh-en-ja-ko-yue-int8-2025-09-09",
            ),
            typing_backend: TypingBackend::Uinput,
            audio_device: String::new(),
            model_management: true,
        }
    }
}

impl Default for EngineConfig {
    /// Default settings, with model paths under the user's data directory.
    fn default() -> (r: Self)
        ensures
            exists|base: Option<Seq<char>>| engine_defaults_under(r, base_or_tmp(base)),
    {
        let data = data_dir();
        EngineConfig::defaults_under(data.as_str())
    }
}

/// Where the indicator pill sits on screen.
#[derive(Debug, Clone, Copy, PartialEq, Eq, Structural)]
pub enum Anchor {
    TopLeft,
    TopRight,
    TopCenter,
    BottomLeft,
    BottomRight,
    BottomCenter,
}

impl Default for Anchor {
    fn default() -> (r: Self)
        ensures
            r == Anchor::BottomCenter,
    {
        Anchor::BottomCenter
    }
}

#[derive(Debug, Clone, Copy, PartialEq, Eq, Structural)]
pub enum Horizontal {
    Left,
    Center,
    Right,
}

#[derive(Debug, Clone, Copy, PartialEq, Eq, Structural)]
pub enum Vertical {
    Top,
    Bottom,
}

impl Anchor {
    pub open spec fn horizontal_of(self) -> Horizontal {
        match self {
            Anchor::TopLeft | Anchor::BottomLeft => Horizontal::Left,
            Anchor::TopCenter | Anchor::BottomCenter => Horizontal::Center,
            Anchor::TopRight | Anchor::BottomRight => Horizontal::Right,
        }
    }

    pub open spec fn vertical_of(self) -> Vertical {
        match self {
            Anchor::TopLeft | Anchor::TopRight | Anchor::TopCenter => Vertical::Top,
            Anchor::BottomLeft | Anchor::BottomRight | Anchor::BottomCenter => Vertical::Bottom,
        }
    }

    /// The screen edge (or center) the pill follows horizontally.
    pub fn horizontal(self) -> (r: Horizontal)
        ensures
            r == self.horizontal_of(),
    {
        match self {
            Anchor::TopLeft | Anchor::BottomLeft => Horizontal::Left,
            Anchor::TopCenter | Anchor::BottomCenter => Horizontal::Center,
            Anchor::TopRight | Anchor::BottomRight => Horizontal::Right,
        }
    }

    /// The screen edge the pill follows vertically.
    pub fn vertical(self) -> (r: Vertical)
        ensures
            r == self.vertical_of(),
    {
        match self {
            Anchor::TopLeft | Anchor::TopRight | Anchor::TopCenter => Vertical::Top,
            Anchor::BottomLeft | Anchor::BottomRight | Anchor::BottomCenter => Vertical::Bottom,
        }
    }
}

/// Indicator pill settings.
#[derive(Debug, Clone)]
pub struct IndicatorConfig {
    /// Disable the bundled pill while keeping dictation available.
    pub enabled: bool,
    /// Pill anchor, such as `bottom-center` or `top-right`.
    pub anchor: Anchor,
    /// Inset from the anchored screen edges, in pixels.
    pub margin: i32,
    pub width: i32,
    pub height: i32,
    /// Pill colors.
    pub background: String,
    pub accent: String,
    pub text: String,
    /// Font family for the pill label; the system font is the fallback.
    pub font: String,
    /// Optional user CSS file loaded above the built-in stylesheet.
    pub css_file: String,
}

/// The default indicator settings with the user stylesheet in `config_dir`.
pub open spec fn indicator_defaults_in(i: IndicatorConfig, config_dir: Seq<char>) -> bool {
    &&& i.enabled
    &&& i.anchor == Anchor::BottomCenter
    &&& i.margin == 24
    &&& i.width == 170
    &&& i.height == 44
    &&& i.background@ == "#1e1e2e"@
    &&& i.accent@ == "#89b4fa"@
    &&& i.text@ == "#cdd6f4"@
    &&& i.font@ == "JetBrainsMono Nerd Font"@
    &&& i.css_file@ == join_path(config_dir, "style.css"@)
}

impl IndicatorConfig {
    /// Default settings with the user stylesheet inside `config_dir`.
    pub fn defaults_in(config_dir: &str) -> (r: IndicatorConfig)
        ensures
            indicator_defaults_in(r, config_dir@),
    {
        IndicatorConfig {
            enabled: true,
            anchor: Anchor::BottomCenter,
            margin: 24,
            width: 170,
            height: 44,
            background: owned("#1e1e2e"),
            accent: owned("#89b4fa"),
            text: owned("#cdd6f4"),
            font: owned("JetBrainsMono Nerd Font"),
            css_file: join(config_dir, "style.css"),
        }
    }
}

impl Default for IndicatorConfig {
    /// Default settings; the user stylesheet lives in the config directory.
    fn default() -> (r: Self)
        ensures
            exists|base: Option<Seq<char>>| indicator_defaults_in(r, config_dir_under(base)),
    {
        let dir = config_dir();
        IndicatorConfig::defaults_in(dir.as_str())
    }
}

/// The whole configuration file.
#[derive(Debug, Clone)]
pub struct Config {
    pub indicator: IndicatorConfig,
    pub engine: EngineConfig,
}

impl Default for Config {
    fn default() -> (r: Self)
        ensures
            exists|base: Option<Seq<char>>| indicator_defaults_in(r.indicator, config_dir_under(base)),
            exists|base: Option<Seq<char>>| engine_defaults_under(r.engine, base_or_tmp(base)),
    {
        Config { indicator: IndicatorConfig::default(), engine: EngineConfig::default() }
    }
}

/// Backends the engine knows (`native` is the old name of `vosk`).
pub open spec fn known_backend(b: Seq<char>) -> bool {
    ||| b == "whisper"@
    ||| b == "vosk"@
    ||| b == "native"@
    ||| b == "moonshine"@
    ||| b == "zipformer"@
    ||| b == "sensevoice"@
}

pub open spec fn is_vosk(b: Seq<char>) -> bool {
    b == "vosk"@ || b == "native"@
}

pub open spec fn moonshine_files_v1() -> Seq<Seq<char>> {
    seq![
        "preprocess.onnx"@,
        "encode.int8.onnx"@,
        "uncached_decode.int8.onnx"@,
        "cached_decode.int8.onnx"@,
        "tokens.txt"@,
    ]
}

pub open spec fn moonshine_files_v2() -> Seq<Seq<char>> {
    seq!["encoder_model.ort"@, "decoder_model_merged.ort"@, "tokens.txt"@]
}

pub open spec fn zipformer_files() -> Seq<Seq<char>> {
    seq![
        "encoder-epoch-99-avg-1.int8.onnx"@,
        "decoder-epoch-99-avg-1.onnx"@,
        "joiner-epoch-99-avg-1.int8.onnx"@,
        "tokens.txt"@,
    ]
}

pub open spec fn sense_voice_files() -> Seq<Seq<char>> {
    seq!["model.int8.onnx"@, "tokens.txt"@]
}

pub open spec fn vosk_files() -> Seq<Seq<char>> {
    seq!["am/final.mdl"@, "conf/model.conf"@]
}

/// `names`, each joined onto `dir`.
pub open spec fn files_in(dir: Seq<char>, names: Seq<Seq<char>>) -> Seq<Seq<char>> {
    names.map_values(|n: Seq<char>| join_path(dir, n))
}

/// The files the configured backend needs, as alternatives: the model is
/// ready when every file of at least one alternative exists.
pub open spec fn model_file_sets(e: EngineConfig) -> Seq<Seq<Seq<char>>> {
    let b = e.backend@;
    if b == "whisper"@ {
        seq![seq![e.whisper_model@]]
    } else if is_vosk(b) {
        seq![files_in(e.model_path@, vosk_files())]
    } else if b == "moonshine"@ {
        seq![
            files_in(e.moonshine_model_dir@, moonshine_files_v1()),
            files_in(e.moonshine_model_dir@, moonshine_files_v2()),
        ]
    } else if b == "zipformer"@ {
        seq![files_in(e.zipformer_model_dir@, zipformer_files())]
    } else if b == "sensevoice"@ {
        seq![files_in(e.sense_voice_model_dir@, sense_voice_files())]
    } else {
        seq![]
    }
}

pub open spec fn all_true(s: Seq<bool>) -> bool {
    forall|j: int| 0 <= j < s.len() ==> #[trigger] s[j]
}

/// Some alternative of `present` is all `true`.
pub open spec fn some_set_complete(present: Seq<Seq<bool>>) -> bool {
    exists|i: int| 0 <= i < present.len() && #[trigger] all_true(present[i])
}

/// The message for a backend whose model files are missing.
pub open spec fn missing_model_message(e: EngineConfig) -> Seq<char> {
    let b = e.backend@;
    if b == "whisper"@ {
        "Whisper model file does not exist: "@ + e.whisper_model@
    } else if is_vosk(b) {
        "Vosk model files are missing from: "@ + e.model_path@
    } else if b == "moonshine"@ {
        "Moonshine model files are missing from: "@ + e.moonshine_model_dir@
    } else if b == "zipformer"@ {
        "Zipformer English 20M int8 model files are missing from: "@ + e.zipformer_model_dir@
    } else {
        "SenseVoice model files are missing from: "@ + e.sense_voice_model_dir@
    }
}

pub open spec fn gpu_provider_message(e: EngineConfig) -> Seq<char> {
    "engine.provider = \""@ + e.provider.name()
        + "\" is only supported by the whisper backend (backend is `"@ + e.backend@
        + "`); use \"auto\" or \"cpu\""@
}

/// `seq![m]` when `cond` holds, else nothing.
pub open spec fn when(cond: bool, m: Seq<char>) -> Seq<Seq<char>> {
    if cond {
        seq![m]
    } else {
        seq![]
    }
}

/// Every problem with `c`, in reporting order, given whether the model
/// files of the configured backend are present.
pub open spec fn config_errors(c: Config, model_ready: bool) -> Seq<Seq<char>> {
    indicator_problems(c.indicator) + backend_problems(c.engine, model_ready) + engine_problems(
        c.engine,
    )
}

/// Each of `names` joined onto `dir`.
pub(crate) fn join_all(dir: &str, names: &[&str]) -> (r: Vec<String>)
    ensures
        r.deep_view() == files_in(dir@, names@.map_values(|n: &str| n@)),
{
    let mut r: Vec<String> = Vec::new();
    let mut i: usize = 0;
    while i < names.len()
        invariant
            i <= names.len(),
            r.len() == i,
            forall|k: int| 0 <= k < i ==> #[trigger] r@[k]@ == join_path(dir@, names@[k]@),
        decreases names.len() - i,
    {
        let f = join(dir, names[i]);
        r.push(f);
        i = i + 1;
    }
    assert(r.deep_view() =~= files_in(dir@, names@.map_values(|n: &str| n@)));
    r
}

impl Config {
    /// The files the configured backend needs, as alternatives (see
    /// [`model_file_sets`]); empty for an unknown backend.
    pub fn required_model_files(&self) -> (r: Vec<Vec<String>>)
        ensures
            r.deep_view() == model_file_sets(self.engine),
    {
        let e = &self.engine;
        let b = e.backend.as_str();
        let mut r: Vec<Vec<String>> = Vec::new();
        if str_eq(b, "whisper") {
            let mut one: Vec<String> = Vec::new();
            one.push(e.whisper_model.clone());
            r.push(one);
            assert(r.deep_view()[0] =~= seq![e.whisper_model@]);
            assert(r.deep_view() =~= seq![seq![e.whisper_model@]]);
        } else if str_eq(b, "vosk") || str_eq(b, "native") {
            let names = ["am/final.mdl", "conf/model.conf"];
            let files = join_all(e.model_path.as_str(), &names);
            proof {
                reveal_strlit("am/final.mdl");
                assert(names@.map_values(|n: &str| n@) =~= vosk_files());
            }
            r.push(files);
            assert(r.deep_view() =~= model_file_sets(self.engine));
        } else if str_eq(b, "moonshine") {
            let v1 = [
                "preprocess.onnx",
                "encode.int8.onnx",
                "uncached_decode.int8.onnx",
                "cached_decode.int8.onnx",
                "tokens.txt",
            ];
            let v2 = ["encoder_model.ort", "decoder_model_merged.ort", "tokens.txt"];
            let a = join_all(e.moonshine_model_dir.as_str(), &v1);
            let c = join_all(e.moonshine_model_dir.as_str(), &v2);
            proof {
                assert(v1@.map_values(|n: &str| n@) =~= moonshine_files_v1());
                assert(v2@.map_values(|n: &str| n@) =~= moonshine_files_v2());
            }
            r.push(a);
            r.push(c);
            assert(r.deep_view() =~= model_file_sets(self.engine));
        } else if str_eq(b, "zipformer") {
            let names = [
                "encoder-epoch-99-avg-1.int8.onnx",
                "decoder-epoch-99-avg-1.onnx",
                "joiner-epoch-99-avg-1.int8.onnx",
                "tokens.txt",
            ];
            let files = join_all(e.zipformer_model_dir.as_str(), &names);
            proof {
                assert(names@.map_values(|n: &str| n@) =~= zipformer_files());
            }
            r.push(files);
            assert(r.deep_view() =~= model_file_sets(self.engine));
        } else if str_eq(b, "sensevoice") {
            let names = ["model.int8.onnx", "tokens.txt"];
            let files = join_all(e.sense_voice_model_dir.as_str(), &names);
            proof {
                assert(names@.map_values(|n: &str| n@) =~= sense_voice_files());
            }
            r.push(files);
            assert(r.deep_view() =~= model_file_sets(self.engine));
        } else {
            assert(r.deep_view() =~= model_file_sets(self.engine));
        }
        r
    }

    /// Report settings that parse correctly but cannot work as configured.
    ///
    /// `present[i][j]` tells whether the file `required_model_files()[i][j]`
    /// exists; the model counts as installed when one alternative is
    /// complete.
    pub fn validation_errors(&self, present: &Vec<Vec<bool>>) -> (r: Vec<String>)
        ensures
            r.deep_view() == config_errors(*self, some_set_complete(present.deep_view())),
    {
        let ready = model_ready(present);
        let mut r = indicator_errors(&self.indicator);
        let mut b = backend_errors(&self.engine, ready);
        let mut t = engine_errors(&self.engine);
        let ghost (r0, b0, t0) = (r.deep_view(), b.deep_view(), t.deep_view());
        r.append(&mut b);
        assert(r.deep_view() =~= r0 + b0);
        r.append(&mut t);
        assert(r.deep_view() =~= r0 + b0 + t0);
        r
    }
}

pub open spec fn indicator_problems(ind: IndicatorConfig) -> Seq<Seq<char>> {
    when(ind.width <= 0, "indicator.width must be greater than zero"@) + when(
        ind.height <= 0,
        "indicator.height must be greater than zero"@,
    ) + when(ind.margin < 0, "indicator.margin cannot be negative"@)
}

pub open spec fn backend_problems(e: EngineConfig, model_ready: bool) -> Seq<Seq<char>> {
    if known_backend(e.backend@) {
        when(!model_ready, missing_model_message(e))
    } else {
        seq!["unsupported engine.backend: "@ + e.backend@]
    }
}

pub open spec fn engine_problems(e: EngineConfig) -> Seq<Seq<char>> {
    let b = e.backend@;
    when(e.provider.gpu() && b != "whisper"@, gpu_provider_message(e)) + when(
        e.threads > MAX_THREADS,
        "engine.threads must be 0 (auto) or at most 128"@,
    ) + when(
        e.threads > 0 && is_vosk(b),
        "engine.threads is not supported by Vosk; set it to 0 to use Vosk's default"@,
    )
}

fn indicator_errors(ind: &IndicatorConfig) -> (r: Vec<String>)
    ensures
        r.deep_view() == indicator_problems(*ind),
{
    let mut r: Vec<String> = Vec::new();
    if ind.width <= 0 {
        r.push(owned("indicator.width must be greater than zero"));
    }
    if ind.height <= 0 {
        r.push(owned("indicator.height must be greater than zero"));
    }
    if ind.margin < 0 {
        r.push(owned("indicator.margin cannot be negative"));
    }
    assert(r.deep_view() =~= indicator_problems(*ind));
    r
}

fn backend_errors(e: &EngineConfig, ready: bool) -> (r: Vec<String>)
    ensures
        r.deep_view() == backend_problems(*e, ready),
{
    let mut r: Vec<String> = Vec::new();
    let b = e.backend.as_str();
    let whisper = str_eq(b, "whisper");
    let vosk = str_eq(b, "vosk") || str_eq(b, "native");
    let moonshine = str_eq(b, "moonshine");
    let zipformer = str_eq(b, "zipformer");
    let sensevoice = str_eq(b, "sensevoice");
    if whisper || vosk || moonshine || zipformer || sensevoice {
        if !ready {
            let m = if whisper {
                concat2("Whisper model file does not exist: ", e.whisper_model.as_str())
            } else if vosk {
                concat2("Vosk model files are missing from: ", e.model_path.as_str())
            } else if moonshine {
                concat2("Moonshine model files are missing from: ", e.moonshine_model_dir.as_str())
            } else if zipformer {
                concat2(
                    "Zipformer English 20M int8 model files are missing from: ",
                    e.zipformer_model_dir.as_str(),
                )
            } else {
                concat2(
                    "SenseVoice model files are missing from: ",
                    e.sense_voice_model_dir.as_str(),
                )
            };
            r.push(m);
        }
    } else {
        r.push(concat2("unsupported engine.backend: ", b));
    }
    assert(r.deep_view() =~= backend_problems(*e, ready));
    r
}

fn engine_errors(e: &EngineConfig) -> (r: Vec<String>)
    ensures
        r.deep_view() == engine_problems(*e),
{
    let mut r: Vec<String> = Vec::new();
    let b = e.backend.as_str();
    let vosk = str_eq(b, "vosk") || str_eq(b, "native");
    if e.provider.is_gpu() && !str_eq(b, "whisper") {
        let mut m = concat3(
            "engine.provider = \"",
            e.provider.as_str(),
            "\" is only supported by the whisper backend (backend is `",
        );
        m.append(b);
        m.append("`); use \"auto\" or \"cpu\"");
        r.push(m);
    }
    if e.threads > MAX_THREADS {
        r.push(owned("engine.threads must be 0 (auto) or at most 128"));
    }
    if e.threads > 0 && vosk {
        r.push(owned("engine.threads is not supported by Vosk; set it to 0 to use Vosk's default"));
    }
    assert(r.deep_view() =~= engine_problems(*e));
    r
}

/// Whether some alternative in `present` is complete.
pub fn model_ready(present: &Vec<Vec<bool>>) -> (r: bool)
    ensures
        r == some_set_complete(present.deep_view()),
{
    let mut i: usize = 0;
    while i < present.len()
        invariant
            i <= present.len(),
            forall|k: int| 0 <= k < i ==> !#[trigger] all_true(present.deep_view()[k]),
        decreases present.len() - i,
    {
        let alt = &present[i];
        let mut all = true;
        let mut j: usize = 0;
        while j < alt.len()
            invariant
                j <= alt.len(),
                all == (forall|m: int| 0 <= m < j ==> #[trigger] alt@[m]),
            decreases alt.len() - j,
        {
            if !alt[j] {
                all = false;
            }
            j = j + 1;
        }
        assert(present.deep_view()[i as int] == alt@);
        assert(all == all_true(alt@));
        if all {
            return true;
        }
        i = i + 1;
    }
    false
}

} // verus!
