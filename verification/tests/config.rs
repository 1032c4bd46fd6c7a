use dictation::config::{Anchor, Config, EngineConfig, IndicatorConfig, Provider, TypingBackend};
use std::path::Path;

fn engine() -> EngineConfig {
    EngineConfig::defaults_under("/tmp/dictation-test-data")
}

fn config_with_engine(engine: &EngineConfig) -> Config {
    Config {
        engine: engine.clone(),
        indicator: IndicatorConfig::defaults_in("/tmp/dictation-test-config"),
    }
}

fn present(cfg: &Config) -> Vec<Vec<bool>> {
    cfg.required_model_files()
        .iter()
        .map(|set| set.iter().map(|f| Path::new(f).is_file()).collect())
        .collect()
}

fn cfg_provider_error(engine: &EngineConfig) -> Option<String> {
    let cfg = config_with_engine(engine);
    cfg.validation_errors(&present(&cfg))
        .into_iter()
        .find(|e| e.contains("engine.provider"))
}

#[test]
fn gpu_provider_requires_the_whisper_backend() {
    let message = "engine.provider = \"cuda\" is only supported by the whisper backend";
    for backend in ["vosk", "moonshine", "zipformer", "sensevoice"] {
        let mut cfg = engine();
        cfg.backend = backend.into();
        cfg.provider = Provider::Cuda;
        assert!(
            cfg_provider_error(&cfg).is_some_and(|e| e.contains(message)),
            "backend `{backend}` must reject a pinned GPU provider"
        );
    }
    for provider in [Provider::Auto, Provider::Cpu] {
        let mut cfg = engine();
        cfg.backend = "moonshine".into();
        cfg.provider = provider;
        assert!(
            cfg_provider_error(&cfg).is_none(),
            "provider `{}` must be allowed on CPU-only backends",
            provider.as_str()
        );
    }
    let mut cfg = engine();
    cfg.provider = Provider::Vulkan;
    assert!(
        cfg_provider_error(&cfg).is_none(),
        "whisper must accept a pinned GPU provider"
    );
}

#[test]
fn provider_spellings_and_gpu_flags() {
    for (provider, spelling, gpu) in [
        (Provider::Auto, "auto", false),
        (Provider::Cpu, "cpu", false),
        (Provider::Vulkan, "vulkan", true),
        (Provider::Cuda, "cuda", true),
        (Provider::Hip, "hip", true),
        (Provider::Metal, "metal", true),
    ] {
        assert_eq!(provider.as_str(), spelling);
        assert_eq!(provider.is_gpu(), gpu);
    }
}

#[test]
fn thread_limits_and_vosk_threads_are_reported() {
    let mut cfg = engine();
    cfg.threads = 129;
    let c = config_with_engine(&cfg);
    let errors = c.validation_errors(&present(&c));
    assert!(errors.iter().any(|e| e == "engine.threads must be 0 (auto) or at most 128"));
    cfg.threads = 128;
    let c = config_with_engine(&cfg);
    let errors = c.validation_errors(&present(&c));
    assert!(!errors.iter().any(|e| e.contains("engine.threads")));
    cfg.backend = "vosk".into();
    cfg.threads = 2;
    let c = config_with_engine(&cfg);
    let errors = c.validation_errors(&present(&c));
    assert!(errors
        .iter()
        .any(|e| e == "engine.threads is not supported by Vosk; set it to 0 to use Vosk's default"));
}

#[test]
fn missing_model_and_bad_indicator_are_reported_in_order() {
    let mut cfg = config_with_engine(&engine());
    cfg.indicator.width = 0;
    cfg.indicator.margin = -1;
    cfg.engine.whisper_model = "/nonexistent/model.bin".into();
    let errors = cfg.validation_errors(&vec![vec![false]]);
    assert_eq!(
        errors,
        vec![
            "indicator.width must be greater than zero".to_string(),
            "indicator.margin cannot be negative".to_string(),
            "Whisper model file does not exist: /nonexistent/model.bin".to_string(),
        ]
    );
    let errors = cfg.validation_errors(&vec![vec![true]]);
    assert_eq!(errors.len(), 2);
}

#[test]
fn unknown_backend_is_reported() {
    let mut e = engine();
    e.backend = "kaldi".into();
    let cfg = config_with_engine(&e);
    let errors = cfg.validation_errors(&vec![]);
    assert_eq!(errors, vec!["unsupported engine.backend: kaldi".to_string()]);
}

#[test]
fn moonshine_accepts_either_complete_file_set() {
    let mut e = engine();
    e.backend = "moonshine".into();
    e.moonshine_model_dir = "/m".into();
    let cfg = config_with_engine(&e);
    let sets = cfg.required_model_files();
    assert_eq!(sets.len(), 2);
    assert_eq!(sets[0][0], "/m/preprocess.onnx");
    assert_eq!(sets[1][0], "/m/encoder_model.ort");
    let v2_only = vec![vec![false; 5], vec![true; 3]];
    assert!(cfg.validation_errors(&v2_only).is_empty());
    let none = vec![vec![true, false, true, true, true], vec![true, true, false]];
    assert_eq!(
        cfg.validation_errors(&none),
        vec!["Moonshine model files are missing from: /m".to_string()]
    );
}

#[test]
fn defaults_live_under_the_data_and_config_directories() {
    let e = engine();
    assert_eq!(e.backend, "whisper");
    assert_eq!(e.provider, Provider::Auto);
    assert_eq!(e.whisper_model, "/tmp/dictation-test-data/dictation/models/ggml-base.en-q5_1.bin");
    let i = IndicatorConfig::defaults_in("/home/u/.config/dictation");
    assert_eq!(i.css_file, "/home/u/.config/dictation/style.css");
    assert_eq!((i.width, i.height, i.margin), (170, 44, 24));
}

#[test]
fn defaults_are_uinput_auto_and_automatic_threads() {
    assert_eq!(TypingBackend::default(), TypingBackend::Uinput);
    assert_eq!(Provider::default(), Provider::Auto);
    assert_eq!(Anchor::default(), Anchor::BottomCenter);
    let engine = EngineConfig::default();
    assert_eq!(engine.typing_backend, TypingBackend::Uinput);
    assert_eq!(engine.provider, Provider::Auto);
    assert_eq!(engine.threads, 0);
    assert_eq!(engine.backend, "whisper");
    assert!(engine.model_management);
    assert!(engine.whisper_model.ends_with("/dictation/models/ggml-base.en-q5_1.bin"));
    let config = Config::default();
    assert_eq!(config.engine.backend, "whisper");
    assert_eq!(config.indicator.anchor, Anchor::BottomCenter);
}

// The TOML halves of the next tests (parsing and the written default file)
// belong to the program's serde layer; these carry the library's halves.

#[test]
fn typing_backend_spellings_round_trip() {
    let all = [
        (TypingBackend::Uinput, "uinput"),
        (TypingBackend::Wtype, "wtype"),
        (TypingBackend::Dotool, "dotool"),
        (TypingBackend::Ydotool, "ydotool"),
        (TypingBackend::Xdotool, "xdotool"),
    ];
    for (backend, spelling) in all {
        assert_eq!(backend.as_str(), spelling);
    }
}

#[test]
fn typing_backend_defaults_to_uinput() {
    assert_eq!(TypingBackend::default(), TypingBackend::Uinput);
    assert_eq!(EngineConfig::default().typing_backend, TypingBackend::Uinput);
}

#[test]
fn provider_spellings_round_trip() {
    let all = [
        (Provider::Auto, "auto"),
        (Provider::Cpu, "cpu"),
        (Provider::Vulkan, "vulkan"),
        (Provider::Cuda, "cuda"),
        (Provider::Hip, "hip"),
        (Provider::Metal, "metal"),
    ];
    for (provider, spelling) in all {
        assert_eq!(provider.as_str(), spelling);
    }
}

#[test]
fn provider_defaults_to_auto_and_rejects_typos() {
    assert_eq!(Provider::default(), Provider::Auto);
    assert_eq!(EngineConfig::default().provider, Provider::Auto);
    assert!(Provider::Cuda.is_gpu());
    assert!(Provider::Vulkan.is_gpu());
    assert!(!Provider::Auto.is_gpu());
    assert!(!Provider::Cpu.is_gpu());
}

#[test]
fn thread_counts_are_auto_or_bounded() {
    assert_eq!(EngineConfig::default().threads, 0);
    let over_cap = EngineConfig {
        threads: 129,
        ..EngineConfig::default()
    };
    let c = config_with_engine(&over_cap);
    assert!(c
        .validation_errors(&present(&c))
        .iter()
        .any(|e| e.contains("engine.threads")));
    let at_cap = EngineConfig {
        threads: 128,
        ..EngineConfig::default()
    };
    let c = config_with_engine(&at_cap);
    assert!(!c
        .validation_errors(&present(&c))
        .iter()
        .any(|e| e.contains("engine.threads")));
    let vosk_threads = EngineConfig {
        backend: "vosk".into(),
        threads: 4,
        ..EngineConfig::default()
    };
    let c = config_with_engine(&vosk_threads);
    assert!(c
        .validation_errors(&present(&c))
        .iter()
        .any(|e| e.contains("engine.threads is not supported by Vosk")));
}
