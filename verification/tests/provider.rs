use dictation::config::{EngineConfig, Provider};
use dictation::provider::{
    compiled_features, compiled_gpu_providers, compiled_support, resolve, resolve_threads,
    resolve_with, GpuSet, ProviderCandidate,
};

fn engine() -> EngineConfig {
    EngineConfig::defaults_under("/tmp/dictation-test-data")
}

#[test]
fn non_whisper_backends_stay_on_cpu() {
    for backend in ["vosk", "moonshine", "zipformer", "sensevoice"] {
        for provider in [Provider::Auto, Provider::Cpu] {
            let mut cfg = engine();
            cfg.backend = backend.into();
            cfg.provider = provider;
            assert_eq!(
                resolve(&cfg),
                Ok(ProviderCandidate::Cpu),
                "{backend}/{provider:?}",
            );
        }
    }
}

#[test]
fn gpu_pin_on_cpu_only_backend_fails_loudly() {
    let mut cfg = engine();
    cfg.backend = "zipformer".into();
    cfg.provider = Provider::Cuda;
    let error = resolve(&cfg).expect_err("must not silently ignore a pin");
    assert!(error.contains("whisper backend"), "got: {error}");
    assert!(error.contains("CPU only"), "got: {error}");
}

#[test]
fn cpu_pin_always_resolves_to_cpu() {
    let mut cfg = engine();
    cfg.provider = Provider::Cpu;
    assert_eq!(resolve(&cfg), Ok(ProviderCandidate::Cpu));
}

#[test]
fn auto_rejects_ambiguous_gpu_builds() {
    let providers = compiled_gpu_providers(compiled_support());
    let result = resolve(&engine());
    if providers.len() > 1 {
        assert!(
            result.is_err_and(|error| error.contains("multiple Whisper GPU providers")),
            "ambiguous provider build should explain the conflict"
        );
    } else if providers.is_empty() {
        assert_eq!(result, Ok(ProviderCandidate::Cpu));
    } else {
        assert!(result.is_ok(), "single-provider build should resolve");
    }
}

#[test]
fn pinning_an_uncompiled_provider_explains_the_rebuild() {
    let mut cfg = engine();
    cfg.provider = Provider::Vulkan;
    let error = resolve(&cfg).expect_err("uncompiled pin must fail");
    if compiled_gpu_providers(compiled_support()).len() > 1 {
        assert!(
            error.contains("multiple Whisper GPU providers"),
            "got: {error}"
        );
    } else {
        assert!(error.contains("--features gpu-vulkan"), "got: {error}");
    }
}

#[test]
fn threads_zero_means_auto_and_the_cap_holds() {
    let mut cfg = engine();
    assert_eq!(resolve_threads(&cfg, 8), 8);
    cfg.threads = 4;
    assert_eq!(resolve_threads(&cfg, 8), 4);
    cfg.threads = 512;
    assert_eq!(resolve_threads(&cfg, 8), 128, "clamp before the i32 cast");
}

#[test]
fn compiled_features_reports_none_by_default() {
    let features = compiled_features();
    assert_eq!(features, "none");
}

#[test]
fn ambiguous_builds_name_every_provider() {
    let both = GpuSet {
        vulkan: true,
        cuda: true,
        hip: false,
        metal: false,
    };
    let none = GpuSet {
        vulkan: false,
        cuda: false,
        hip: false,
        metal: false,
    };
    let error = resolve_with(&engine(), both, none).unwrap_err();
    assert!(error.contains("multiple Whisper GPU providers (cuda, vulkan)"), "{error}");
}

#[test]
fn one_gpu_build_picks_its_device_or_the_cpu() {
    let cuda = GpuSet {
        vulkan: false,
        cuda: true,
        hip: false,
        metal: false,
    };
    let none = GpuSet {
        vulkan: false,
        cuda: false,
        hip: false,
        metal: false,
    };
    let mut cfg = engine();
    assert_eq!(resolve_with(&cfg, cuda, cuda), Ok(ProviderCandidate::Cuda));
    assert_eq!(resolve_with(&cfg, cuda, none), Ok(ProviderCandidate::Cpu));
    cfg.provider = Provider::Cuda;
    assert_eq!(resolve_with(&cfg, cuda, cuda), Ok(ProviderCandidate::Cuda));
    assert_eq!(
        resolve_with(&cfg, cuda, none),
        Err("provider `cuda` was requested but no cuda device was found".to_string())
    );
    cfg.provider = Provider::Vulkan;
    assert_eq!(
        resolve_with(&cfg, cuda, cuda),
        Err(
            "provider `vulkan` is not compiled into this build; rebuild with `--features gpu-vulkan`"
                .to_string()
        )
    );
}

#[test]
fn thread_counts_past_i32_are_clamped_too() {
    let mut cfg = engine();
    cfg.threads = usize::MAX;
    assert_eq!(resolve_threads(&cfg, 8), 128);
    cfg.threads = 129;
    assert_eq!(resolve_threads(&cfg, 8), 128);
    cfg.threads = 1;
    assert_eq!(resolve_threads(&cfg, 8), 1);
}
