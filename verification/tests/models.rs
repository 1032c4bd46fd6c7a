use dictation::config::EngineConfig;
use dictation::models::{
    available_memory_mib, benchmark_args, catalog, check_removal, download_size, download_steps,
    is_active, is_complete, known, language, list_entries, model_path_in, next_command,
    parse_model_command, probe_files, recommendation, recommended_model, saved_message, select,
    selection_target, status_word, summary, whisper_min_bytes, ModelCommand, Selection,
};

fn entry(name: &str) -> dictation::models::Entry {
    known(name).expect("catalog entry")
}

fn engine() -> EngineConfig {
    EngineConfig::defaults_under("/data")
}

fn args(list: &[&str]) -> Vec<String> {
    list.iter().map(|s| s.to_string()).collect()
}

#[test]
fn catalog_lookup_by_name() {
    assert_eq!(catalog().len(), 74);
    let e = entry("whisper-tiny.en");
    assert_eq!(e.backend, "whisper");
    assert_eq!(e.file, "ggml-tiny.en-q5_1.bin");
    assert!(known("whisper-enormous").is_none());
    assert_eq!(entry("vosk-de").file, "vosk-model-de-0.21");
    assert_eq!(
        entry("vosk-de").url,
        "https://alphacephei.com/vosk/models/vosk-model-de-0.21.zip"
    );
}

#[test]
fn list_columns_describe_each_model() {
    assert_eq!(language(&entry("whisper-tiny.en")), "English only");
    assert_eq!(language(&entry("whisper-tiny")), "Multilingual");
    assert_eq!(language(&entry("vosk-en-in-small")), "English (India)");
    assert_eq!(language(&entry("vosk-en-us")), "English (US)");
    assert_eq!(language(&entry("moonshine-v2-base-es")), "Spanish");
    assert_eq!(language(&entry("moonshine-tiny")), "English");
    assert_eq!(
        language(&entry("sensevoice-multilingual-2025")),
        "English, Chinese, Japanese, Korean, Cantonese"
    );
    assert_eq!(language(&entry("zipformer-20m")), "English");

    assert_eq!(download_size(&entry("whisper-large-v3-turbo")), "~547 MiB");
    assert_eq!(download_size(&entry("whisper-medium-q8_0")), "~786 MiB");
    assert_eq!(download_size(&entry("vosk-vn")), "~80 MiB");
    assert_eq!(download_size(&entry("vosk-en-us-lgraph")), "~100–130 MiB");
    assert_eq!(download_size(&entry("vosk-en-us-small")), "~30–90 MiB");
    assert_eq!(download_size(&entry("vosk-en-us")), "~0.7–4.4 GiB");
    assert_eq!(download_size(&entry("moonshine-v2-base-en")), "~60–140 MiB");
    assert_eq!(download_size(&entry("moonshine-tiny")), "~235 MiB");
    assert_eq!(download_size(&entry("moonshine-base-en")), "~550 MiB");
    assert_eq!(download_size(&entry("zipformer-20m")), "varies by package");

    assert_eq!(
        summary(&entry("whisper-large-v3-turbo-q8_0")),
        "Large-v3 Turbo; multilingual, faster large-model option"
    );
    assert_eq!(summary(&entry("whisper-base.en")), "Base model; moderate resource use");
    assert_eq!(summary(&entry("vosk-ru-small")), "Small-footprint streaming model");
    assert_eq!(summary(&entry("moonshine-base-en")), "Moonshine Base; larger English model");
}

#[test]
fn whisper_files_have_a_size_floor() {
    assert_eq!(whisper_min_bytes("ggml-tiny.en-q5_1.bin"), 25 * 1024 * 1024);
    assert_eq!(whisper_min_bytes("ggml-medium-q8_0.bin"), 700 * 1024 * 1024);
    assert_eq!(whisper_min_bytes("ggml-large-v3-q5_0.bin"), 900 * 1024 * 1024);
    assert_eq!(whisper_min_bytes("custom.bin"), 1024 * 1024);
}

#[test]
fn completeness_follows_the_model_layout() {
    let tiny = entry("whisper-tiny.en");
    assert!(probe_files(&tiny, "/m/x").is_empty());
    assert!(is_complete(&tiny, &vec![], Some(25 * 1024 * 1024)));
    assert!(!is_complete(&tiny, &vec![], Some(25 * 1024 * 1024 - 1)));
    assert!(!is_complete(&tiny, &vec![], None));

    let vosk = entry("vosk-en-us-small");
    assert_eq!(
        probe_files(&vosk, "/m/x"),
        ["/m/x/am/final.mdl", "/m/x/conf/model.conf"]
    );
    assert!(is_complete(&vosk, &vec![true, true], None));
    assert!(!is_complete(&vosk, &vec![true, false], None));

    let moon = entry("moonshine-v2-base-en");
    assert_eq!(probe_files(&moon, "/d").len(), 8);
    let mut p = vec![true, true, true, false, false, false, false, false];
    assert!(is_complete(&moon, &p, None));
    p[1] = false;
    assert!(!is_complete(&moon, &p, None), "a started v2 layout must be complete");
    let v1 = vec![false, false, false, true, true, true, true, true];
    assert!(is_complete(&moon, &v1, None));
}

#[test]
fn model_paths_compare_by_components() {
    let tiny = entry("whisper-tiny.en");
    let path = model_path_in("/data/dictation/models", &tiny);
    assert_eq!(path, "/data/dictation/models/ggml-tiny.en-q5_1.bin");
    let mut e = engine();
    e.whisper_model = "/data/dictation//models/./ggml-tiny.en-q5_1.bin".into();
    assert!(is_active(&e, &tiny, &path));
    e.backend = "vosk".into();
    assert!(!is_active(&e, &tiny, &path));
}

#[test]
fn downloads_fetch_then_unpack() {
    let tiny = entry("whisper-tiny.en");
    let steps = download_steps(&tiny, "/r");
    assert_eq!(steps.len(), 1);
    assert_eq!(steps[0].program, "curl");
    assert_eq!(
        steps[0].args,
        ["-fL", "--retry", "3", "-C", "-", tiny.url, "-o", "/r/ggml-tiny.en-q5_1.bin"]
    );
    assert_eq!(
        steps[0].failure,
        "download failed for whisper-tiny.en; rerun install to resume"
    );

    let vosk = entry("vosk-en-us-small");
    let steps = download_steps(&vosk, "/r");
    assert_eq!(steps.len(), 2);
    assert_eq!(steps[0].args[7], "/r/vosk-model-small-en-us-0.zip");
    assert_eq!(steps[1].program, "unzip");
    assert_eq!(
        steps[1].args,
        ["-oq", "/r/vosk-model-small-en-us-0.zip", "-d", "/r"]
    );
    assert_eq!(steps[1].start_error, "start unzip (install unzip)");
    assert_eq!(
        steps[1].failure,
        "could not unpack vosk-en-us-small; archive kept at /r/vosk-model-small-en-us-0.zip"
    );

    let zip = entry("zipformer-20m");
    let steps = download_steps(&zip, "/r");
    let archive = "/r/sherpa-onnx-streaming-zipformer-en-20M-2023-02-17.tar.bz2";
    assert_eq!(steps[1].args, ["-xjf", archive, "-C", "/r"]);
    assert_eq!(steps[1].program, "tar");
}

#[test]
fn selecting_a_model_updates_only_its_setting() {
    let root = "/data/dictation/models";
    let target = selection_target("vosk-en-us-small", root);
    let mut e = engine();
    let whisper_before = e.whisper_model.clone();
    match &target {
        Selection::Catalog(entry, path) => {
            assert_eq!(entry.name, "vosk-en-us-small");
            assert_eq!(path, "/data/dictation/models/vosk-model-small-en-us-0.15");
        }
        Selection::File(_) => panic!("catalog name"),
    }
    select(&mut e, &target);
    assert_eq!(e.backend, "vosk");
    assert_eq!(e.model_path, "/data/dictation/models/vosk-model-small-en-us-0.15");
    assert_eq!(e.whisper_model, whisper_before);
    assert_eq!(
        saved_message(&e),
        "Default model saved: /data/dictation/models/vosk-model-small-en-us-0.15 (vosk)"
    );
    let vosk = entry("vosk-en-us-small");
    assert!(is_active(&e, &vosk, &model_path_in(root, &vosk)));

    let file = selection_target("/home/me/custom.bin", root);
    assert!(matches!(&file, Selection::File(p) if p == "/home/me/custom.bin"));
    select(&mut e, &file);
    assert_eq!(e.backend, "whisper");
    assert_eq!(e.whisper_model, "/home/me/custom.bin");
}

#[test]
fn removal_refuses_outside_or_active_models() {
    let root = "/data/dictation/models";
    let tiny = entry("whisper-tiny.en");
    let path = model_path_in(root, &tiny);
    let mut e = engine();
    e.whisper_model = path.clone();
    assert_eq!(
        check_removal(&e, &tiny, &path, root),
        Err("cannot remove the active model; set another model first".to_string())
    );
    e.whisper_model = "/elsewhere.bin".into();
    assert_eq!(check_removal(&e, &tiny, &path, root), Ok(()));
    assert_eq!(
        check_removal(&e, &tiny, "/data/dictation/modelsx/a", root),
        Err("refusing to remove a path outside the managed model directory".to_string())
    );
}

#[test]
fn model_subcommands_parse() {
    let m = |a: &[&str], on: bool| parse_model_command(&args(a), on);
    assert!(matches!(m(&["dictation", "model"], true), ModelCommand::List(None, false)));
    match m(&["dictation", "model", "list", "--backend", "vosk", "--installed"], true) {
        ModelCommand::List(Some(b), true) => assert_eq!(b, "vosk"),
        other => panic!("{other:?}"),
    }
    match m(&["dictation", "model", "list", "--backend"], true) {
        ModelCommand::ListError(e) => assert_eq!(
            e,
            "--backend requires whisper, vosk, moonshine, zipformer, or sensevoice"
        ),
        other => panic!("{other:?}"),
    }
    match m(&["dictation", "model", "list", "--bogus"], true) {
        ModelCommand::ListError(e) => assert_eq!(
            e,
            "unknown model list option `--bogus`; use --backend NAME or --installed"
        ),
        other => panic!("{other:?}"),
    }
    assert!(matches!(
        m(&["dictation", "model", "management", "on"], false),
        ModelCommand::Management(true)
    ));
    assert!(matches!(
        m(&["dictation", "model", "management", "off"], true),
        ModelCommand::Management(false)
    ));
    assert!(matches!(
        m(&["dictation", "model", "management"], true),
        ModelCommand::ManagementUsage
    ));
    assert!(matches!(
        m(&["dictation", "model", "install", "x"], false),
        ModelCommand::ManagementDisabled
    ));
    assert!(matches!(
        m(&["dictation", "model", "info", "x"], false),
        ModelCommand::Info(Some(_))
    ));
    assert!(matches!(m(&["dictation", "model", "set"], true), ModelCommand::Select(None)));
    match m(&["dictation", "model", "frobnicate"], true) {
        ModelCommand::Unknown(o) => assert_eq!(o, "frobnicate"),
        other => panic!("{other:?}"),
    }
}

#[test]
fn listing_orders_by_family_then_name() {
    let all = list_entries(None);
    assert_eq!(all.len(), 74);
    assert_eq!(all[0].name, "moonshine-base-en");
    assert_eq!(all[73].name, "zipformer-20m");
    for pair in all.windows(2) {
        assert!((pair[0].backend, pair[0].name) <= (pair[1].backend, pair[1].name));
    }
    let sense: Vec<&str> = list_entries(Some("sensevoice")).iter().map(|e| e.name).collect();
    assert_eq!(
        sense,
        ["sensevoice-multilingual-2024", "sensevoice-multilingual-2025"]
    );
    assert!(list_entries(Some("kaldi")).is_empty());
}

#[test]
fn status_and_next_command() {
    let tiny = entry("whisper-tiny.en");
    assert_eq!(status_word(true, true), "active");
    assert_eq!(status_word(false, true), "installed");
    assert_eq!(status_word(false, false), "missing");
    assert_eq!(next_command(&tiny, true, true), "already the default");
    assert_eq!(next_command(&tiny, false, true), "dictation model set whisper-tiny.en");
    assert_eq!(
        next_command(&tiny, false, false),
        "dictation model install whisper-tiny.en"
    );
}

#[test]
fn recommendation_follows_available_memory() {
    let meminfo = "MemTotal:       16000000 kB\nMemFree:  100 kB\nMemAvailable:    8192000 kB\n";
    assert_eq!(available_memory_mib(Some(meminfo)), 8000);
    assert_eq!(available_memory_mib(Some("MemAvailable: lots\n")), 0);
    assert_eq!(available_memory_mib(None), 0);
    assert_eq!(recommended_model(8000), "whisper-small.en");
    assert_eq!(recommended_model(6000), "whisper-base.en");
    assert_eq!(recommended_model(2500), "whisper-tiny.en");
    assert_eq!(
        recommendation(100),
        "Recommended starting point: whisper-tiny.en (about 100 MiB memory currently available). This is a rough memory-based suggestion; benchmark on your device for speed and recognition quality."
    );
}

#[test]
fn model_benchmark_names_become_paths() {
    let forwarded = benchmark_args(
        &args(&["dictation", "model", "benchmark", "whisper-tiny.en", "talk.wav"]),
        "/r",
    );
    assert_eq!(
        forwarded,
        ["dictation", "benchmark", "--model", "/r/ggml-tiny.en-q5_1.bin", "talk.wav"]
    );
    assert_eq!(
        benchmark_args(&args(&["dictation", "model", "benchmark"]), "/r"),
        ["dictation", "benchmark"]
    );
}
