use v_voice::paths::{DataPath, Inventory};
use v_voice::pill::{Float64, PillPosition};
use v_voice::settings::{
    available_models, default_cloud_provider, default_granite_port, default_local_engine,
    default_transcription_mode, delete_failed, delete_model, filename_of, find_model,
    get_available_models, get_downloaded_models, get_granite_model, get_settings,
    get_zipformer_model, granite_model, granite_path, is_granite_ready, is_model_downloaded,
    is_zipformer_ready, load_settings, model_files, save_pill_position, save_settings,
    set_settings, zipformer_model, zipformer_path, AppSettings, ModelInfo, SaveError,
    SettingsState, StoredSettings,
};

fn inventory(paths: &[&[&str]]) -> Inventory {
    let mut seen = Inventory::new();
    for parts in paths {
        seen.add(DataPath { parts: parts.iter().map(|part| part.to_string()).collect() });
    }
    seen
}

fn position(x: f64, y: f64) -> PillPosition {
    PillPosition { x: Float64 { bits: x.to_bits() }, y: Float64 { bits: y.to_bits() } }
}

fn sample_settings() -> AppSettings {
    let mut settings = AppSettings::default();
    settings.model = "small".to_string();
    settings.language = "vi".to_string();
    settings.cloud_api_key = "SECRET-REDACTED".to_string();
    settings.granite_api_port = 1234;
    settings.pill_positions.insert("A_1x2".to_string(), position(1.5, -2.0));
    settings
}

fn assert_same(a: &AppSettings, b: &AppSettings) {
    assert_eq!(a.model, b.model);
    assert_eq!(a.language, b.language);
    assert_eq!(a.hotkey, b.hotkey);
    assert_eq!(a.quit_hotkey, b.quit_hotkey);
    assert_eq!(a.microphone_id, b.microphone_id);
    assert_eq!(a.vad_silence_threshold.bits, b.vad_silence_threshold.bits);
    assert_eq!(a.vad_silence_frames, b.vad_silence_frames);
    assert_eq!(a.transcription_mode, b.transcription_mode);
    assert_eq!(a.cloud_provider, b.cloud_provider);
    assert_eq!(a.cloud_api_key, b.cloud_api_key);
    assert_eq!(a.local_engine, b.local_engine);
    assert_eq!(a.granite_api_port, b.granite_api_port);
    assert_eq!(a.pill_positions.entries().len(), b.pill_positions.entries().len());
    for entry in a.pill_positions.entries() {
        assert!(b.pill_positions.get(&entry.fingerprint) == Some(entry.position));
    }
}

#[test]
fn a_model_says_where_it_is() {
    let info = ModelInfo::new("tiny.en", "Tiny (English)", 75);
    assert_eq!(info.id, "tiny.en");
    assert_eq!(info.filename, "ggml-tiny.en.bin");
    assert_eq!(info.label, "Tiny (English)");
    assert_eq!(info.size_mb, 75);
    assert_eq!(
        info.url,
        "https://huggingface.co/ggerganov/whisper.cpp/resolve/main/ggml-tiny.en.bin"
    );
    assert_eq!(filename_of("base"), "ggml-base.bin");
}

#[test]
fn the_models_are_listed() {
    let expected: Vec<(&str, &str, u32)> = vec![
        ("tiny.en", "Tiny (English)", 75),
        ("tiny", "Tiny (Multilingual)", 75),
        ("base.en", "Base (English)", 142),
        ("base", "Base (Multilingual)", 142),
        ("small.en", "Small (English)", 466),
        ("small", "Small (Multilingual)", 466),
        ("medium.en", "Medium (English)", 1500),
        ("medium", "Medium (Multilingual)", 1500),
        ("large-v3-turbo", "Large v3 Turbo (Multilingual)", 1600),
    ];
    for list in [available_models(), get_available_models()] {
        let found: Vec<(&str, &str, u32)> =
            list.iter().map(|m| (m.id.as_str(), m.label.as_str(), m.size_mb)).collect();
        assert_eq!(found, expected);
        for (i, a) in list.iter().enumerate() {
            for b in &list[i + 1..] {
                assert_ne!(a.id, b.id);
                assert_ne!(a.filename, b.filename);
            }
        }
    }
}

#[test]
fn models_are_found_by_their_ids() {
    assert_eq!(find_model("medium").unwrap().label, "Medium (Multilingual)");
    assert!(find_model("huge").is_none());
    assert!(find_model("").is_none());
    assert!(find_model(&AppSettings::default().model).is_some());
}

#[test]
fn downloaded_models_are_listed_in_order() {
    let files = inventory(&[
        &["models", "ggml-small.bin"],
        &["models", "ggml-tiny.en.bin"],
        &["models", "ggml-huge.bin"],
        &["bin", "ggml-base.bin"],
    ]);
    assert_eq!(get_downloaded_models(&files), vec!["tiny.en", "small"]);
    assert_eq!(get_downloaded_models(&Inventory::new()), Vec::<String>::new());
    assert!(is_model_downloaded("small".to_string(), &files));
    assert!(!is_model_downloaded("base".to_string(), &files));
    assert!(!is_model_downloaded("huge".to_string(), &files));
    for info in available_models() {
        assert_eq!(
            get_downloaded_models(&files).contains(&info.id),
            is_model_downloaded(info.id, &files)
        );
    }
}

#[test]
fn model_files_are_looked_for_in_one_directory() {
    let paths = model_files();
    assert_eq!(paths.len(), 9);
    assert_eq!(paths[0].parts, vec!["models", "ggml-tiny.en.bin"]);
    assert_eq!(paths[8].parts, vec!["models", "ggml-large-v3-turbo.bin"]);
}

#[test]
fn a_model_is_deleted_by_its_file() {
    let files = inventory(&[&["models", "ggml-tiny.bin"]]);
    match delete_model("tiny".to_string(), &files) {
        Ok(Some(path)) => assert_eq!(path.parts, vec!["models", "ggml-tiny.bin"]),
        _ => panic!("nothing to delete"),
    }
    assert!(matches!(delete_model("base".to_string(), &files), Ok(None)));
    assert!(matches!(delete_model("x".to_string(), &files), Err(e) if e == "Unknown model: x"));
    assert_eq!(delete_failed("in use"), "Failed to delete model: in use");
}

#[test]
fn deleting_one_model_leaves_the_others() {
    let before = inventory(&[&["models", "ggml-tiny.bin"], &["models", "ggml-tiny.en.bin"]]);
    assert!(is_model_downloaded("tiny".to_string(), &before));
    let after = inventory(&[&["models", "ggml-tiny.en.bin"]]);
    assert!(!is_model_downloaded("tiny".to_string(), &after));
    assert!(is_model_downloaded("tiny.en".to_string(), &after));
}

#[test]
fn the_zipformer_model_is_described() {
    for info in [zipformer_model(), get_zipformer_model()] {
        let base = "https://huggingface.co/hynt/Zipformer-30M-RNNT-6000h/resolve/main";
        assert_eq!(info.id, "zipformer-vi");
        assert_eq!(info.label, "Zipformer 30M (Vietnamese)");
        assert_eq!(info.size_mb, 30);
        assert_eq!(info.encoder_url, format!("{}/encoder-epoch-20-avg-10.int8.onnx", base));
        assert_eq!(info.decoder_url, format!("{}/decoder-epoch-20-avg-10.int8.onnx", base));
        assert_eq!(info.joiner_url, format!("{}/joiner-epoch-20-avg-10.int8.onnx", base));
        assert_eq!(info.tokens_url, format!("{}/config.json", base));
    }
}

#[test]
fn the_settings_page_looks_for_all_zipformer_files() {
    let all: [&[&str]; 4] = [
        &["models", "zipformer-vi", "encoder.int8.onnx"],
        &["models", "zipformer-vi", "decoder.int8.onnx"],
        &["models", "zipformer-vi", "joiner.int8.onnx"],
        &["models", "zipformer-vi", "tokens.txt"],
    ];
    assert!(is_zipformer_ready(&inventory(&all)));
    for skipped in 0..all.len() {
        let some: Vec<&[&str]> =
            all.iter().enumerate().filter(|(i, _)| *i != skipped).map(|(_, p)| *p).collect();
        assert!(!is_zipformer_ready(&inventory(&some)));
    }
    let mut installed = all.to_vec();
    installed.push(&["bin", "sherpa-onnx-offline.exe"]);
    assert!(is_zipformer_ready(&inventory(&installed)));
    assert_eq!(zipformer_path("x").parts, vec!["models", "zipformer-vi", "x"]);
}

#[test]
fn the_granite_model_is_described() {
    for info in [granite_model(), get_granite_model()] {
        assert_eq!(info.id, "granite-speech");
        assert_eq!(info.label, "Granite 4.0 1B Speech");
        assert_eq!(info.model_id, "ibm-granite/granite-4.0-1b-speech");
        assert_eq!(info.size_mb, 2000);
        assert_eq!(info.languages, vec!["en", "fr", "de", "es", "pt", "ja"]);
    }
}

#[test]
fn the_settings_page_looks_for_the_granite_configuration() {
    let config: &[&str] = &["models", "granite-speech", "config.json"];
    let weights: &[&str] = &["models", "granite-speech", "model.safetensors"];
    let index: &[&str] = &["models", "granite-speech", "model.safetensors.index.json"];
    assert!(is_granite_ready(&inventory(&[config, weights])));
    assert!(is_granite_ready(&inventory(&[config, index])));
    assert!(is_granite_ready(&inventory(&[config])));
    assert!(!is_granite_ready(&inventory(&[weights])));
    assert_eq!(granite_path("x").parts, vec!["models", "granite-speech", "x"]);
}

#[test]
fn a_first_run_has_default_settings() {
    let settings = AppSettings::default();
    assert_eq!(settings.model, "tiny.en");
    assert_eq!(settings.language, "en");
    assert_eq!(settings.hotkey, "CommandOrControl+Shift+Space");
    assert_eq!(settings.quit_hotkey, "CommandOrControl+Shift+Q");
    assert_eq!(settings.microphone_id, "");
    assert_eq!(f64::from_bits(settings.vad_silence_threshold.bits), 0.015);
    assert_eq!(settings.vad_silence_frames, 45);
    assert_eq!(settings.transcription_mode, "local");
    assert_eq!(settings.cloud_provider, "openai");
    assert_eq!(settings.cloud_api_key, "");
    assert!(settings.pill_positions.is_empty());
    assert_eq!(settings.local_engine, "whisper");
    assert_eq!(settings.granite_api_port, 8976);
    assert_eq!(default_transcription_mode(), "local");
    assert_eq!(default_cloud_provider(), "openai");
    assert_eq!(default_local_engine(), "whisper");
    assert_eq!(default_granite_port(), 8976);
    assert_same(&load_settings(None), &settings);
}

#[test]
fn stored_settings_come_back() {
    let settings = sample_settings();
    assert_same(&load_settings(Some(save_settings(&settings))), &settings);
    assert_same(&settings.clone(), &settings);
}

fn old_store() -> StoredSettings {
    StoredSettings {
        model: Some("base".to_string()),
        language: Some("fr".to_string()),
        hotkey: Some("F1".to_string()),
        quit_hotkey: Some("F2".to_string()),
        microphone_id: Some("mic".to_string()),
        vad_silence_threshold: Some(Float64 { bits: 0.5f64.to_bits() }),
        vad_silence_frames: Some(7),
        transcription_mode: None,
        cloud_provider: None,
        cloud_api_key: None,
        pill_positions: None,
        local_engine: None,
        granite_api_port: None,
    }
}

#[test]
fn settings_of_an_older_version_are_filled_up() {
    let settings = load_settings(Some(old_store()));
    assert_eq!(settings.model, "base");
    assert_eq!(settings.language, "fr");
    assert_eq!(settings.hotkey, "F1");
    assert_eq!(settings.quit_hotkey, "F2");
    assert_eq!(settings.microphone_id, "mic");
    assert_eq!(f64::from_bits(settings.vad_silence_threshold.bits), 0.5);
    assert_eq!(settings.vad_silence_frames, 7);
    assert_eq!(settings.transcription_mode, "local");
    assert_eq!(settings.cloud_provider, "openai");
    assert_eq!(settings.cloud_api_key, "");
    assert!(settings.pill_positions.is_empty());
    assert_eq!(settings.local_engine, "whisper");
    assert_eq!(settings.granite_api_port, 8976);
}

#[test]
fn incomplete_settings_are_those_of_a_first_run() {
    let mut without_model = old_store();
    without_model.model = None;
    let mut without_frames = old_store();
    without_frames.vad_silence_frames = None;
    for stored in [without_model, without_frames] {
        assert_same(&load_settings(Some(stored)), &AppSettings::default());
    }
}

#[test]
fn settings_that_were_kept_are_run_with() {
    let mut state = SettingsState { current: AppSettings::default() };
    assert_eq!(set_settings(&mut state, sample_settings(), Ok(())), Ok(()));
    assert_same(&get_settings(&state), &sample_settings());
}

#[test]
fn settings_that_were_not_kept_are_not_run_with() {
    let cases = vec![
        (SaveError::Open("x".to_string()), "Failed to open store: x"),
        (SaveError::Serialize("y".to_string()), "Serialize error: y"),
        (SaveError::Save("z".to_string()), "Store save error: z"),
    ];
    for (error, text) in cases {
        let mut state = SettingsState { current: AppSettings::default() };
        assert_eq!(error.message(), text);
        assert_eq!(
            set_settings(&mut state, sample_settings(), Err(error)),
            Err(text.to_string())
        );
        assert_same(&state.current, &AppSettings::default());
    }
}

#[test]
fn a_pill_position_is_kept_with_the_other_settings() {
    let mut state = SettingsState { current: sample_settings() };
    let kept = save_pill_position(&mut state, "B_3x4".to_string(), position(3.0, 4.0));
    assert_same(&kept, &state.current);
    assert_eq!(kept.model, "small");
    assert!(kept.pill_positions.get("A_1x2") == Some(position(1.5, -2.0)));
    assert!(kept.pill_positions.get("B_3x4") == Some(position(3.0, 4.0)));
}
