use v_voice::paths::{DataPath, Inventory};
use v_voice::request::{Arg, Args, Form, Upload};
use v_voice::settings::AppSettings;
use v_voice::transcribe::{
    add_language, cli_path, configure_whisper_command, is_ready, model_path, prompt_text,
    server_path, transcribe, transcribe_audio, transcribe_cloud, transcribe_partial,
    transcribe_partial_cli, transcribe_partial_server, transcribe_streaming, whisper_health_url,
    whisper_server_command, whisper_thread_count, Engine, PartialStep,
};

const HINT: &str =
    "Xin chào, đây là bản ghi âm tiếng Việt. Hãy chuyển đổi chính xác với dấu thanh đầy đủ.";

fn inventory(paths: &[DataPath]) -> Inventory {
    let mut seen = Inventory::new();
    for path in paths {
        seen.add(path.clone());
    }
    seen
}

fn shown(arg: &Arg) -> String {
    match arg {
        Arg::Text(text) => text.clone(),
        Arg::Data(path) => format!("<data>/{}", path.parts.join("/")),
        Arg::Temp(name) => format!("<temp>/{}", name),
    }
}

fn list(args: &Args) -> Vec<String> {
    args.list.iter().map(shown).collect()
}

fn fields(upload: &Upload) -> Vec<(&str, &str)> {
    upload.form.fields.iter().map(|f| (f.name.as_str(), f.value.as_str())).collect()
}

#[test]
fn whisper_files_have_their_places() {
    assert_eq!(model_path("tiny.en").parts, vec!["models", "ggml-tiny.en.bin"]);
    assert_eq!(cli_path().parts, vec!["bin", "whisper-cli.exe"]);
    assert_eq!(server_path().parts, vec!["bin", "whisper-server.exe"]);
}

#[test]
fn a_model_is_ready_with_both_programs() {
    let all = [model_path("tiny"), cli_path(), server_path()];
    assert!(is_ready("tiny", &inventory(&all)));
    assert!(!is_ready("base", &inventory(&all)));
    assert!(!is_ready("tiny", &inventory(&all[1..])));
    assert!(!is_ready("tiny", &inventory(&all[..2])));
    assert!(!is_ready("tiny", &inventory(&[model_path("tiny"), server_path()])));
}

#[test]
fn other_files_do_not_make_a_model_ready() {
    let other = DataPath::of("logs", "session.log");
    let all = [model_path("tiny"), cli_path(), server_path(), other.clone()];
    assert!(is_ready("tiny", &inventory(&all)));
    assert!(!is_ready("tiny", &inventory(&[cli_path(), server_path(), other])));
}

#[test]
fn whisper_gets_two_to_eight_threads() {
    let expected = [
        (None, "4"),
        (Some(0), "2"),
        (Some(1), "2"),
        (Some(2), "2"),
        (Some(3), "2"),
        (Some(4), "3"),
        (Some(8), "7"),
        (Some(9), "8"),
        (Some(10), "8"),
        (Some(128), "8"),
    ];
    for (parallelism, threads) in expected {
        assert_eq!(whisper_thread_count(parallelism), threads);
    }
}

#[test]
fn every_run_of_whisper_gets_common_arguments() {
    let mut args = Args::new();
    args.text("first");
    configure_whisper_command(&mut args, Some(5));
    assert_eq!(list(&args), vec!["first", "--threads", "4", "--split-on-word", "--suppress-nst"]);
}

#[test]
fn prompts_depend_on_the_language() {
    assert_eq!(prompt_text("vi", ""), HINT);
    assert_eq!(prompt_text("vi", "một hai"), "Xin chào, tiếng Việt. một hai");
    assert_eq!(prompt_text("en", ""), "");
    assert_eq!(prompt_text("en", "one two"), "one two");
    assert_eq!(prompt_text("auto", "one two"), "one two");
}

#[test]
fn a_recording_is_given_to_the_whisper_command() {
    let files = inventory(&[model_path("small"), cli_path()]);
    let run = transcribe_audio("v-voice", "small", "en", Some(4), &files).ok().unwrap();
    assert_eq!(shown(&run.program), "<data>/bin/whisper-cli.exe");
    assert_eq!(
        list(&run.args),
        vec![
            "-m",
            "<data>/models/ggml-small.bin",
            "-f",
            "<temp>/v-voice-audio.wav",
            "--no-timestamps",
            "--threads",
            "3",
            "--split-on-word",
            "--suppress-nst",
            "-l",
            "en",
            "--no-prints",
        ]
    );
    let run = transcribe_audio("v-voice", "small", "auto", Some(4), &files).ok().unwrap();
    assert_eq!(list(&run.args)[9..], ["--no-prints"]);
    let run = transcribe_audio("v-voice", "small", "vi", Some(4), &files).ok().unwrap();
    assert_eq!(list(&run.args)[9..], ["-l", "vi", "--prompt", HINT, "--no-prints"]);
}

#[test]
fn without_model_or_command_nothing_is_transcribed() {
    let error = |files: &Inventory| transcribe_audio("v-voice", "small", "en", None, files).err().unwrap();
    assert_eq!(error(&inventory(&[])), "Model not downloaded yet");
    assert_eq!(error(&inventory(&[cli_path()])), "Model not downloaded yet");
    assert_eq!(error(&inventory(&[model_path("small")])), "whisper-cli.exe not downloaded yet");
    let partial =
        |files: &Inventory| transcribe_partial_cli("v-voice", "small", "en", "", None, files).err().unwrap();
    assert_eq!(partial(&inventory(&[])), "Model or CLI not ready");
    assert_eq!(partial(&inventory(&[cli_path()])), "Model or CLI not ready");
    assert_eq!(partial(&inventory(&[model_path("small")])), "Model or CLI not ready");
}

#[test]
fn what_was_said_so_far_has_its_own_recording() {
    let files = inventory(&[model_path("tiny"), cli_path()]);
    let run = transcribe_partial_cli("v-voice", "tiny", "en", "so far", None, &files).ok().unwrap();
    assert_eq!(
        list(&run.args),
        vec![
            "-m",
            "<data>/models/ggml-tiny.bin",
            "-f",
            "<temp>/v-voice-partial.wav",
            "--no-timestamps",
            "--threads",
            "4",
            "--split-on-word",
            "--suppress-nst",
            "-l",
            "en",
            "--prompt",
            "so far",
            "--no-prints",
        ]
    );
    let whole = transcribe_audio("v-voice", "tiny", "en", None, &files).ok().unwrap();
    assert_ne!(list(&whole.args)[3], list(&run.args)[3]);
}

#[test]
fn the_command_stands_in_for_the_server() {
    assert!(matches!(transcribe_partial(Ok("text".to_string())), PartialStep::Done(t) if t == "text"));
    assert!(matches!(
        transcribe_partial(Err("no port".to_string())),
        PartialStep::FallBack(line)
            if line == "[whisper-server] no port; falling back to whisper-cli"
    ));
}

#[test]
fn the_server_listens_on_this_machine() {
    let run = whisper_server_command("base", 5000, Some(64));
    assert_eq!(shown(&run.program), "<data>/bin/whisper-server.exe");
    assert_eq!(
        list(&run.args),
        vec![
            "-m",
            "<data>/models/ggml-base.bin",
            "--host",
            "127.0.0.1",
            "--port",
            "5000",
            "--threads",
            "8",
            "--no-timestamps",
            "--split-on-word",
            "--suppress-nst",
            "--no-language-probabilities",
        ]
    );
    assert_eq!(whisper_health_url(5000), "http://127.0.0.1:5000/");
}

#[test]
fn the_server_is_asked_in_a_form() {
    let upload = transcribe_partial_server(5000, "auto", "");
    assert_eq!(upload.url, "http://127.0.0.1:5000/inference");
    assert!(upload.authorization.is_none());
    assert_eq!(fields(&upload), vec![("response_format", "json"), ("temperature", "0")]);
    let upload = transcribe_partial_server(5000, "vi", "hai");
    assert_eq!(
        fields(&upload),
        vec![
            ("response_format", "json"),
            ("temperature", "0"),
            ("language", "vi"),
            ("prompt", "Xin chào, tiếng Việt. hai"),
        ]
    );
}

#[test]
fn a_language_is_named_unless_it_is_to_be_found() {
    let mut form = Form::new();
    add_language(&mut form, "auto");
    assert!(form.fields.is_empty());
    add_language(&mut form, "de");
    assert_eq!(form.fields.len(), 1);
    assert_eq!(form.fields[0].value, "de");
}

#[test]
fn cloud_providers_are_asked_with_a_key() {
    let error = transcribe_cloud("en", "groq", "", "").err().unwrap();
    assert_eq!(error, "API key not configured. Please add your API key in Settings.");
    let groq = transcribe_cloud("en", "groq", "key", "before").ok().unwrap();
    assert_eq!(groq.url, "https://api.groq.com/openai/v1/audio/transcriptions");
    assert_eq!(groq.authorization.as_deref(), Some("Bearer key"));
    assert_eq!(
        fields(&groq),
        vec![
            ("model", "whisper-large-v3-turbo"),
            ("response_format", "json"),
            ("language", "en"),
            ("prompt", "before"),
        ]
    );
    for provider in ["openai", "", "other"] {
        let upload = transcribe_cloud("auto", provider, "key", "").ok().unwrap();
        assert_eq!(upload.url, "https://api.openai.com/v1/audio/transcriptions");
        assert_eq!(fields(&upload), vec![("model", "whisper-1"), ("response_format", "json")]);
    }
}

#[test]
fn the_settings_choose_the_engine() {
    let mut settings = AppSettings::default();
    assert!(matches!(
        transcribe(&settings),
        Engine::Whisper { model, language } if model == "tiny.en" && language == "en"
    ));
    assert!(matches!(
        transcribe_streaming(&settings, "p".to_string()),
        Engine::WhisperPartial { model, language, prompt }
            if model == "tiny.en" && language == "en" && prompt == "p"
    ));
    settings.local_engine = "zipformer".to_string();
    assert!(matches!(transcribe(&settings), Engine::Zipformer));
    assert!(matches!(transcribe_streaming(&settings, String::new()), Engine::Zipformer));
    settings.local_engine = "granite".to_string();
    assert!(matches!(
        transcribe(&settings),
        Engine::Granite { port: 8976, language } if language == "en"
    ));
    assert!(matches!(
        transcribe_streaming(&settings, String::new()),
        Engine::Granite { port: 8976, .. }
    ));
    settings.local_engine = "unheard of".to_string();
    assert!(matches!(transcribe(&settings), Engine::Whisper { .. }));
}

#[test]
fn the_cloud_is_used_in_cloud_mode_alone() {
    let mut settings = AppSettings::default();
    for local_engine in ["whisper", "zipformer", "granite"] {
        settings.local_engine = local_engine.to_string();
        settings.transcription_mode = "local".to_string();
        assert!(!matches!(transcribe(&settings), Engine::Cloud { .. }));
        assert!(!matches!(transcribe_streaming(&settings, String::new()), Engine::Cloud { .. }));
        settings.transcription_mode = "cloud".to_string();
        settings.cloud_api_key = "k".to_string();
        assert!(matches!(
            transcribe(&settings),
            Engine::Cloud { provider, api_key, language, prompt }
                if provider == "openai" && api_key == "k" && language == "en" && prompt == ""
        ));
        assert!(matches!(
            transcribe_streaming(&settings, "p".to_string()),
            Engine::Cloud { prompt, .. } if prompt == "p"
        ));
    }
}
