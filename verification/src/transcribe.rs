//! Which engine transcribes a recording, and what that engine is asked.

use vstd::prelude::*;
use vstd::string::*;
use crate::paths::{DataPath, Inventory};
use crate::request::{local_url, local_url_of, Arg, ArgView, Args, Command, Form, Upload};
use crate::settings::{filename_of, model_file, AppSettings, SettingsView};
use crate::text::{decimal, decimal_is_digits, decimal_of, same};

verus! {

/// The path of the file that holds the model `model_id`.
pub fn model_path(model_id: &str) -> (path: DataPath)
    ensures
        path@ == model_file(model_id@),
{
    DataPath::of("models", filename_of(model_id).as_str())
}

/// The path of the whisper command.
pub open spec fn cli_file() -> Seq<Seq<char>> {
    seq!["bin"@, "whisper-cli.exe"@]
}

/// The path of the whisper server.
pub open spec fn server_file() -> Seq<Seq<char>> {
    seq!["bin"@, "whisper-server.exe"@]
}

/// The path of the whisper command.
pub fn cli_path() -> (path: DataPath)
    ensures
        path@ == cli_file(),
{
    DataPath::of("bin", "whisper-cli.exe")
}

/// The path of the whisper server.
pub fn server_path() -> (path: DataPath)
    ensures
        path@ == server_file(),
{
    DataPath::of("bin", "whisper-server.exe")
}

/// The files that have to be there for the model `model_id` to be used.
pub open spec fn whisper_files(model_id: Seq<char>) -> Set<Seq<Seq<char>>> {
    set![model_file(model_id), cli_file(), server_file()]
}

/// Whether the model and both whisper programs are there.
pub fn is_ready(model_id: &str, files: &Inventory) -> (ready: bool)
    ensures
        ready <==> whisper_files(model_id@).subset_of(files@),
{
    let ready = files.has(&model_path(model_id)) && files.has(&cli_path()) && files.has(
        &server_path(),
    );
    proof {
        let wanted = whisper_files(model_id@);
        assert(wanted.contains(model_file(model_id@)) && wanted.contains(cli_file())
            && wanted.contains(server_file()));
    }
    ready
}

/// Whether the model is ready depends on no other file than its own and the two programs.
pub proof fn readiness_rests_on_three_files(
    model_id: Seq<char>,
    files: Set<Seq<Seq<char>>>,
    others: Set<Seq<Seq<char>>>,
)
    requires
        files.intersect(whisper_files(model_id)) == others.intersect(whisper_files(model_id)),
    ensures
        whisper_files(model_id).subset_of(files) == whisper_files(model_id).subset_of(others),
{
    let wanted = whisper_files(model_id);
    assert forall|f: Seq<Seq<char>>| wanted.contains(f) implies files.contains(f)
        == others.contains(f) by {
        assert(files.intersect(wanted).contains(f) == others.intersect(wanted).contains(f));
    }
}

/// How many threads whisper gets on a machine that can run `parallelism` at once: one less, but
/// two at least and eight at most; four where that is not known.
pub open spec fn threads_for(parallelism: Option<usize>) -> nat {
    match parallelism {
        Some(n) => if n < 3 {
            2
        } else if n > 9 {
            8
        } else {
            (n - 1) as nat
        },
        None => 4,
    }
}

/// How many threads whisper gets, in decimal.
pub fn whisper_thread_count(parallelism: Option<usize>) -> (count: String)
    ensures
        count@ == decimal_of(threads_for(parallelism)),
        2 <= threads_for(parallelism) <= 8,
{
    let count: usize = match parallelism {
        Some(n) => {
            let less: usize = n.saturating_sub(1);
            if less < 2 {
                2
            } else if less > 8 {
                8
            } else {
                less
            }
        },
        None => 4,
    };
    decimal(count as u64)
}

/// The arguments that every run of whisper gets.
pub open spec fn common_args(parallelism: Option<usize>) -> Seq<ArgView> {
    seq![
        ArgView::Text("--threads"@),
        ArgView::Text(decimal_of(threads_for(parallelism))),
        ArgView::Text("--split-on-word"@),
        ArgView::Text("--suppress-nst"@),
    ]
}

/// Adds the arguments that every run of whisper gets.
pub fn configure_whisper_command(args: &mut Args, parallelism: Option<usize>)
    ensures
        final(args)@ == old(args)@ + common_args(parallelism),
{
    let threads = whisper_thread_count(parallelism);
    args.text("--threads");
    args.text(threads.as_str());
    args.text("--split-on-word");
    args.text("--suppress-nst");
    assert(args@ =~= old(args)@ + common_args(parallelism));
}

/// What precedes Vietnamese speech of which nothing is known yet, so that the transcript has its
/// tone marks.
pub open spec fn vietnamese_hint() -> Seq<char> {
    "Xin chào, đây là bản ghi âm tiếng Việt. Hãy chuyển đổi chính xác với dấu thanh đầy đủ."@
}

/// The prompt for a recording: what was said before, for Vietnamese behind a greeting in that
/// language; the hint for Vietnamese of which nothing was said before.
pub open spec fn prompt_of(language: Seq<char>, prompt: Seq<char>) -> Seq<char> {
    if language == "vi"@ {
        if prompt.len() == 0 {
            vietnamese_hint()
        } else {
            "Xin chào, tiếng Việt. "@ + prompt
        }
    } else {
        prompt
    }
}

/// The prompt for a recording in `language`, of which `prompt` was said before.
pub fn prompt_text(language: &str, prompt: &str) -> (text: String)
    ensures
        text@ == prompt_of(language@, prompt@),
{
    if same(language, "vi") {
        if prompt.is_empty() {
            "Xin chào, đây là bản ghi âm tiếng Việt. Hãy chuyển đổi chính xác với dấu thanh đầy đủ.".to_string()
        } else {
            "Xin chào, tiếng Việt. ".to_string().concat(prompt)
        }
    } else {
        prompt.to_string()
    }
}

/// Vietnamese always gets a prompt, and the prompt ends with all that was said before.
pub proof fn vietnamese_is_always_prompted(prompt: Seq<char>)
    ensures
        prompt_of("vi"@, prompt).len() > 0,
        prompt.is_suffix_of(prompt_of("vi"@, prompt)),
{
    reveal_strlit("Xin chào, tiếng Việt. ");
    reveal_strlit(
        "Xin chào, đây là bản ghi âm tiếng Việt. Hãy chuyển đổi chính xác với dấu thanh đầy đủ.",
    );
    let text = prompt_of("vi"@, prompt);
    assert(text.subrange(text.len() - prompt.len(), text.len() as int) =~= prompt);
}

/// The language as arguments: none where whisper is to find out.
pub open spec fn language_args(language: Seq<char>) -> Seq<ArgView> {
    if language == "auto"@ {
        Seq::empty()
    } else {
        seq![ArgView::Text("-l"@), ArgView::Text(language)]
    }
}

/// The prompt as arguments: none where it is empty.
pub open spec fn prompt_args(prompt: Seq<char>) -> Seq<ArgView> {
    if prompt.len() == 0 {
        Seq::empty()
    } else {
        seq![ArgView::Text("--prompt"@), ArgView::Text(prompt)]
    }
}

/// The arguments of a run of the whisper command on the recording `wav`.
pub open spec fn whisper_args(
    model_id: Seq<char>,
    wav: Seq<char>,
    parallelism: Option<usize>,
    language: Seq<char>,
    prompt: Seq<char>,
) -> Seq<ArgView> {
    seq![
        ArgView::Text("-m"@),
        ArgView::Data(model_file(model_id)),
        ArgView::Text("-f"@),
        ArgView::Temp(wav),
        ArgView::Text("--no-timestamps"@),
    ] + common_args(parallelism) + language_args(language) + prompt_args(prompt)
        + seq![ArgView::Text("--no-prints"@)]
}

/// The run of the whisper command on the recording `wav`.
fn whisper_command(
    model_id: &str,
    wav: &str,
    parallelism: Option<usize>,
    language: &str,
    prompt: &str,
) -> (command: Command)
    ensures
        command.program@ == ArgView::Data(cli_file()),
        command.args@ == whisper_args(model_id@, wav@, parallelism, language@, prompt@),
{
    let mut args = Args::new();
    args.text("-m");
    args.data(model_path(model_id));
    args.text("-f");
    args.temp(wav);
    args.text("--no-timestamps");
    configure_whisper_command(&mut args, parallelism);
    let ghost before = args@;
    if !same(language, "auto") {
        args.text("-l");
        args.text(language);
    }
    assert(args@ =~= before + language_args(language@));
    let ghost before = args@;
    if !prompt.is_empty() {
        args.text("--prompt");
        args.text(prompt);
    }
    assert(args@ =~= before + prompt_args(prompt@));
    args.text("--no-prints");
    assert(args@ =~= whisper_args(model_id@, wav@, parallelism, language@, prompt@));
    Command { program: Arg::Data(cli_path()), args }
}

/// The recording of the final transcription, in the temporary directory.
pub open spec fn final_wav(app_name: Seq<char>) -> Seq<char> {
    app_name + "-audio.wav"@
}

/// The recording of what was said so far, in the temporary directory: another file than the final
/// one, so that the two runs do not meet.
pub open spec fn partial_wav(app_name: Seq<char>) -> Seq<char> {
    app_name + "-partial.wav"@
}

/// The run of the whisper command that transcribes a whole recording. Vietnamese gets the hint.
pub fn transcribe_audio(
    app_name: &str,
    model_id: &str,
    language: &str,
    parallelism: Option<usize>,
    files: &Inventory,
) -> (command: Result<Command, String>)
    ensures
        match command {
            Ok(run) => {
                &&& files@.contains(model_file(model_id@))
                &&& files@.contains(cli_file())
                &&& run.program@ == ArgView::Data(cli_file())
                &&& run.args@ == whisper_args(
                    model_id@,
                    final_wav(app_name@),
                    parallelism,
                    language@,
                    prompt_of(language@, Seq::empty()),
                )
                &&& language@ != "auto"@ ==> {
                    &&& run.args@.len() > 10
                    &&& run.args@[9] == ArgView::Text("-l"@)
                    &&& run.args@[10] == ArgView::Text(language@)
                }
                &&& language@ == "auto"@ ==> forall|i: int|
                    0 <= i < run.args@.len() && #[trigger] run.args@[i] == ArgView::Text("-l"@)
                        ==> i > 0 && run.args@[i - 1] == ArgView::Text("--prompt"@)
            },
            Err(e) => if !files@.contains(model_file(model_id@)) {
                e@ == "Model not downloaded yet"@
            } else {
                !files@.contains(cli_file()) && e@ == "whisper-cli.exe not downloaded yet"@
            },
        },
{
    if !files.has(&model_path(model_id)) {
        return Err("Model not downloaded yet".to_string());
    }
    if !files.has(&cli_path()) {
        return Err("whisper-cli.exe not downloaded yet".to_string());
    }
    proof {
        reveal_strlit("");
        assert(""@ =~= Seq::<char>::empty());
    }
    let prompt = prompt_text(language, "");
    let wav = app_name.to_string().concat("-audio.wav");
    proof {
        language_stands_behind_its_option(model_id@, wav@, parallelism, language@, prompt@);
    }
    Ok(
        whisper_command(
            model_id,
            wav.as_str(),
            parallelism,
            language,
            prompt.as_str(),
        ),
    )
}

/// The run of the whisper command that transcribes what was said so far, where the server cannot.
pub fn transcribe_partial_cli(
    app_name: &str,
    model_id: &str,
    language: &str,
    prompt: &str,
    parallelism: Option<usize>,
    files: &Inventory,
) -> (command: Result<Command, String>)
    ensures
        match command {
            Ok(run) => {
                &&& files@.contains(model_file(model_id@))
                &&& files@.contains(cli_file())
                &&& run.program@ == ArgView::Data(cli_file())
                &&& run.args@ == whisper_args(
                    model_id@,
                    partial_wav(app_name@),
                    parallelism,
                    language@,
                    prompt_of(language@, prompt@),
                )
                &&& language@ != "auto"@ ==> {
                    &&& run.args@.len() > 10
                    &&& run.args@[9] == ArgView::Text("-l"@)
                    &&& run.args@[10] == ArgView::Text(language@)
                }
                &&& language@ == "auto"@ ==> forall|i: int|
                    0 <= i < run.args@.len() && #[trigger] run.args@[i] == ArgView::Text("-l"@)
                        ==> i > 0 && run.args@[i - 1] == ArgView::Text("--prompt"@)
            },
            Err(e) => {
                &&& !files@.contains(model_file(model_id@)) || !files@.contains(cli_file())
                &&& e@ == "Model or CLI not ready"@
            },
        },
{
    if !files.has(&model_path(model_id)) || !files.has(&cli_path()) {
        return Err("Model or CLI not ready".to_string());
    }
    let prompt = prompt_text(language, prompt);
    let wav = app_name.to_string().concat("-partial.wav");
    proof {
        language_stands_behind_its_option(model_id@, wav@, parallelism, language@, prompt@);
    }
    Ok(
        whisper_command(
            model_id,
            wav.as_str(),
            parallelism,
            language,
            prompt.as_str(),
        ),
    )
}

/// The final recording and the one of what was said so far are kept in different files.
pub proof fn recordings_do_not_meet(app_name: Seq<char>)
    ensures
        final_wav(app_name) != partial_wav(app_name),
{
    reveal_strlit("-audio.wav");
    reveal_strlit("-partial.wav");
    assert(final_wav(app_name).len() != partial_wav(app_name).len());
}

/// What follows the server's attempt at a transcript of what was said so far.
pub enum PartialStep {
    /// This is the transcript.
    Done(String),
    /// The whisper command is to try; the log gets this line.
    FallBack(String),
}

/// What follows the server's attempt: its transcript is taken, and where it has none the whisper
/// command is to try.
pub fn transcribe_partial(attempt: Result<String, String>) -> (step: PartialStep)
    ensures
        match attempt {
            Ok(text) => step == PartialStep::Done(text),
            Err(e) => step matches PartialStep::FallBack(line) && line@ == "[whisper-server] "@ + e@
                + "; falling back to whisper-cli"@,
        },
{
    match attempt {
        Ok(text) => PartialStep::Done(text),
        Err(e) => PartialStep::FallBack(
            "[whisper-server] ".to_string().concat(e.as_str()).concat(
                "; falling back to whisper-cli",
            ),
        ),
    }
}

/// The arguments with which the whisper server is spawned.
pub open spec fn server_args(
    model_id: Seq<char>,
    port: u16,
    parallelism: Option<usize>,
) -> Seq<ArgView> {
    seq![
        ArgView::Text("-m"@),
        ArgView::Data(model_file(model_id)),
        ArgView::Text("--host"@),
        ArgView::Text("127.0.0.1"@),
        ArgView::Text("--port"@),
        ArgView::Text(decimal_of(port as nat)),
        ArgView::Text("--threads"@),
        ArgView::Text(decimal_of(threads_for(parallelism))),
        ArgView::Text("--no-timestamps"@),
        ArgView::Text("--split-on-word"@),
        ArgView::Text("--suppress-nst"@),
        ArgView::Text("--no-language-probabilities"@),
    ]
}

/// The run of the whisper server for `model_id`, on `port` of this machine alone.
pub fn whisper_server_command(model_id: &str, port: u16, parallelism: Option<usize>) -> (command:
    Command)
    ensures
        command.program@ == ArgView::Data(server_file()),
        command.args@ == server_args(model_id@, port, parallelism),
{
    let mut args = Args::new();
    args.text("-m");
    args.data(model_path(model_id));
    args.text("--host");
    args.text("127.0.0.1");
    args.text("--port");
    args.text(decimal(port as u64).as_str());
    args.text("--threads");
    args.text(whisper_thread_count(parallelism).as_str());
    args.text("--no-timestamps");
    args.text("--split-on-word");
    args.text("--suppress-nst");
    args.text("--no-language-probabilities");
    assert(args@ =~= server_args(model_id@, port, parallelism));
    Command { program: Arg::Data(server_path()), args }
}

/// The address at which the whisper server is asked whether it is well.
pub fn whisper_health_url(port: u16) -> (url: String)
    ensures
        url@ == local_url_of(port, "/"@),
{
    local_url(port, "/")
}

/// The language as a form field: none where the server is to find out.
pub open spec fn language_fields(language: Seq<char>) -> Seq<(Seq<char>, Seq<char>)> {
    if language == "auto"@ {
        Seq::empty()
    } else {
        seq![("language"@, language)]
    }
}

/// The prompt as a form field: none where it is empty.
pub open spec fn prompt_fields(prompt: Seq<char>) -> Seq<(Seq<char>, Seq<char>)> {
    if prompt.len() == 0 {
        Seq::empty()
    } else {
        seq![("prompt"@, prompt)]
    }
}

/// Adds the language, unless the server is to find out.
pub fn add_language(form: &mut Form, language: &str)
    ensures
        final(form)@ == old(form)@ + language_fields(language@),
{
    if !same(language, "auto") {
        form.text("language", language);
    }
    assert(form@ =~= old(form)@ + language_fields(language@));
}

/// Adds the prompt for a recording in `language`, if there is any.
fn add_prompt(form: &mut Form, language: &str, prompt: &str)
    ensures
        final(form)@ == old(form)@ + prompt_fields(prompt_of(language@, prompt@)),
{
    let text = prompt_text(language, prompt);
    if !text.as_str().is_empty() {
        form.text("prompt", text.as_str());
    }
    assert(form@ =~= old(form)@ + prompt_fields(prompt_of(language@, prompt@)));
}

/// What the whisper server on `port` is asked about a recording of what was said so far.
pub fn transcribe_partial_server(port: u16, language: &str, prompt: &str) -> (upload: Upload)
    ensures
        upload.url@ == local_url_of(port, "/inference"@),
        upload.authorization is None,
        upload.form@ == seq![("response_format"@, "json"@), ("temperature"@, "0"@)]
            + language_fields(language@) + prompt_fields(prompt_of(language@, prompt@)),
{
    let mut form = Form::new();
    form.text("response_format", "json");
    form.text("temperature", "0");
    assert(form@ =~= seq![("response_format"@, "json"@), ("temperature"@, "0"@)]);
    add_language(&mut form, language);
    add_prompt(&mut form, language, prompt);
    Upload { url: local_url(port, "/inference"), authorization: None, form }
}

/// Where a cloud provider takes recordings.
pub open spec fn cloud_url(provider: Seq<char>) -> Seq<char> {
    if provider == "groq"@ {
        "https://api.groq.com/openai/v1/audio/transcriptions"@
    } else {
        "https://api.openai.com/v1/audio/transcriptions"@
    }
}

/// The model that a cloud provider is asked for.
pub open spec fn cloud_model(provider: Seq<char>) -> Seq<char> {
    if provider == "groq"@ {
        "whisper-large-v3-turbo"@
    } else {
        "whisper-1"@
    }
}

/// What a cloud provider is asked about a recording. Nothing is asked without a key.
pub fn transcribe_cloud(language: &str, provider: &str, api_key: &str, prompt: &str) -> (upload:
    Result<Upload, String>)
    ensures
        match upload {
            Ok(ask) => {
                &&& api_key@.len() > 0
                &&& ask.url@ == cloud_url(provider@)
                &&& ask.authorization is Some
                &&& ask.authorization->0@ == "Bearer "@ + api_key@
                &&& ask.form@ == seq![
                    ("model"@, cloud_model(provider@)),
                    ("response_format"@, "json"@),
                ] + language_fields(language@) + prompt_fields(prompt_of(language@, prompt@))
            },
            Err(e) => {
                &&& api_key@.len() == 0
                &&& e@ == "API key not configured. Please add your API key in Settings."@
            },
        },
{
    if api_key.is_empty() {
        return Err("API key not configured. Please add your API key in Settings.".to_string());
    }
    let (url, model) = if same(provider, "groq") {
        ("https://api.groq.com/openai/v1/audio/transcriptions", "whisper-large-v3-turbo")
    } else {
        ("https://api.openai.com/v1/audio/transcriptions", "whisper-1")
    };
    let mut form = Form::new();
    form.text("model", model);
    form.text("response_format", "json");
    assert(form@ =~= seq![
        ("model"@, cloud_model(provider@)),
        ("response_format"@, "json"@),
    ]);
    add_language(&mut form, language);
    add_prompt(&mut form, language, prompt);
    Ok(
        Upload {
            url: url.to_string(),
            authorization: Some("Bearer ".to_string().concat(api_key)),
            form,
        },
    )
}

/// What a recording goes to.
pub enum Engine {
    /// A cloud provider.
    Cloud { provider: String, api_key: String, language: String, prompt: String },
    /// sherpa-onnx with the Zipformer model.
    Zipformer,
    /// The local Granite server.
    Granite { port: u16, language: String },
    /// The whisper command, for the final transcript.
    Whisper { model: String, language: String },
    /// The whisper server, for a transcript of what was said so far.
    WhisperPartial { model: String, language: String, prompt: String },
}

/// Whether the settings send a recording to this engine, and with what. For a recording of what
/// was said so far, `said` is the transcript up to it.
pub open spec fn is_chosen(
    engine: Engine,
    settings: SettingsView,
    said: Option<Seq<char>>,
) -> bool {
    if settings.transcription_mode == "cloud"@ {
        &&& engine is Cloud
        &&& engine->Cloud_provider@ == settings.cloud_provider
        &&& engine->Cloud_api_key@ == settings.cloud_api_key
        &&& engine->Cloud_language@ == settings.language
        &&& engine->Cloud_prompt@ == match said {
            Some(prompt) => prompt,
            None => Seq::empty(),
        }
    } else if settings.local_engine == "zipformer"@ {
        engine is Zipformer
    } else if settings.local_engine == "granite"@ {
        &&& engine is Granite
        &&& engine->Granite_port == settings.granite_api_port
        &&& engine->Granite_language@ == settings.language
    } else {
        match said {
            None => {
                &&& engine is Whisper
                &&& engine->Whisper_model@ == settings.model
                &&& engine->Whisper_language@ == settings.language
            },
            Some(prompt) => {
                &&& engine is WhisperPartial
                &&& engine->WhisperPartial_model@ == settings.model
                &&& engine->WhisperPartial_language@ == settings.language
                &&& engine->WhisperPartial_prompt@ == prompt
            },
        }
    }
}

/// What the settings send a whole recording to.
pub fn transcribe(settings: &AppSettings) -> (engine: Engine)
    ensures
        is_chosen(engine, settings@, None),
        settings.transcription_mode@ == "cloud"@ ==> (engine matches Engine::Cloud {
            provider,
            api_key,
            language,
            prompt: said,
        } && provider@ == settings.cloud_provider@ && api_key@ == settings.cloud_api_key@ && language@
            == settings.language@ && said@ == Seq::<char>::empty()),
        settings.transcription_mode@ != "cloud"@ && settings.local_engine@ == "zipformer"@
            ==> engine is Zipformer,
        settings.transcription_mode@ != "cloud"@ && settings.local_engine@ == "granite"@ ==> (
        engine matches Engine::Granite { port, language } && port == settings.granite_api_port
            && language@ == settings.language@),
        settings.transcription_mode@ != "cloud"@ && settings.local_engine@ != "zipformer"@
            && settings.local_engine@ != "granite"@ ==> (engine matches Engine::Whisper { model, language } && model@
            == settings.model@ && language@ == settings.language@),
{
    proof {
        reveal_strlit("granite");
        reveal_strlit("zipformer");
        assert("granite"@.len() != "zipformer"@.len());
    }
    if same(settings.transcription_mode.as_str(), "cloud") {
        Engine::Cloud {
            provider: settings.cloud_provider.clone(),
            api_key: settings.cloud_api_key.clone(),
            language: settings.language.clone(),
            prompt: String::new(),
        }
    } else if same(settings.local_engine.as_str(), "zipformer") {
        Engine::Zipformer
    } else if same(settings.local_engine.as_str(), "granite") {
        Engine::Granite { port: settings.granite_api_port, language: settings.language.clone() }
    } else {
        Engine::Whisper { model: settings.model.clone(), language: settings.language.clone() }
    }
}

/// What the settings send a recording of what was said so far to; `prompt` is the transcript up to
/// it.
pub fn transcribe_streaming(settings: &AppSettings, prompt: String) -> (engine: Engine)
    ensures
        is_chosen(engine, settings@, Some(prompt@)),
        settings.transcription_mode@ == "cloud"@ ==> (engine matches Engine::Cloud {
            provider,
            api_key,
            language,
            prompt: said,
        } && provider@ == settings.cloud_provider@ && api_key@ == settings.cloud_api_key@ && language@
            == settings.language@ && said@ == prompt@),
        settings.transcription_mode@ != "cloud"@ && settings.local_engine@ == "zipformer"@
            ==> engine is Zipformer,
        settings.transcription_mode@ != "cloud"@ && settings.local_engine@ == "granite"@ ==> (
        engine matches Engine::Granite { port, language } && port == settings.granite_api_port
            && language@ == settings.language@),
        settings.transcription_mode@ != "cloud"@ && settings.local_engine@ != "zipformer"@
            && settings.local_engine@ != "granite"@ ==> (engine matches Engine::WhisperPartial { model, language, prompt: said } && model@
            == settings.model@ && language@ == settings.language@ && said@ == prompt@),
{
    proof {
        reveal_strlit("granite");
        reveal_strlit("zipformer");
        assert("granite"@.len() != "zipformer"@.len());
    }
    if same(settings.transcription_mode.as_str(), "cloud") {
        Engine::Cloud {
            provider: settings.cloud_provider.clone(),
            api_key: settings.cloud_api_key.clone(),
            language: settings.language.clone(),
            prompt,
        }
    } else if same(settings.local_engine.as_str(), "zipformer") {
        Engine::Zipformer
    } else if same(settings.local_engine.as_str(), "granite") {
        Engine::Granite { port: settings.granite_api_port, language: settings.language.clone() }
    } else {
        Engine::WhisperPartial {
            model: settings.model.clone(),
            language: settings.language.clone(),
            prompt,
        }
    }
}

/// In local mode nothing leaves this machine: no recording goes to a cloud provider, and the servers
/// that one is uploaded to are on this machine.
pub proof fn local_mode_stays_on_this_machine(
    engine: Engine,
    settings: SettingsView,
    said: Option<Seq<char>>,
    port: u16,
    path: Seq<char>,
)
    requires
        is_chosen(engine, settings, said),
        settings.transcription_mode != "cloud"@,
    ensures
        !(engine is Cloud),
        "http://127.0.0.1:"@.is_prefix_of(local_url_of(port, path)),
{
    let url = local_url_of(port, path);
    assert(url.subrange(0, "http://127.0.0.1:"@.len() as int) =~= "http://127.0.0.1:"@);
}

/// Of what every run of whisper gets, nothing is the option that names the language.
proof fn common_args_name_no_language(parallelism: Option<usize>)
    ensures
        forall|i: int| 0 <= i < 4 ==> #[trigger] common_args(parallelism)[i] != ArgView::Text("-l"@),
{
    reveal_strlit("-l");
    reveal_strlit("--threads");
    reveal_strlit("--split-on-word");
    reveal_strlit("--suppress-nst");
    let count = decimal_of(threads_for(parallelism));
    decimal_is_digits(threads_for(parallelism), 0);
    assert(count[0] != "-l"@[0]);
    assert("--threads"@.len() != "-l"@.len());
    assert("--split-on-word"@.len() != "-l"@.len());
    assert("--suppress-nst"@.len() != "-l"@.len());
}

/// A run of whisper is told the language directly behind the option for it, whichever the language,
/// and where whisper is to find out, that option stands nowhere but as a prompt.
proof fn language_stands_behind_its_option(
    model_id: Seq<char>,
    wav: Seq<char>,
    parallelism: Option<usize>,
    language: Seq<char>,
    prompt: Seq<char>,
)
    ensures
        ({
            let args = whisper_args(model_id, wav, parallelism, language, prompt);
            &&& language != "auto"@ ==> args.len() > 10 && args[9] == ArgView::Text("-l"@) && args[10]
                == ArgView::Text(language)
            &&& language == "auto"@ ==> forall|i: int|
                0 <= i < args.len() && #[trigger] args[i] == ArgView::Text("-l"@) ==> i > 0 && args[i
                    - 1] == ArgView::Text("--prompt"@)
        }),
{
    let args = whisper_args(model_id, wav, parallelism, language, prompt);
    reveal_strlit("-l");
    reveal_strlit("-m");
    reveal_strlit("-f");
    reveal_strlit("--no-timestamps");
    reveal_strlit("--prompt");
    reveal_strlit("--no-prints");
    assert("-m"@[1] != "-l"@[1]);
    assert("-f"@[1] != "-l"@[1]);
    assert("--no-timestamps"@.len() != "-l"@.len());
    assert("--prompt"@.len() != "-l"@.len());
    assert("--no-prints"@.len() != "-l"@.len());
    common_args_name_no_language(parallelism);
    if language == "auto"@ {
        assert forall|i: int|
            0 <= i < args.len() && #[trigger] args[i] == ArgView::Text("-l"@) implies i > 0 && args[i
            - 1] == ArgView::Text("--prompt"@) by {
            if 5 <= i < 9 {
                assert(args[i] == common_args(parallelism)[i - 5]);
            }
        }
    }
}

/// In every mode a whole recording goes where the settings say: in cloud mode to their provider with
/// their key and language, else to their local engine.
pub proof fn settings_choose_the_engine(settings: AppSettings, engine: Engine)
    requires
        call_ensures(transcribe, (&settings,), engine),
    ensures
        settings.transcription_mode@ == "cloud"@ ==> (engine matches Engine::Cloud {
            provider,
            api_key,
            language,
            prompt: said,
        } && provider@ == settings.cloud_provider@ && api_key@ == settings.cloud_api_key@ && language@
            == settings.language@ && said@ == Seq::<char>::empty()),
        settings.transcription_mode@ != "cloud"@ && settings.local_engine@ == "zipformer"@
            ==> engine is Zipformer,
        settings.transcription_mode@ != "cloud"@ && settings.local_engine@ == "granite"@ ==> (
        engine matches Engine::Granite { port, language } && port == settings.granite_api_port
            && language@ == settings.language@),
        settings.transcription_mode@ != "cloud"@ && settings.local_engine@ != "zipformer"@
            && settings.local_engine@ != "granite"@ ==> (engine matches Engine::Whisper { model, language } && model@
            == settings.model@ && language@ == settings.language@),
{
}

/// The same of a recording of what was said so far, which is also told.
pub proof fn settings_choose_the_streaming_engine(
    settings: AppSettings,
    prompt: String,
    engine: Engine,
)
    requires
        call_ensures(transcribe_streaming, (&settings, prompt), engine),
    ensures
        settings.transcription_mode@ == "cloud"@ ==> (engine matches Engine::Cloud {
            provider,
            api_key,
            language,
            prompt: said,
        } && provider@ == settings.cloud_provider@ && api_key@ == settings.cloud_api_key@ && language@
            == settings.language@ && said@ == prompt@),
        settings.transcription_mode@ != "cloud"@ && settings.local_engine@ == "zipformer"@
            ==> engine is Zipformer,
        settings.transcription_mode@ != "cloud"@ && settings.local_engine@ == "granite"@ ==> (
        engine matches Engine::Granite { port, language } && port == settings.granite_api_port
            && language@ == settings.language@),
        settings.transcription_mode@ != "cloud"@ && settings.local_engine@ != "zipformer"@
            && settings.local_engine@ != "granite"@ ==> (engine matches Engine::WhisperPartial { model, language, prompt: said } && model@
            == settings.model@ && language@ == settings.language@ && said@ == prompt@),
{
}

/// The provider that the settings name is the one that gets the recording: two settings that name
/// different providers lead to different providers, and those of Groq lead to Groq's address and
/// model, those of any other to OpenAI's.
pub proof fn named_provider_gets_the_recording(
    settings: AppSettings,
    other: AppSettings,
    engine: Engine,
    other_engine: Engine,
    language: &str,
    provider: &str,
    api_key: &str,
    prompt: &str,
    upload: Result<Upload, String>,
)
    requires
        call_ensures(transcribe, (&settings,), engine),
        call_ensures(transcribe, (&other,), other_engine),
        settings.transcription_mode@ == "cloud"@,
        other.transcription_mode@ == "cloud"@,
        engine matches Engine::Cloud { provider: p, api_key: k, language: l, .. } && p@ == provider@
            && k@ == api_key@ && l@ == language@,
        call_ensures(transcribe_cloud, (language, provider, api_key, prompt), upload),
    ensures
        other_engine is Cloud,
        settings.cloud_provider@ == other.cloud_provider@ <==> engine->Cloud_provider@
            == other_engine->Cloud_provider@,
        settings.cloud_api_key@ == other.cloud_api_key@ <==> engine->Cloud_api_key@
            == other_engine->Cloud_api_key@,
        upload is Ok <==> settings.cloud_api_key@.len() > 0,
        upload matches Ok(ask) ==> {
            &&& ask.authorization is Some
            &&& ask.authorization->0@ == "Bearer "@ + settings.cloud_api_key@
            &&& ask.form@.len() > 0
            &&& settings.cloud_provider@ == "groq"@ ==> ask.url@
                == "https://api.groq.com/openai/v1/audio/transcriptions"@ && ask.form@[0] == (
                "model"@,
                "whisper-large-v3-turbo"@,
            )
            &&& settings.cloud_provider@ != "groq"@ ==> ask.url@
                == "https://api.openai.com/v1/audio/transcriptions"@ && ask.form@[0] == (
                "model"@,
                "whisper-1"@,
            )
        },
{
}

/// The fields of a form that tell the language and what was said before: the language as it is,
/// unless the server is to find out; and what was said before, for Vietnamese behind a greeting.
pub proof fn cloud_is_told_language_and_prompt(
    language: &str,
    provider: &str,
    api_key: &str,
    prompt: &str,
    upload: Result<Upload, String>,
)
    requires
        call_ensures(transcribe_cloud, (language, provider, api_key, prompt), upload),
    ensures
        match upload {
            Ok(ask) => {
                let at: int = if language@ == "auto"@ {
                    2
                } else {
                    3
                };
                &&& api_key@.len() > 0
                &&& ask.form@.len() >= at
                &&& ask.form@[1] == ("response_format"@, "json"@)
                &&& language@ != "auto"@ ==> ask.form@[2] == ("language"@, language@)
                &&& language@ != "vi"@ && prompt@.len() == 0 ==> ask.form@.len() == at
                &&& language@ == "vi"@ || prompt@.len() > 0 ==> ask.form@.len() == at + 1
                    && ask.form@[at].0 == "prompt"@
                &&& language@ != "vi"@ && prompt@.len() > 0 ==> ask.form@[at].1 == prompt@
                &&& language@ == "vi"@ && prompt@.len() > 0 ==> ask.form@[at].1
                    == "Xin chào, tiếng Việt. "@ + prompt@
                &&& language@ == "vi"@ && prompt@.len() == 0 ==> ask.form@[at].1
                    == "Xin chào, đây là bản ghi âm tiếng Việt. Hãy chuyển đổi chính xác với dấu thanh đầy đủ."@
            },
            Err(e) => api_key@.len() == 0 && e@
                == "API key not configured. Please add your API key in Settings."@,
        },
{
    reveal_strlit("Xin chào, tiếng Việt. ");
    reveal_strlit(
        "Xin chào, đây là bản ghi âm tiếng Việt. Hãy chuyển đổi chính xác với dấu thanh đầy đủ.",
    );
}

/// The same of the local whisper server, which is asked on its own port of this machine.
pub proof fn whisper_server_is_told_language_and_prompt(
    port: u16,
    language: &str,
    prompt: &str,
    ask: Upload,
)
    requires
        call_ensures(transcribe_partial_server, (port, language, prompt), ask),
    ensures
        ({
            let at: int = if language@ == "auto"@ {
                2
            } else {
                3
            };
            &&& ask.url@ == "http://127.0.0.1:"@ + decimal_of(port as nat) + "/inference"@
            &&& ask.authorization is None
            &&& ask.form@.len() >= at
            &&& ask.form@[0] == ("response_format"@, "json"@)
            &&& ask.form@[1] == ("temperature"@, "0"@)
            &&& language@ != "auto"@ ==> ask.form@[2] == ("language"@, language@)
            &&& language@ != "vi"@ && prompt@.len() == 0 ==> ask.form@.len() == at
            &&& language@ == "vi"@ || prompt@.len() > 0 ==> ask.form@.len() == at + 1
                && ask.form@[at].0 == "prompt"@
            &&& language@ != "vi"@ && prompt@.len() > 0 ==> ask.form@[at].1 == prompt@
            &&& language@ == "vi"@ && prompt@.len() > 0 ==> ask.form@[at].1
                == "Xin chào, tiếng Việt. "@ + prompt@
            &&& language@ == "vi"@ && prompt@.len() == 0 ==> ask.form@[at].1
                == "Xin chào, đây là bản ghi âm tiếng Việt. Hãy chuyển đổi chính xác với dấu thanh đầy đủ."@
        }),
{
    reveal_strlit("Xin chào, tiếng Việt. ");
    reveal_strlit(
        "Xin chào, đây là bản ghi âm tiếng Việt. Hãy chuyển đổi chính xác với dấu thanh đầy đủ.",
    );
}

/// A whole recording is given to the whisper command where model and command are there, with the
/// model of that very id, the recording, the language as it is, and the hint for Vietnamese alone.
pub proof fn whisper_gets_recording_model_and_language(
    app_name: &str,
    model_id: &str,
    language: &str,
    parallelism: Option<usize>,
    files: Inventory,
    command: Result<Command, String>,
)
    requires
        call_ensures(transcribe_audio, (app_name, model_id, language, parallelism, &files), command),
    ensures
        ({
            let model = seq!["models"@, "ggml-"@ + model_id@ + ".bin"@];
            let cli = seq!["bin"@, "whisper-cli.exe"@];
            &&& command is Ok <==> files@.contains(model) && files@.contains(cli)
            &&& match command {
                Ok(run) => {
                    let args = run.args@;
                    let spoken: int = if language@ == "auto"@ {
                        9
                    } else {
                        11
                    };
                    &&& run.program@ == ArgView::Data(cli)
                    &&& args.len() >= spoken + 1
                    &&& args[0] == ArgView::Text("-m"@)
                    &&& args[1] == ArgView::Data(model)
                    &&& args[2] == ArgView::Text("-f"@)
                    &&& args[3] == ArgView::Temp(app_name@ + "-audio.wav"@)
                    &&& args[4] == ArgView::Text("--no-timestamps"@)
                    &&& args[5] == ArgView::Text("--threads"@)
                    &&& exists|threads: nat|
                        2 <= threads <= 8 && args[6] == ArgView::Text(#[trigger] decimal_of(threads))
                    &&& args[7] == ArgView::Text("--split-on-word"@)
                    &&& args[8] == ArgView::Text("--suppress-nst"@)
                    &&& language@ != "auto"@ ==> args[9] == ArgView::Text("-l"@) && args[10]
                        == ArgView::Text(language@)
                    &&& args.last() == ArgView::Text("--no-prints"@)
                    &&& language@ == "vi"@ ==> args.len() == spoken + 3 && args[spoken]
                        == ArgView::Text("--prompt"@) && args[spoken + 1] == ArgView::Text(
                        "Xin chào, đây là bản ghi âm tiếng Việt. Hãy chuyển đổi chính xác với dấu thanh đầy đủ."@,
                    )
                    &&& language@ != "vi"@ ==> args.len() == spoken + 1
                },
                Err(e) => if !files@.contains(model) {
                    e@ == "Model not downloaded yet"@
                } else {
                    e@ == "whisper-cli.exe not downloaded yet"@
                },
            }
        }),
{
    let model = seq!["models"@, "ggml-"@ + model_id@ + ".bin"@];
    assert(model =~= model_file(model_id@));
    if command is Ok {
        let args = command->Ok_0.args@;
        assert(args[6] == ArgView::Text(decimal_of(threads_for(parallelism))));
        reveal_strlit("");
        reveal_strlit("Xin chào, tiếng Việt. ");
        reveal_strlit(
            "Xin chào, đây là bản ghi âm tiếng Việt. Hãy chuyển đổi chính xác với dấu thanh đầy đủ.",
        );
    }
}

/// A recording of what was said so far is given to the whisper command likewise, with what was said
/// before as its prompt.
pub proof fn whisper_gets_what_was_said_before(
    app_name: &str,
    model_id: &str,
    language: &str,
    prompt: &str,
    parallelism: Option<usize>,
    files: Inventory,
    command: Result<Command, String>,
)
    requires
        call_ensures(transcribe_partial_cli, (app_name, model_id, language, prompt, parallelism, &files), command),
    ensures
        ({
            let model = seq!["models"@, "ggml-"@ + model_id@ + ".bin"@];
            let cli = seq!["bin"@, "whisper-cli.exe"@];
            &&& command is Ok <==> files@.contains(model) && files@.contains(cli)
            &&& match command {
                Ok(run) => {
                    let args = run.args@;
                    let spoken: int = if language@ == "auto"@ {
                        9
                    } else {
                        11
                    };
                    &&& run.program@ == ArgView::Data(cli)
                    &&& args.len() >= spoken + 1
                    &&& args[0] == ArgView::Text("-m"@)
                    &&& args[1] == ArgView::Data(model)
                    &&& args[2] == ArgView::Text("-f"@)
                    &&& args[3] == ArgView::Temp(app_name@ + "-partial.wav"@)
                    &&& args[4] == ArgView::Text("--no-timestamps"@)
                    &&& args[5] == ArgView::Text("--threads"@)
                    &&& exists|threads: nat|
                        2 <= threads <= 8 && args[6] == ArgView::Text(#[trigger] decimal_of(threads))
                    &&& args[7] == ArgView::Text("--split-on-word"@)
                    &&& args[8] == ArgView::Text("--suppress-nst"@)
                    &&& language@ != "auto"@ ==> args[9] == ArgView::Text("-l"@) && args[10]
                        == ArgView::Text(language@)
                    &&& args.last() == ArgView::Text("--no-prints"@)
                    &&& language@ != "vi"@ && prompt@.len() == 0 ==> args.len() == spoken + 1
                    &&& language@ == "vi"@ || prompt@.len() > 0 ==> {
                        &&& args.len() == spoken + 3
                        &&& args[spoken] == ArgView::Text("--prompt"@)
                        &&& args[spoken + 1] == ArgView::Text(
                            if language@ != "vi"@ {
                                prompt@
                            } else if prompt@.len() > 0 {
                                "Xin chào, tiếng Việt. "@ + prompt@
                            } else {
                                "Xin chào, đây là bản ghi âm tiếng Việt. Hãy chuyển đổi chính xác với dấu thanh đầy đủ."@
                            },
                        )
                    }
                },
                Err(e) => e@ == "Model or CLI not ready"@,
            }
        }),
{
    let model = seq!["models"@, "ggml-"@ + model_id@ + ".bin"@];
    assert(model =~= model_file(model_id@));
    if command is Ok {
        let args = command->Ok_0.args@;
        assert(args[6] == ArgView::Text(decimal_of(threads_for(parallelism))));
        reveal_strlit("");
        reveal_strlit("Xin chào, tiếng Việt. ");
        reveal_strlit(
            "Xin chào, đây là bản ghi âm tiếng Việt. Hãy chuyển đổi chính xác với dấu thanh đầy đủ.",
        );
    }
}

/// Whisper gets one thread less than the machine can run, but no fewer than two and no more than
/// eight, and four where that is not known.
pub proof fn one_thread_is_left_over(parallelism: Option<usize>, count: String) -> (threads: nat)
    requires
        call_ensures(whisper_thread_count, (parallelism,), count),
    ensures
        count@ == decimal_of(threads),
        2 <= threads <= 8,
        match parallelism {
            Some(n) => {
                &&& 3 <= n <= 9 ==> threads + 1 == n
                &&& n < 3 ==> threads == 2
                &&& n > 9 ==> threads == 8
            },
            None => threads == 4,
        },
{
    threads_for(parallelism)
}

/// The server is run for the model of that very id, on that very port, and on this machine alone.
pub proof fn whisper_server_gets_model_and_port(
    model_id: &str,
    port: u16,
    parallelism: Option<usize>,
    run: Command,
    count: String,
)
    requires
        call_ensures(whisper_server_command, (model_id, port, parallelism), run),
        call_ensures(whisper_thread_count, (parallelism,), count),
    ensures
        run.program@ == ArgView::Data(seq!["bin"@, "whisper-server.exe"@]),
        run.args@.len() == 12,
        run.args@[0] == ArgView::Text("-m"@),
        run.args@[1] == ArgView::Data(seq!["models"@, "ggml-"@ + model_id@ + ".bin"@]),
        run.args@[2] == ArgView::Text("--host"@),
        run.args@[3] == ArgView::Text("127.0.0.1"@),
        run.args@[4] == ArgView::Text("--port"@),
        run.args@[5] == ArgView::Text(decimal_of(port as nat)),
        run.args@[6] == ArgView::Text("--threads"@),
        run.args@[7] == ArgView::Text(count@),
        run.args@[8] == ArgView::Text("--no-timestamps"@),
        run.args@[9] == ArgView::Text("--split-on-word"@),
        run.args@[10] == ArgView::Text("--suppress-nst"@),
        run.args@[11] == ArgView::Text("--no-language-probabilities"@),
{
    assert(seq!["models"@, "ggml-"@ + model_id@ + ".bin"@] =~= model_file(model_id@));
}

/// A model is ready just where its file and both whisper programs are there.
pub proof fn ready_model_has_three_files(model_id: &str, files: Inventory, ready: bool)
    requires
        call_ensures(is_ready, (model_id, &files), ready),
    ensures
        ready == (files@.contains(seq!["models"@, "ggml-"@ + model_id@ + ".bin"@])
            && files@.contains(seq!["bin"@, "whisper-cli.exe"@]) && files@.contains(
            seq!["bin"@, "whisper-server.exe"@],
        )),
{
    let model = seq!["models"@, "ggml-"@ + model_id@ + ".bin"@];
    assert(model =~= model_file(model_id@));
    let wanted = whisper_files(model_id@);
    assert(wanted.contains(model) && wanted.contains(cli_file()) && wanted.contains(server_file()));
}

/// The server's transcript is taken as it is, and the command tries just where there is none.
pub proof fn command_tries_where_the_server_failed(
    attempt: Result<String, String>,
    step: PartialStep,
)
    requires
        call_ensures(transcribe_partial, (attempt,), step),
    ensures
        match attempt {
            Ok(text) => step matches PartialStep::Done(told) && told@ == text@,
            Err(e) => step matches PartialStep::FallBack(line) && line@ == "[whisper-server] "@ + e@
                + "; falling back to whisper-cli"@,
        },
{
}

/// Before Vietnamese a greeting is told, and what was said before as it is; any other language gets
/// just what was said before. The prompts of two recordings in one language differ where what was
/// said before does.
pub proof fn prompt_is_what_was_said_before(
    language: &str,
    prompt: &str,
    text: String,
    other: &str,
    other_text: String,
)
    requires
        call_ensures(prompt_text, (language, prompt), text),
        call_ensures(prompt_text, (language, other), other_text),
    ensures
        language@ != "vi"@ ==> text@ == prompt@,
        language@ == "vi"@ && prompt@.len() > 0 ==> text@ == "Xin chào, tiếng Việt. "@ + prompt@,
        language@ == "vi"@ && prompt@.len() == 0 ==> text@
            == "Xin chào, đây là bản ghi âm tiếng Việt. Hãy chuyển đổi chính xác với dấu thanh đầy đủ."@,
        prompt@.is_suffix_of(text@),
        prompt@.len() > 0 && other@.len() > 0 && text@ == other_text@ ==> prompt@ == other@,
{
    assert(text@.subrange(text@.len() - prompt@.len(), text@.len() as int) =~= prompt@);
    if prompt@.len() > 0 && other@.len() > 0 && text@ == other_text@ {
        assert(text@.len() - prompt@.len() == other_text@.len() - other@.len());
        assert(other_text@.subrange(other_text@.len() - other@.len(), other_text@.len() as int)
            =~= other@);
    }
}

/// The server is asked whether it is well on its own port.
pub proof fn whisper_server_is_asked_on_its_port(port: u16, url: String)
    requires
        call_ensures(whisper_health_url, (port,), url),
    ensures
        url@ == "http://127.0.0.1:"@ + decimal_of(port as nat) + "/"@,
{
}

/// The whisper command is run on just as many threads as are counted for this machine, on a whole
/// recording as on what was said so far.
pub proof fn whisper_runs_on_the_counted_threads(
    app_name: &str,
    model_id: &str,
    language: &str,
    prompt: &str,
    parallelism: Option<usize>,
    files: Inventory,
    whole: Result<Command, String>,
    partial: Result<Command, String>,
    count: String,
)
    requires
        call_ensures(transcribe_audio, (app_name, model_id, language, parallelism, &files), whole),
        call_ensures(
            transcribe_partial_cli,
            (app_name, model_id, language, prompt, parallelism, &files),
            partial,
        ),
        call_ensures(whisper_thread_count, (parallelism,), count),
    ensures
        whole matches Ok(run) ==> run.args@[5] == ArgView::Text("--threads"@) && run.args@[6]
            == ArgView::Text(count@),
        partial matches Ok(run) ==> run.args@[5] == ArgView::Text("--threads"@) && run.args@[6]
            == ArgView::Text(count@),
{
}

} // verus!
