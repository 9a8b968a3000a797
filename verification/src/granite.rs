//! The Granite speech model, run by a local inference server.

use vstd::prelude::*;
use vstd::string::*;
use crate::download::PROGRESS_DONE;
use crate::paths::{DataPath, Inventory};
use crate::reply::{lossy_text, utf8_lossy, ProgramOutput};
use crate::request::{local_url, local_url_of, Arg, ArgView, Args, Command, Form, Upload};
use crate::settings::{granite_file, granite_model, granite_path};
use crate::text::{decimal, decimal_of};
use crate::transcribe::{add_language, language_fields};

verus! {

/// The directory of the Granite files.
pub fn granite_model_dir() -> (path: DataPath)
    ensures
        path@ == seq!["models"@, "granite-speech"@],
{
    DataPath::of("models", "granite-speech")
}

/// Whether the model is there: its configuration, and its weights in one file or in several.
pub open spec fn granite_usable(files: Set<Seq<Seq<char>>>) -> bool {
    &&& files.contains(granite_file("config.json"@))
    &&& files.contains(granite_file("model.safetensors"@)) || files.contains(
        granite_file("model.safetensors.index.json"@),
    )
}

/// Whether the model is there.
pub fn is_granite_downloaded(files: &Inventory) -> (there: bool)
    ensures
        there == granite_usable(files@),
{
    files.has(&granite_path("config.json")) && (files.has(&granite_path("model.safetensors"))
        || files.has(&granite_path("model.safetensors.index.json")))
}

/// Whether the model and what Python needs for it are there; `python` says the latter.
pub fn is_granite_ready(files: &Inventory, python: bool) -> (ready: bool)
    ensures
        ready == (granite_usable(files@) && python),
{
    python && is_granite_downloaded(files)
}

/// A model that is there is shown as downloaded by the settings page, which looks for the
/// configuration alone.
pub proof fn downloaded_granite_is_shown(files: Set<Seq<Seq<char>>>)
    requires
        granite_usable(files),
    ensures
        files.contains(granite_file("config.json"@)),
{
}

/// Where the script of the server is.
#[derive(Clone, Copy, PartialEq, Eq, Structural)]
pub enum ScriptPlace {
    /// In `scripts` beside the program.
    BesideProgram,
    /// In `scripts` of an ancestor of the program's directory; the directory itself is the first.
    Ancestor(usize),
    /// In `scripts` of the application's directory.
    DataDir,
}

/// How many directories are searched from the program's upward.
pub const SCRIPT_SEARCH_DEPTH: usize = 5;

/// Whether the server's script is taken from here: from beside the program, else from the nearest
/// of the first five ancestors that has it, else from the application's directory.
pub open spec fn script_is_at(place: ScriptPlace, beside: bool, ancestors: Seq<bool>) -> bool {
    match place {
        ScriptPlace::BesideProgram => beside,
        ScriptPlace::Ancestor(i) => {
            &&& !beside
            &&& i < ancestors.len()
            &&& i < SCRIPT_SEARCH_DEPTH
            &&& ancestors[i as int]
            &&& forall|j: int| 0 <= j < i ==> !ancestors[j]
        },
        ScriptPlace::DataDir => {
            &&& !beside
            &&& forall|j: int| 0 <= j < ancestors.len() && j < SCRIPT_SEARCH_DEPTH ==> !ancestors[j]
        },
    }
}

/// Where the server's script is taken from. `beside` says whether it is beside the program, and
/// `ancestors` whether it is under each directory from the program's upward.
pub fn granite_server_script(beside: bool, ancestors: &Vec<bool>) -> (place: ScriptPlace)
    ensures
        script_is_at(place, beside, ancestors@),
{
    if beside {
        return ScriptPlace::BesideProgram;
    }
    let mut i: usize = 0;
    while i < ancestors.len() && i < SCRIPT_SEARCH_DEPTH
        invariant
            i <= ancestors@.len(),
            !beside,
            forall|j: int| 0 <= j < i ==> !ancestors@[j],
        decreases ancestors@.len() - i,
    {
        if ancestors[i] {
            return ScriptPlace::Ancestor(i);
        }
        i = i + 1;
    }
    ScriptPlace::DataDir
}

/// There is just one place that the script is taken from.
pub proof fn script_place_is_unique(
    a: ScriptPlace,
    b: ScriptPlace,
    beside: bool,
    ancestors: Seq<bool>,
)
    requires
        script_is_at(a, beside, ancestors),
        script_is_at(b, beside, ancestors),
    ensures
        a == b,
{
    if let ScriptPlace::Ancestor(i) = a {
        if let ScriptPlace::Ancestor(j) = b {
            if i < j {
                assert(!ancestors[i as int]);
            } else if j < i {
                assert(!ancestors[j as int]);
            }
        }
    }
}

/// The run of `huggingface-cli` that downloads the model; none where it is there.
pub fn download_granite(files: &Inventory) -> (command: Option<Command>)
    ensures
        match command {
            Some(run) => {
                &&& !granite_usable(files@)
                &&& run.program@ == ArgView::Text("huggingface-cli"@)
                &&& run.args@ == seq![
                    ArgView::Text("download"@),
                    ArgView::Text("ibm-granite/granite-4.0-1b-speech"@),
                    ArgView::Text("--local-dir"@),
                    ArgView::Data(seq!["models"@, "granite-speech"@]),
                ]
            },
            None => granite_usable(files@),
        },
{
    if is_granite_downloaded(files) {
        return None;
    }
    let info = granite_model();
    let mut args = Args::new();
    args.text("download");
    args.text(info.model_id.as_str());
    args.text("--local-dir");
    args.data(granite_model_dir());
    assert(args@ =~= seq![
        ArgView::Text("download"@),
        ArgView::Text("ibm-granite/granite-4.0-1b-speech"@),
        ArgView::Text("--local-dir"@),
        ArgView::Data(seq!["models"@, "granite-speech"@]),
    ]);
    Some(Command { program: Arg::Text("huggingface-cli".to_string()), args })
}

/// Where the bar is put for the download of the model: if it is fetched, twice on the way to the run,
/// and last at the end, once it is there.
pub fn granite_marks(command: &Option<Command>) -> (marks: (Vec<u32>, u32))
    ensures
        marks.0@ == if command is Some {
            seq![5u32, 10]
        } else {
            Seq::empty()
        },
        marks.1 == PROGRESS_DONE,
{
    let mut first: Vec<u32> = Vec::new();
    if command.is_some() {
        first.push(5);
        first.push(10);
    }
    assert(first@ =~= if command is Some {
        seq![5u32, 10]
    } else {
        Seq::empty()
    });
    (first, PROGRESS_DONE)
}

/// How the download by `huggingface-cli` ended.
pub fn granite_download_result(output: &ProgramOutput) -> (result: Result<(), String>)
    ensures
        output.success ==> result is Ok,
        !output.success ==> result is Err && result->Err_0@
            == "huggingface-cli download failed: "@ + utf8_lossy(output.stderr@)
            + ". Install with: pip install huggingface_hub"@,
{
    if output.success {
        return Ok(());
    }
    let stderr = lossy_text(output.stderr.as_slice());
    Err(
        "huggingface-cli download failed: ".to_string().concat(stderr.as_str()).concat(
            ". Install with: pip install huggingface_hub",
        ),
    )
}

/// What is said when `huggingface-cli` could not be run.
pub fn granite_download_failed(detail: &str) -> (message: String)
    ensures
        message@
            == "Failed to run huggingface-cli. Make sure it's installed (pip install huggingface_hub): "@
            + detail@,
{
    "Failed to run huggingface-cli. Make sure it's installed (pip install huggingface_hub): ".to_string().concat(
        detail,
    )
}

/// The address at which the server is asked whether it can be used.
pub fn granite_health_url(port: u16) -> (url: String)
    ensures
        url@ == local_url_of(port, "/health"@),
{
    local_url(port, "/health")
}

/// The address at which the server is told to stop.
pub fn stop_granite_server(port: u16) -> (url: String)
    ensures
        url@ == local_url_of(port, "/shutdown"@),
{
    local_url(port, "/shutdown")
}

/// What the server is asked about a recording, where the model is there.
pub fn transcribe_granite(files: &Inventory, port: u16, language: &str) -> (upload: Result<
    Upload,
    String,
>)
    ensures
        match upload {
            Ok(ask) => {
                &&& granite_usable(files@)
                &&& ask.url@ == local_url_of(port, "/transcribe"@)
                &&& ask.authorization is None
                &&& ask.form@ == language_fields(language@)
            },
            Err(e) => !granite_usable(files@) && e@ == "Granite model not downloaded yet"@,
        },
{
    if !is_granite_downloaded(files) {
        return Err("Granite model not downloaded yet".to_string());
    }
    let mut form = Form::new();
    add_language(&mut form, language);
    assert(form@ =~= language_fields(language@));
    Ok(Upload { url: local_url(port, "/transcribe"), authorization: None, form })
}

/// The arguments with which the server is spawned; `script` is the path of its script.
pub open spec fn granite_args(script: Seq<char>, port: u16) -> Seq<ArgView> {
    seq![
        ArgView::Text(script),
        ArgView::Text("--model-dir"@),
        ArgView::Data(seq!["models"@, "granite-speech"@]),
        ArgView::Text("--port"@),
        ArgView::Text(decimal_of(port as nat)),
    ]
}

/// The run of the server; `script` is the path of its script.
pub fn granite_server_command(script: &str, port: u16) -> (command: Command)
    ensures
        command.program@ == ArgView::Text("python"@),
        command.args@ == granite_args(script@, port),
{
    let mut args = Args::new();
    args.text(script);
    args.text("--model-dir");
    args.data(granite_model_dir());
    args.text("--port");
    args.text(decimal(port as u64).as_str());
    assert(args@ =~= granite_args(script@, port));
    Command { program: Arg::Text("python".to_string()), args }
}

/// How many checks a spawned server gets, half a second apart, before it is given up.
pub const GRANITE_STARTUP_CHECKS: u32 = 240;

/// Why the server could not be started.
pub enum GraniteStartError {
    /// The model is not there.
    NotDownloaded,
    /// The script is not there, where it was looked for.
    NoScript(String),
    /// The process could not be spawned.
    Spawn(String),
    /// The process never became ready.
    NeverReady,
}

impl GraniteStartError {
    /// What the user is told.
    pub open spec fn text(self) -> Seq<char> {
        match self {
            GraniteStartError::NotDownloaded => "Granite model not downloaded yet"@,
            GraniteStartError::NoScript(place) => "Granite server script not found at "@ + place@
                + ". Please ensure granite_server.py is available."@,
            GraniteStartError::Spawn(e) => "Failed to start Granite server: "@ + e@
                + ". Make sure Python is installed."@,
            GraniteStartError::NeverReady => "Granite server failed to start within 120 seconds"@,
        }
    }

    /// What the user is told.
    pub fn message(&self) -> (m: String)
        ensures
            m@ == self.text(),
    {
        match self {
            GraniteStartError::NotDownloaded => "Granite model not downloaded yet".to_string(),
            GraniteStartError::NoScript(place) => "Granite server script not found at ".to_string().concat(
                place.as_str(),
            ).concat(". Please ensure granite_server.py is available."),
            GraniteStartError::Spawn(e) => "Failed to start Granite server: ".to_string().concat(
                e.as_str(),
            ).concat(". Make sure Python is installed."),
            GraniteStartError::NeverReady => "Granite server failed to start within 120 seconds".to_string(),
        }
    }
}

/// What a start of the server is waiting for.
#[derive(Clone, Copy)]
pub enum GraniteStage {
    /// Whether a server runs already.
    Opening,
    /// Which files are there.
    Locating,
    /// The process.
    Spawning,
    /// The end of a pause, after `checks` checks in vain.
    Pausing { checks: u32 },
    /// Whether the server can be used now.
    Waiting { checks: u32 },
    /// Nothing more.
    Finished,
}

/// What a piece of outside work brought.
pub enum GraniteEvent {
    /// Whether the server runs and can be used.
    Running(bool),
    /// Whether the model is there; whether the script is where it is taken from; whether it is in
    /// the application's directory; and the first of these places, to name it.
    Files { model: bool, script: bool, script_in_data_dir: bool, place: String },
    /// The process was spawned.
    Spawned,
    /// The process could not be spawned.
    NotSpawned(String),
    /// The pause is over.
    Rested,
}

/// The next piece of outside work.
pub enum GraniteAction {
    /// See whether the server runs and can be used.
    CheckHealth,
    /// See which files are there.
    FindFiles,
    /// Spawn the server.
    Spawn,
    /// Pause for half a second.
    Rest,
    /// The start is over.
    Done(Result<(), GraniteStartError>),
}

/// Whether a start in `stage` can make use of `event`.
pub open spec fn granite_awaited(stage: GraniteStage, event: GraniteEvent) -> bool {
    match stage {
        GraniteStage::Opening => event is Running,
        GraniteStage::Locating => event is Files,
        GraniteStage::Spawning => event is Spawned || event is NotSpawned,
        GraniteStage::Pausing { checks } => event is Rested && checks < GRANITE_STARTUP_CHECKS,
        GraniteStage::Waiting { checks } => event is Running && checks < GRANITE_STARTUP_CHECKS,
        GraniteStage::Finished => false,
    }
}

/// Where an awaited event leads: what the start waits for next, and what is asked for.
pub open spec fn granite_step_of(stage: GraniteStage, event: GraniteEvent) -> (
    GraniteStage,
    GraniteAction,
) {
    match (stage, event) {
        (GraniteStage::Opening, GraniteEvent::Running(running)) => if running {
            (GraniteStage::Finished, GraniteAction::Done(Ok(())))
        } else {
            (GraniteStage::Locating, GraniteAction::FindFiles)
        },
        (
            GraniteStage::Locating,
            GraniteEvent::Files { model, script, script_in_data_dir, place },
        ) => if !model {
            (
                GraniteStage::Finished,
                GraniteAction::Done(Err(GraniteStartError::NotDownloaded)),
            )
        } else if !script && !script_in_data_dir {
            (
                GraniteStage::Finished,
                GraniteAction::Done(Err(GraniteStartError::NoScript(place))),
            )
        } else {
            (GraniteStage::Spawning, GraniteAction::Spawn)
        },
        (GraniteStage::Spawning, GraniteEvent::NotSpawned(detail)) => (
            GraniteStage::Finished,
            GraniteAction::Done(Err(GraniteStartError::Spawn(detail))),
        ),
        (GraniteStage::Spawning, _) => (GraniteStage::Pausing { checks: 0 }, GraniteAction::Rest),
        (GraniteStage::Pausing { checks }, _) => (
            GraniteStage::Waiting { checks },
            GraniteAction::CheckHealth,
        ),
        (GraniteStage::Waiting { checks }, GraniteEvent::Running(running)) => if running {
            (GraniteStage::Finished, GraniteAction::Done(Ok(())))
        } else if checks + 1 < GRANITE_STARTUP_CHECKS {
            (GraniteStage::Pausing { checks: (checks + 1) as u32 }, GraniteAction::Rest)
        } else {
            (GraniteStage::Finished, GraniteAction::Done(Err(GraniteStartError::NeverReady)))
        },
        // No other pair is awaited.
        _ => (GraniteStage::Finished, GraniteAction::Done(Err(GraniteStartError::NeverReady))),
    }
}

/// What goes to the log with a step: every fifth second of waiting, how long it has been.
pub open spec fn granite_log_of(stage: GraniteStage, event: GraniteEvent) -> Option<Seq<char>> {
    match (stage, event) {
        (GraniteStage::Waiting { checks }, GraniteEvent::Running(running)) => if !running && checks
            > 0 && checks % 10 == 0 {
            Some(
                "[granite] Waiting for server... ("@ + decimal_of((checks / 2) as nat) + "s)"@,
            )
        } else {
            None
        },
        _ => None,
    }
}

/// One start of the Granite server.
pub struct GraniteStart {
    /// What the start is waiting for.
    pub stage: GraniteStage,
}

/// What [`GraniteStart::step`] asks for.
pub struct GraniteStep {
    /// A line for the log.
    pub log: Option<String>,
    /// What to do then.
    pub action: GraniteAction,
}

/// A start of the server. It first wants to know whether a server runs already.
pub fn start_granite_server() -> (start: GraniteStart)
    ensures
        start.stage == GraniteStage::Opening,
{
    GraniteStart { stage: GraniteStage::Opening }
}

impl GraniteStart {
    /// Whether the start can make use of `event` now.
    pub fn awaits(&self, event: &GraniteEvent) -> (yes: bool)
        ensures
            yes == granite_awaited(self.stage, *event),
    {
        match (self.stage, event) {
            (GraniteStage::Opening, GraniteEvent::Running(_)) => true,
            (GraniteStage::Locating, GraniteEvent::Files { .. }) => true,
            (GraniteStage::Spawning, GraniteEvent::Spawned) => true,
            (GraniteStage::Spawning, GraniteEvent::NotSpawned(_)) => true,
            (GraniteStage::Pausing { checks }, GraniteEvent::Rested) => checks
                < GRANITE_STARTUP_CHECKS,
            (GraniteStage::Waiting { checks }, GraniteEvent::Running(_)) => checks
                < GRANITE_STARTUP_CHECKS,
            _ => false,
        }
    }

    /// Takes what the last piece of work brought and says what is next.
    pub fn step(&mut self, event: GraniteEvent) -> (step: GraniteStep)
        requires
            granite_awaited(old(self).stage, event),
        ensures
            (final(self).stage, step.action) == granite_step_of(old(self).stage, event),
            match granite_log_of(old(self).stage, event) {
                Some(line) => step.log is Some && step.log->0@ == line,
                None => step.log is None,
            },
    {
        let mut log: Option<String> = None;
        let (stage, action) = match (self.stage, event) {
            (GraniteStage::Opening, GraniteEvent::Running(running)) => if running {
                (GraniteStage::Finished, GraniteAction::Done(Ok(())))
            } else {
                (GraniteStage::Locating, GraniteAction::FindFiles)
            },
            (
                GraniteStage::Locating,
                GraniteEvent::Files { model, script, script_in_data_dir, place },
            ) => if !model {
                (
                    GraniteStage::Finished,
                    GraniteAction::Done(Err(GraniteStartError::NotDownloaded)),
                )
            } else if !script && !script_in_data_dir {
                (
                    GraniteStage::Finished,
                    GraniteAction::Done(Err(GraniteStartError::NoScript(place))),
                )
            } else {
                (GraniteStage::Spawning, GraniteAction::Spawn)
            },
            (GraniteStage::Spawning, GraniteEvent::NotSpawned(detail)) => (
                GraniteStage::Finished,
                GraniteAction::Done(Err(GraniteStartError::Spawn(detail))),
            ),
            (GraniteStage::Spawning, _) => (
                GraniteStage::Pausing { checks: 0 },
                GraniteAction::Rest,
            ),
            (GraniteStage::Pausing { checks }, _) => (
                GraniteStage::Waiting { checks },
                GraniteAction::CheckHealth,
            ),
            (GraniteStage::Waiting { checks }, GraniteEvent::Running(running)) => if running {
                (GraniteStage::Finished, GraniteAction::Done(Ok(())))
            } else {
                if checks > 0 && checks % 10 == 0 {
                    log = Some(
                        "[granite] Waiting for server... (".to_string().concat(
                            decimal((checks / 2) as u64).as_str(),
                        ).concat("s)"),
                    );
                }
                if checks + 1 < GRANITE_STARTUP_CHECKS {
                    (GraniteStage::Pausing { checks: checks + 1 }, GraniteAction::Rest)
                } else {
                    (
                        GraniteStage::Finished,
                        GraniteAction::Done(Err(GraniteStartError::NeverReady)),
                    )
                }
            },
            // No other pair is awaited.
            _ => (
                GraniteStage::Finished,
                GraniteAction::Done(Err(GraniteStartError::NeverReady)),
            ),
        };
        self.stage = stage;
        GraniteStep { log, action }
    }
}

/// How many steps a start of the Granite server has left at most.
pub open spec fn granite_steps_left(stage: GraniteStage) -> nat {
    match stage {
        GraniteStage::Opening => (2 * GRANITE_STARTUP_CHECKS + 3) as nat,
        GraniteStage::Locating => (2 * GRANITE_STARTUP_CHECKS + 2) as nat,
        GraniteStage::Spawning => (2 * GRANITE_STARTUP_CHECKS + 1) as nat,
        GraniteStage::Pausing { checks } => if checks < GRANITE_STARTUP_CHECKS {
            (2 * (GRANITE_STARTUP_CHECKS - checks)) as nat
        } else {
            0
        },
        GraniteStage::Waiting { checks } => if checks < GRANITE_STARTUP_CHECKS {
            (2 * (GRANITE_STARTUP_CHECKS - checks) - 1) as nat
        } else {
            0
        },
        GraniteStage::Finished => 0,
    }
}

/// Every start of the Granite server ends, and it succeeds only when a check found the server
/// ready.
pub proof fn every_granite_start_ends(stage: GraniteStage, event: GraniteEvent)
    requires
        granite_awaited(stage, event),
    ensures
        ({
            let (next, action) = granite_step_of(stage, event);
            &&& granite_steps_left(next) < granite_steps_left(stage)
            &&& action is Done <==> next is Finished
            &&& action == GraniteAction::Done(Ok(())) <==> event == GraniteEvent::Running(true)
        }),
{
}

/// The model is there just where its configuration is and its weights are, in one file or several,
/// and it is ready just where Python has what it needs as well.
pub proof fn granite_needs_configuration_and_weights(
    files: Inventory,
    python: bool,
    there: bool,
    ready: bool,
)
    requires
        call_ensures(is_granite_downloaded, (&files,), there),
        call_ensures(is_granite_ready, (&files, python), ready),
    ensures
        there == (files@.contains(seq!["models"@, "granite-speech"@, "config.json"@]) && (
        files@.contains(seq!["models"@, "granite-speech"@, "model.safetensors"@])
            || files@.contains(
            seq!["models"@, "granite-speech"@, "model.safetensors.index.json"@],
        ))),
        ready == (there && python),
{
}

/// The script is taken from beside the program wherever it is there; else from the nearest of the
/// five directories that has it; else from the application's directory.
pub proof fn nearest_script_is_taken(beside: bool, ancestors: Vec<bool>, place: ScriptPlace)
    requires
        call_ensures(granite_server_script, (beside, &ancestors), place),
    ensures
        beside <==> place == ScriptPlace::BesideProgram,
        place matches ScriptPlace::Ancestor(i) ==> i < 5 && i < ancestors@.len()
            && ancestors@[i as int] && forall|j: int| 0 <= j < i ==> !ancestors@[j],
        place == ScriptPlace::DataDir ==> forall|j: int|
            0 <= j < ancestors@.len() && j < 5 ==> !ancestors@[j],
{
}

/// The model is fetched just where it is not there, into its own directory.
pub proof fn missing_granite_is_fetched(files: Inventory, there: bool, command: Option<Command>)
    requires
        call_ensures(is_granite_downloaded, (&files,), there),
        call_ensures(download_granite, (&files,), command),
    ensures
        command is None <==> there,
        command matches Some(run) ==> {
            &&& run.program@ == ArgView::Text("huggingface-cli"@)
            &&& run.args@.len() == 4
            &&& run.args@[0] == ArgView::Text("download"@)
            &&& run.args@[1] == ArgView::Text("ibm-granite/granite-4.0-1b-speech"@)
            &&& run.args@[2] == ArgView::Text("--local-dir"@)
            &&& run.args@[3] == ArgView::Data(seq!["models"@, "granite-speech"@])
        },
{
}

/// A recording is sent to the server on its own port where the model is there, with the language as
/// it is, unless the server is to find out.
pub proof fn granite_is_told_the_language(
    files: Inventory,
    port: u16,
    language: &str,
    there: bool,
    upload: Result<Upload, String>,
)
    requires
        call_ensures(is_granite_downloaded, (&files,), there),
        call_ensures(transcribe_granite, (&files, port, language), upload),
    ensures
        upload is Ok <==> there,
        upload matches Err(e) ==> e@ == "Granite model not downloaded yet"@,
        upload matches Ok(ask) ==> {
            &&& ask.url@ == "http://127.0.0.1:"@ + decimal_of(port as nat) + "/transcribe"@
            &&& ask.authorization is None
            &&& language@ == "auto"@ ==> ask.form@.len() == 0
            &&& language@ != "auto"@ ==> ask.form@ == seq![("language"@, language@)]
        },
{
}

/// The server is run from its script, for the model's directory, and on that very port, and is asked
/// and stopped there.
pub proof fn granite_server_gets_script_and_port(
    script: &str,
    port: u16,
    run: Command,
    health: String,
    stop: String,
)
    requires
        call_ensures(granite_server_command, (script, port), run),
        call_ensures(granite_health_url, (port,), health),
        call_ensures(stop_granite_server, (port,), stop),
    ensures
        run.program@ == ArgView::Text("python"@),
        run.args@.len() == 5,
        run.args@[0] == ArgView::Text(script@),
        run.args@[1] == ArgView::Text("--model-dir"@),
        run.args@[2] == ArgView::Data(seq!["models"@, "granite-speech"@]),
        run.args@[3] == ArgView::Text("--port"@),
        run.args@[4] == ArgView::Text(decimal_of(port as nat)),
        health@ == "http://127.0.0.1:"@ + decimal_of(port as nat) + "/health"@,
        stop@ == "http://127.0.0.1:"@ + decimal_of(port as nat) + "/shutdown"@,
{
}

/// A server that runs is left alone; else it is spawned where the model is there and the script is in
/// one of its two places. What is missing is told.
pub proof fn granite_is_started_where_it_can_be(
    model: bool,
    script: bool,
    script_in_data_dir: bool,
    place: String,
    detail: String,
)
    ensures
        granite_step_of(GraniteStage::Opening, GraniteEvent::Running(true)).1
            == GraniteAction::Done(Ok(())),
        granite_step_of(GraniteStage::Opening, GraniteEvent::Running(false)) == (
            GraniteStage::Locating,
            GraniteAction::FindFiles,
        ),
        ({
            let (next, action) = granite_step_of(
                GraniteStage::Locating,
                GraniteEvent::Files { model, script, script_in_data_dir, place },
            );
            &&& !model ==> action == GraniteAction::Done(Err(GraniteStartError::NotDownloaded))
            &&& model && !script && !script_in_data_dir ==> action == GraniteAction::Done(
                Err(GraniteStartError::NoScript(place)),
            )
            &&& model && (script || script_in_data_dir) ==> action == GraniteAction::Spawn && next
                == GraniteStage::Spawning
        }),
        granite_step_of(GraniteStage::Spawning, GraniteEvent::NotSpawned(detail)).1
            == GraniteAction::Done(Err(GraniteStartError::Spawn(detail))),
        granite_step_of(GraniteStage::Spawning, GraniteEvent::Spawned) == (
            GraniteStage::Pausing { checks: 0 },
            GraniteAction::Rest,
        ),
{
}

/// Two hundred and forty checks are made, each behind a pause, and no more: the first that finds the
/// server ready ends the start, and the last in vain gives it up. Every tenth is logged with the
/// seconds that have passed.
pub proof fn granite_is_waited_for(checks: u32)
    requires
        checks < 240,
    ensures
        granite_step_of(GraniteStage::Pausing { checks }, GraniteEvent::Rested) == (
            GraniteStage::Waiting { checks },
            GraniteAction::CheckHealth,
        ),
        granite_step_of(GraniteStage::Waiting { checks }, GraniteEvent::Running(true)).1
            == GraniteAction::Done(Ok(())),
        checks < 239 ==> granite_step_of(
            GraniteStage::Waiting { checks },
            GraniteEvent::Running(false),
        ) == (GraniteStage::Pausing { checks: (checks + 1) as u32 }, GraniteAction::Rest),
        checks == 239 ==> granite_step_of(
            GraniteStage::Waiting { checks },
            GraniteEvent::Running(false),
        ).1 == GraniteAction::Done(Err(GraniteStartError::NeverReady)),
        granite_log_of(GraniteStage::Waiting { checks }, GraniteEvent::Running(true)) is None,
        checks > 0 && checks % 10 == 0 ==> granite_log_of(
            GraniteStage::Waiting { checks },
            GraniteEvent::Running(false),
        ) == Some("[granite] Waiting for server... ("@ + decimal_of((checks / 2) as nat) + "s)"@),
        checks == 0 || checks % 10 != 0 ==> granite_log_of(
            GraniteStage::Waiting { checks },
            GraniteEvent::Running(false),
        ) is None,
{
}

/// Why the server could not be started, or the model not be fetched, is told whole.
pub proof fn granite_errors_tell_the_reason(
    e: String,
    output: ProgramOutput,
    result: Result<(), String>,
)
    requires
        call_ensures(granite_download_result, (&output,), result),
    ensures
        GraniteStartError::NoScript(e).text() == "Granite server script not found at "@ + e@
            + ". Please ensure granite_server.py is available."@,
        GraniteStartError::Spawn(e).text() == "Failed to start Granite server: "@ + e@
            + ". Make sure Python is installed."@,
        result is Ok <==> output.success,
        result matches Err(told) ==> told@ == "huggingface-cli download failed: "@ + utf8_lossy(
            output.stderr@,
        ) + ". Install with: pip install huggingface_hub"@,
{
}

/// Whichever outcome the asked-for work has, the start can make use of it.
pub proof fn every_granite_outcome_is_awaited(
    stage: GraniteStage,
    event: GraniteEvent,
    yes: bool,
    script: bool,
    script_in_data_dir: bool,
    detail: String,
)
    requires
        granite_awaited(stage, event),
    ensures
        granite_awaited(GraniteStage::Opening, GraniteEvent::Running(yes)),
        ({
            let (next, action) = granite_step_of(stage, event);
            match action {
                GraniteAction::CheckHealth => granite_awaited(next, GraniteEvent::Running(yes)),
                GraniteAction::FindFiles => granite_awaited(
                    next,
                    GraniteEvent::Files { model: yes, script, script_in_data_dir, place: detail },
                ),
                GraniteAction::Spawn => granite_awaited(next, GraniteEvent::Spawned)
                    && granite_awaited(next, GraniteEvent::NotSpawned(detail)),
                GraniteAction::Rest => granite_awaited(next, GraniteEvent::Rested),
                GraniteAction::Done(_) => next is Finished,
            }
        }),
{
}

/// What kept `huggingface-cli` from being run is told whole.
pub proof fn unrun_granite_download_is_told(detail: &str, message: String)
    requires
        call_ensures(granite_download_failed, (detail,), message),
    ensures
        message@
            == "Failed to run huggingface-cli. Make sure it's installed (pip install huggingface_hub): "@
            + detail@,
{
}

/// The bar stands at its end once the model is there, and moves only forward before that.
pub proof fn granite_progress_moves_forward(command: Option<Command>, marks: (Vec<u32>, u32))
    requires
        call_ensures(granite_marks, (&command,), marks),
    ensures
        marks.1 == 100,
        command is None <==> marks.0@.len() == 0,
        command is Some ==> marks.0@.len() == 2 && marks.0@[0] == 5 && marks.0@[1] == 10,
{
}

} // verus!
