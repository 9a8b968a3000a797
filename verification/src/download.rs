//! Downloads: what is fetched, which part of the progress bar each transfer owns, and the steps by
//! which a file comes to stand in its place whole or not at all.
//!
//! A transfer waits on outside work (a request, the next chunk, a write). It is therefore a
//! machine: [`FileDownload::step`] takes what the last piece of work brought and says which one is
//! next, until it is done.

use vstd::prelude::*;
use vstd::string::*;
use crate::paths::{DataPath, Inventory};
use crate::settings::{
    find_model, is_known, model_file, model_filename, models, zipformer_base, zipformer_file,
    zipformer_model, zipformer_path, ModelView,
};
use crate::transcribe::{cli_file, cli_path, model_path, server_file, server_path, whisper_files};
use crate::zipformer::{
    is_token_list, is_zipformer_ready, sherpa_cli_path, sherpa_file, valid_zipformer_tokens,
    zipformer_usable,
};

verus! {

/// Where the archive with the whisper programs is.
pub const WHISPER_CLI_ZIP_URL: &'static str = "https://github.com/ggml-org/whisper.cpp/releases/download/v1.8.3/whisper-bin-x64.zip";

/// Where the package with the sherpa-onnx programs is.
pub const SHERPA_ONNX_PACKAGE_URL: &'static str = "https://github.com/k2-fsa/sherpa-onnx/releases/download/v1.12.29/sherpa-onnx-v1.12.29-win-x64-shared-MD-Release-no-tts.tar.bz2";

/// The slice of the overall progress bar that a single transfer owns, in percent.
#[derive(Clone, Copy, PartialEq, Eq, Structural)]
pub struct ProgressRange {
    pub start: u32,
    pub end: u32,
}

impl ProgressRange {
    /// The whole bar.
    pub open spec fn whole() -> Self {
        ProgressRange { start: 0, end: 100 }
    }

    /// Whether this is a slice of the bar.
    pub open spec fn valid(self) -> bool {
        self.start <= self.end <= 100
    }

    /// The slice from `start` to `end`.
    pub fn new(start: u32, end: u32) -> (range: Self)
        ensures
            range == (ProgressRange { start, end }),
    {
        ProgressRange { start, end }
    }

    /// The whole bar.
    pub fn full() -> (range: Self)
        ensures
            range == ProgressRange::whole(),
    {
        ProgressRange { start: 0, end: 100 }
    }
}

/// Where the bar stands once a download is over, in percent.
pub const PROGRESS_DONE: u32 = 100;

/// Something to fetch.
pub struct Transfer {
    pub url: String,
    /// What it is called in errors.
    pub label: String,
    pub range: ProgressRange,
}

/// What is to be fetched so that a whisper model can be used.
pub struct ModelDownload {
    /// The model, with the place for it.
    pub model: Option<(Transfer, DataPath)>,
    /// The archive with the whisper programs.
    pub binaries: Option<Transfer>,
}

/// The slice for the model, and the slice for the programs: the model dwarfs them, so it owns almost
/// the whole bar where both are fetched.
pub open spec fn model_ranges(needs_model: bool, needs_binaries: bool) -> (
    ProgressRange,
    ProgressRange,
) {
    if needs_model && needs_binaries {
        (ProgressRange { start: 0, end: 92 }, ProgressRange { start: 92, end: 100 })
    } else {
        (ProgressRange::whole(), ProgressRange::whole())
    }
}

/// Whether a plan fetches just what is missing of the files of a whisper model.
pub open spec fn fetches_model(
    plan: ModelDownload,
    model_id: Seq<char>,
    files: Set<Seq<Seq<char>>>,
) -> bool {
    let needs_model = !files.contains(model_file(model_id));
    let needs_binaries = !files.contains(cli_file()) || !files.contains(server_file());
    let ranges = model_ranges(needs_model, needs_binaries);
    &&& match plan.model {
        Some((transfer, place)) => {
            &&& needs_model
            &&& transfer.url@ == "https://huggingface.co/ggerganov/whisper.cpp/resolve/main/"@
                + model_filename(model_id)
            &&& transfer.label@ == "model"@
            &&& transfer.range == ranges.0
            &&& place@ == model_file(model_id)
        },
        None => !needs_model,
    }
    &&& match plan.binaries {
        Some(transfer) => {
            &&& needs_binaries
            &&& transfer.url@ == WHISPER_CLI_ZIP_URL@
            &&& transfer.label@ == "whisper-cli"@
            &&& transfer.range == ranges.1
        },
        None => !needs_binaries,
    }
}

/// The address of a model that can be chosen.
proof fn known_model_url(info: ModelView)
    requires
        models().contains(info),
    ensures
        info.url == "https://huggingface.co/ggerganov/whisper.cpp/resolve/main/"@ + model_filename(
            info.id,
        ),
{
}

/// What is to be fetched so that the model `model_id` can be used: what is missing of the model and
/// of the programs. An unknown model is an error.
pub fn download_model(model_id: &str, files: &Inventory) -> (plan: Result<ModelDownload, String>)
    ensures
        match plan {
            Ok(p) => is_known(model_id@) && fetches_model(p, model_id@, files@),
            Err(e) => !is_known(model_id@) && e@ == "Unknown model: "@ + model_id@,
        },
{
    let info = match find_model(model_id) {
        Some(info) => info,
        None => {
            return Err("Unknown model: ".to_string().concat(model_id));
        },
    };
    proof {
        known_model_url(info@);
    }
    let place = model_path(model_id);
    let needs_model = !files.has(&place);
    let needs_binaries = !files.has(&cli_path()) || !files.has(&server_path());
    let (model_range, binaries_range) = if needs_model && needs_binaries {
        (ProgressRange::new(0, 92), ProgressRange::new(92, 100))
    } else {
        (ProgressRange::full(), ProgressRange::full())
    };
    let model = if needs_model {
        let transfer = Transfer { url: info.url, label: "model".to_string(), range: model_range };
        Some((transfer, place))
    } else {
        None
    };
    let binaries = if needs_binaries {
        Some(
            Transfer {
                url: WHISPER_CLI_ZIP_URL.to_string(),
                label: "whisper-cli".to_string(),
                range: binaries_range,
            },
        )
    } else {
        None
    };
    Ok(ModelDownload { model, binaries })
}

/// Where the bar is put for the download of a model: first at nothing, if something is fetched, and
/// last at the end, once all is in its place.
pub fn model_marks(plan: &ModelDownload) -> (marks: (Option<u32>, u32))
    ensures
        marks == if plan.model is Some || plan.binaries is Some {
            (Some(0u32), PROGRESS_DONE)
        } else {
            (None, PROGRESS_DONE)
        },
{
    if plan.model.is_some() || plan.binaries.is_some() {
        (Some(0), PROGRESS_DONE)
    } else {
        (None, PROGRESS_DONE)
    }
}

/// Once all that a plan fetches is in its place, and the programs with it where they are fetched,
/// the model is ready. Where it is ready already, nothing is fetched.
pub proof fn fetched_model_is_ready(
    plan: ModelDownload,
    model_id: Seq<char>,
    before: Set<Seq<Seq<char>>>,
    after: Set<Seq<Seq<char>>>,
)
    requires
        fetches_model(plan, model_id, before),
        before.subset_of(after),
        plan.model matches Some((_, place)) ==> after.contains(place@),
        plan.binaries is Some ==> after.contains(cli_file()) && after.contains(server_file()),
    ensures
        whisper_files(model_id).subset_of(after),
        whisper_files(model_id).subset_of(before) <==> plan.model is None && plan.binaries is None,
{
    let wanted = whisper_files(model_id);
    assert(wanted.contains(model_file(model_id)) && wanted.contains(cli_file()) && wanted.contains(
        server_file(),
    ));
}

/// While a model and the programs are fetched, the bar only ever moves forward, from end to end.
pub proof fn model_progress_moves_forward(needs_model: bool, needs_binaries: bool)
    ensures
        ({
            let (first, second) = model_ranges(needs_model, needs_binaries);
            &&& first.valid() && second.valid()
            &&& first.end <= PROGRESS_DONE && second.end <= PROGRESS_DONE
            &&& needs_model ==> first.start == 0
            &&& needs_model && needs_binaries ==> first.end == second.start && second.end == 100
            &&& needs_model && !needs_binaries ==> first == ProgressRange::whole()
            &&& !needs_model && needs_binaries ==> second == ProgressRange::whole()
        }),
{
}

/// A Zipformer file, and whether it is to be fetched.
pub struct ZipformerTransfer {
    /// What is fetched; the label is the name of the file.
    pub transfer: Transfer,
    pub needed: bool,
}

/// What is to be fetched so that the Zipformer model can be used.
pub struct ZipformerDownload {
    /// The files of the model, in order.
    pub files: Vec<ZipformerTransfer>,
    /// The package with the sherpa-onnx programs.
    pub package: Option<Transfer>,
}

/// The names of the Zipformer files, in the order in which they are fetched.
pub open spec fn zipformer_names() -> Seq<Seq<char>> {
    seq!["encoder.int8.onnx"@, "decoder.int8.onnx"@, "joiner.int8.onnx"@, "tokens.txt"@]
}

/// Where these files are fetched from.
pub open spec fn zipformer_urls() -> Seq<Seq<char>> {
    seq![
        zipformer_base() + "/encoder-epoch-20-avg-10.int8.onnx"@,
        zipformer_base() + "/decoder-epoch-20-avg-10.int8.onnx"@,
        zipformer_base() + "/joiner-epoch-20-avg-10.int8.onnx"@,
        zipformer_base() + "/config.json"@,
    ]
}

/// The slice of the bar for each step of the download: the four files, and then the package.
pub open spec fn zipformer_range(step: int) -> ProgressRange {
    ProgressRange { start: (20 * step) as u32, end: (20 * (step + 1)) as u32 }
}

/// The slice of the bar for the transfer of the package; the rest of that step is for unpacking it.
pub open spec fn package_range() -> ProgressRange {
    ProgressRange { start: zipformer_range(4).start, end: 96 }
}

/// Whether a Zipformer file is to be fetched: where it is not there, and where the tokens file holds
/// no list of tokens.
pub open spec fn zipformer_needs(
    name: Seq<char>,
    files: Set<Seq<Seq<char>>>,
    tokens: Option<String>,
) -> bool {
    ||| !files.contains(zipformer_file(name))
    ||| name == "tokens.txt"@ && !(tokens matches Some(c) && is_token_list(c@))
}

/// Whether a plan fetches just what is missing of the Zipformer model.
pub open spec fn fetches_zipformer(
    plan: ZipformerDownload,
    files: Set<Seq<Seq<char>>>,
    tokens: Option<String>,
) -> bool {
    &&& plan.files@.len() == zipformer_names().len()
    &&& forall|i: int|
        #![trigger plan.files@[i]]
        0 <= i < plan.files@.len() ==> {
            &&& plan.files@[i].transfer.label@ == zipformer_names()[i]
            &&& plan.files@[i].transfer.url@ == zipformer_urls()[i]
            &&& plan.files@[i].transfer.range == zipformer_range(i)
            &&& plan.files@[i].needed == zipformer_needs(zipformer_names()[i], files, tokens)
        }
    &&& match plan.package {
        Some(transfer) => {
            &&& !files.contains(sherpa_file())
            &&& transfer.url@ == SHERPA_ONNX_PACKAGE_URL@
            &&& transfer.label@ == "sherpa-onnx"@
            &&& transfer.range == package_range()
        },
        None => files.contains(sherpa_file()),
    }
}

/// One of the Zipformer files.
fn zipformer_transfer(
    url: String,
    name: &str,
    range: ProgressRange,
    needed: bool,
) -> (file: ZipformerTransfer)
    ensures
        file.transfer.url@ == url@,
        file.transfer.label@ == name@,
        file.transfer.range == range,
        file.needed == needed,
{
    ZipformerTransfer { transfer: Transfer { url, label: name.to_string(), range }, needed }
}

/// What is to be fetched so that the Zipformer model can be used; nothing where it can be used
/// already. `tokens` is what the tokens file holds, if it can be read.
pub fn download_zipformer(files: &Inventory, tokens: &Option<String>) -> (plan: Option<
    ZipformerDownload,
>)
    ensures
        match plan {
            Some(p) => !zipformer_usable(files@, *tokens) && fetches_zipformer(p, files@, *tokens),
            None => zipformer_usable(files@, *tokens),
        },
{
    if is_zipformer_ready(files, tokens) {
        return None;
    }
    proof {
        reveal_strlit("encoder.int8.onnx");
        reveal_strlit("decoder.int8.onnx");
        reveal_strlit("joiner.int8.onnx");
        reveal_strlit("tokens.txt");
        assert("encoder.int8.onnx"@.len() != "tokens.txt"@.len());
        assert("decoder.int8.onnx"@.len() != "tokens.txt"@.len());
        assert("joiner.int8.onnx"@.len() != "tokens.txt"@.len());
    }
    let info = zipformer_model();
    let needs_encoder = !files.has(&zipformer_path("encoder.int8.onnx"));
    let needs_decoder = !files.has(&zipformer_path("decoder.int8.onnx"));
    let needs_joiner = !files.has(&zipformer_path("joiner.int8.onnx"));
    let needs_tokens = !files.has(&zipformer_path("tokens.txt")) || !valid_zipformer_tokens(tokens);
    let mut list: Vec<ZipformerTransfer> = Vec::new();
    list.push(
        zipformer_transfer(
            info.encoder_url,
            "encoder.int8.onnx",
            ProgressRange::new(0, 20),
            needs_encoder,
        ),
    );
    list.push(
        zipformer_transfer(
            info.decoder_url,
            "decoder.int8.onnx",
            ProgressRange::new(20, 40),
            needs_decoder,
        ),
    );
    list.push(
        zipformer_transfer(
            info.joiner_url,
            "joiner.int8.onnx",
            ProgressRange::new(40, 60),
            needs_joiner,
        ),
    );
    list.push(
        zipformer_transfer(
            info.tokens_url,
            "tokens.txt",
            ProgressRange::new(60, 80),
            needs_tokens,
        ),
    );
    let package = if files.has(&sherpa_cli_path()) {
        None
    } else {
        Some(
            Transfer {
                url: SHERPA_ONNX_PACKAGE_URL.to_string(),
                label: "sherpa-onnx".to_string(),
                range: ProgressRange::new(80, 96),
            },
        )
    };
    Some(ZipformerDownload { files: list, package })
}

/// Where the bar is put for a file that is skipped: at the end of its slice.
pub fn skipped_mark(file: &ZipformerTransfer) -> (mark: Option<u32>)
    ensures
        mark == if file.needed {
            None
        } else {
            Some(file.transfer.range.end)
        },
{
    if file.needed {
        None
    } else {
        Some(file.transfer.range.end)
    }
}

/// While the Zipformer model is fetched, the bar only ever moves forward, also over files that are
/// skipped: each step begins where the one before ended, and the last leaves room for unpacking.
pub proof fn zipformer_progress_moves_forward(step: int)
    requires
        0 <= step < 4,
    ensures
        zipformer_range(0).start == 0,
        zipformer_range(step).valid(),
        zipformer_range(step).end == zipformer_range(step + 1).start,
        package_range().valid(),
        package_range().start == zipformer_range(3).end,
        package_range().end < zipformer_range(4).end == PROGRESS_DONE,
{
}

/// Once all that a plan fetches is in its place, all the Zipformer files are there.
pub proof fn fetched_zipformer_is_there(
    plan: ZipformerDownload,
    before: Set<Seq<Seq<char>>>,
    tokens: Option<String>,
    after: Set<Seq<Seq<char>>>,
    i: int,
)
    requires
        fetches_zipformer(plan, before, tokens),
        before.subset_of(after),
        forall|j: int|
            0 <= j < plan.files@.len() && #[trigger] plan.files@[j].needed ==> after.contains(
                zipformer_file(plan.files@[j].transfer.label@),
            ),
        plan.package is Some ==> after.contains(sherpa_file()),
        0 <= i < zipformer_names().len(),
    ensures
        after.contains(zipformer_file(zipformer_names()[i])),
        after.contains(sherpa_file()),
{
    if !plan.files@[i].needed {
        assert(before.contains(zipformer_file(zipformer_names()[i])));
    }
}

/// The name that a file has until it is whole.
pub fn part_name(name: &str) -> (part: String)
    ensures
        part@ == name@ + ".part"@,
{
    name.to_string().concat(".part")
}

/// A file that is not whole yet never has the name of one that is, unless that name itself is that
/// of a part.
pub proof fn parts_are_told_apart(name: Seq<char>, other: Seq<char>)
    requires
        !".part"@.is_suffix_of(other),
    ensures
        name + ".part"@ != other,
{
    let part = name + ".part"@;
    assert(part.subrange(name.len() as int, part.len() as int) =~= ".part"@);
}

/// Which directory could not be made before a download, with what the outside work said of it.
pub enum SetupError {
    /// The one of the programs.
    Programs(String),
    /// The one of the Zipformer model.
    Zipformer(String),
    /// The one of the Granite model.
    Granite(String),
}

impl SetupError {
    /// What the user is told.
    pub open spec fn text(self) -> Seq<char> {
        match self {
            SetupError::Programs(e) => "Failed to create bin dir: "@ + e@,
            SetupError::Zipformer(e) => "Failed to create zipformer model dir: "@ + e@,
            SetupError::Granite(e) => "Failed to create granite model dir: "@ + e@,
        }
    }

    /// What the user is told.
    pub fn message(&self) -> (m: String)
        ensures
            m@ == self.text(),
    {
        match self {
            SetupError::Programs(e) => "Failed to create bin dir: ".to_string().concat(e.as_str()),
            SetupError::Zipformer(e) => "Failed to create zipformer model dir: ".to_string().concat(
                e.as_str(),
            ),
            SetupError::Granite(e) => "Failed to create granite model dir: ".to_string().concat(
                e.as_str(),
            ),
        }
    }
}

/// Why a transfer failed, with what the outside work said of it.
pub enum DownloadError {
    /// The directory could not be made.
    Directory(String),
    /// The request failed, or was answered with an error.
    Request(String),
    /// The part could not be created.
    Create(String),
    /// The transfer broke off.
    Receive(String),
    /// A chunk could not be written.
    Write(String),
    /// What was written could not be flushed.
    Flush(String),
    /// What was written could not be made durable.
    Sync(String),
    /// The part could not be put in its place.
    Place(String),
}

impl DownloadError {
    /// What the user is told of the transfer of `label`; `directory` and `part` are the paths of the
    /// directory and of the part.
    pub open spec fn text(
        self,
        label: Seq<char>,
        directory: Seq<char>,
        part: Seq<char>,
    ) -> Seq<char> {
        match self {
            DownloadError::Directory(e) => "Failed to create "@ + directory + ": "@ + e@,
            DownloadError::Request(e) => label + " download failed: "@ + e@,
            DownloadError::Create(e) => "Failed to create "@ + part + ": "@ + e@,
            DownloadError::Receive(e) => label + " download error: "@ + e@,
            DownloadError::Write(e) => "Failed to write "@ + label + ": "@ + e@,
            DownloadError::Flush(e) => "Failed to flush "@ + label + ": "@ + e@,
            DownloadError::Sync(e) => "Failed to sync "@ + label + ": "@ + e@,
            DownloadError::Place(e) => "Failed to finalize "@ + label + ": "@ + e@,
        }
    }

    /// What the user is told.
    pub fn message(&self, label: &str, directory: &str, part: &str) -> (m: String)
        ensures
            m@ == self.text(label@, directory@, part@),
    {
        match self {
            DownloadError::Directory(e) => failure("Failed to create ", directory, e.as_str()),
            DownloadError::Request(e) => label.to_string().concat(" download failed: ").concat(
                e.as_str(),
            ),
            DownloadError::Create(e) => failure("Failed to create ", part, e.as_str()),
            DownloadError::Receive(e) => label.to_string().concat(" download error: ").concat(
                e.as_str(),
            ),
            DownloadError::Write(e) => failure("Failed to write ", label, e.as_str()),
            DownloadError::Flush(e) => failure("Failed to flush ", label, e.as_str()),
            DownloadError::Sync(e) => failure("Failed to sync ", label, e.as_str()),
            DownloadError::Place(e) => failure("Failed to finalize ", label, e.as_str()),
        }
    }
}

/// What is said of something that could not be done, with the reason.
fn failure(what: &str, to: &str, detail: &str) -> (m: String)
    ensures
        m@ == what@ + to@ + ": "@ + detail@,
{
    what.to_string().concat(to).concat(": ").concat(detail)
}

/// What a transfer is waiting for.
#[derive(Clone, Copy, PartialEq, Eq, Structural)]
pub enum TransferStage {
    /// The directory.
    Preparing,
    /// The removal of what an earlier transfer left.
    Clearing,
    /// The answer to the request.
    Requesting,
    /// The part.
    Creating,
    /// The next chunk.
    Receiving,
    /// The write of a chunk.
    Writing,
    /// The flush.
    Flushing,
    /// That what was written is durable.
    Syncing,
    /// That the part is in its place.
    Placing,
    /// The removal of the part, after a failure.
    Discarding,
    /// Nothing more.
    Finished,
}

/// What a piece of outside work brought.
pub enum TransferEvent {
    /// It is done.
    Done,
    /// It failed.
    Failed(String),
    /// The server answered; so much is announced, nothing where that is not known.
    Responded(u64),
    /// A chunk came.
    Chunk(Vec<u8>),
    /// There is no further chunk.
    End,
}

/// The next piece of outside work.
pub enum TransferAction {
    /// Make the directory.
    MakeDirectory,
    /// Remove the part, if there is one. How that goes does not matter.
    RemovePart,
    /// Send the request. An answer that is no success is a failure.
    Request,
    /// Create the part, empty.
    CreatePart,
    /// Wait for the next chunk.
    Receive,
    /// Write this at the end of the part.
    Write(Vec<u8>),
    /// Flush the part.
    Flush,
    /// Make the part durable.
    Sync,
    /// Put the part in its place.
    Place,
    /// The transfer is over.
    Finish(Result<(), DownloadError>),
}

/// What is shown of a transfer.
#[derive(Clone, Copy, PartialEq, Eq, Structural)]
pub enum Progress {
    /// So much of so much, which is more than nothing.
    Of { downloaded: u64, total: u64 },
    /// The end of the transfer's slice.
    Complete,
}

/// What is shown of `downloaded` bytes of `total`: nothing where it is not known how many there are.
pub open spec fn progress_of(downloaded: u64, total: u64) -> Option<Progress> {
    if total == 0 {
        None
    } else {
        Some(Progress::Of { downloaded, total })
    }
}

/// What is shown of `downloaded` bytes of `total`.
pub fn report_progress(downloaded: u64, total: u64) -> (shown: Option<Progress>)
    ensures
        shown == progress_of(downloaded, total),
{
    if total == 0 {
        None
    } else {
        Some(Progress::Of { downloaded, total })
    }
}

/// What [`FileDownload::step`] asks for.
pub struct TransferStep {
    /// What to show.
    pub progress: Option<Progress>,
    /// What to do then.
    pub action: TransferAction,
}

/// A transfer into a file.
pub struct FileDownload {
    /// How many bytes have come.
    pub downloaded: u64,
    /// How many are announced; nothing where that is not known.
    pub total: u64,
    /// Why the transfer failed, while its part is removed.
    pub failure: Option<DownloadError>,
    /// What the transfer is waiting for.
    pub stage: TransferStage,
}

/// Whether a transfer in `stage` can make use of `event`.
pub open spec fn transfer_awaits(stage: TransferStage, event: TransferEvent) -> bool {
    match stage {
        TransferStage::Requesting => event is Responded || event is Failed,
        TransferStage::Receiving => event is Chunk || event is End || event is Failed,
        TransferStage::Finished => false,
        _ => event is Done || event is Failed,
    }
}

/// The transfer goes on to `stage` and asks for `action`.
pub open spec fn transfer_goes_on(
    transfer: FileDownload,
    stage: TransferStage,
    action: TransferAction,
) -> (FileDownload, TransferStep) {
    (FileDownload { stage, ..transfer }, TransferStep { progress: None, action })
}

/// The transfer failed once it was under way: its part is to be removed.
pub open spec fn transfer_breaks(transfer: FileDownload, error: DownloadError) -> (
    FileDownload,
    TransferStep,
) {
    transfer_goes_on(
        FileDownload { failure: Some(error), ..transfer },
        TransferStage::Discarding,
        TransferAction::RemovePart,
    )
}

/// Where an awaited event leads.
pub open spec fn transfer_step_of(transfer: FileDownload, event: TransferEvent) -> (
    FileDownload,
    TransferStep,
) {
    match (transfer.stage, event) {
        (TransferStage::Preparing, TransferEvent::Failed(e)) => transfer_goes_on(
            transfer,
            TransferStage::Finished,
            TransferAction::Finish(Err(DownloadError::Directory(e))),
        ),
        (TransferStage::Preparing, _) => transfer_goes_on(
            transfer,
            TransferStage::Clearing,
            TransferAction::RemovePart,
        ),
        (TransferStage::Clearing, _) => transfer_goes_on(
            transfer,
            TransferStage::Requesting,
            TransferAction::Request,
        ),
        (TransferStage::Requesting, TransferEvent::Failed(e)) => transfer_breaks(
            transfer,
            DownloadError::Request(e),
        ),
        (TransferStage::Requesting, TransferEvent::Responded(total)) => transfer_goes_on(
            FileDownload { total, ..transfer },
            TransferStage::Creating,
            TransferAction::CreatePart,
        ),
        (TransferStage::Creating, TransferEvent::Failed(e)) => transfer_breaks(
            transfer,
            DownloadError::Create(e),
        ),
        (TransferStage::Creating, _) => transfer_goes_on(
            transfer,
            TransferStage::Receiving,
            TransferAction::Receive,
        ),
        (TransferStage::Receiving, TransferEvent::Failed(e)) => transfer_breaks(
            transfer,
            DownloadError::Receive(e),
        ),
        (TransferStage::Receiving, TransferEvent::Chunk(chunk)) => transfer_goes_on(
            FileDownload { downloaded: (transfer.downloaded + chunk@.len()) as u64, ..transfer },
            TransferStage::Writing,
            TransferAction::Write(chunk),
        ),
        (TransferStage::Receiving, _) => transfer_goes_on(
            transfer,
            TransferStage::Flushing,
            TransferAction::Flush,
        ),
        (TransferStage::Writing, TransferEvent::Failed(e)) => transfer_breaks(
            transfer,
            DownloadError::Write(e),
        ),
        (TransferStage::Writing, _) => (
            FileDownload { stage: TransferStage::Receiving, ..transfer },
            TransferStep {
                progress: progress_of(transfer.downloaded, transfer.total),
                action: TransferAction::Receive,
            },
        ),
        (TransferStage::Flushing, TransferEvent::Failed(e)) => transfer_breaks(
            transfer,
            DownloadError::Flush(e),
        ),
        (TransferStage::Flushing, _) => transfer_goes_on(
            transfer,
            TransferStage::Syncing,
            TransferAction::Sync,
        ),
        (TransferStage::Syncing, TransferEvent::Failed(e)) => transfer_breaks(
            transfer,
            DownloadError::Sync(e),
        ),
        (TransferStage::Syncing, _) => (
            FileDownload { stage: TransferStage::Placing, ..transfer },
            TransferStep { progress: Some(Progress::Complete), action: TransferAction::Place },
        ),
        (TransferStage::Placing, TransferEvent::Failed(e)) => transfer_goes_on(
            transfer,
            TransferStage::Finished,
            TransferAction::Finish(Err(DownloadError::Place(e))),
        ),
        (TransferStage::Placing, _) => transfer_goes_on(
            transfer,
            TransferStage::Finished,
            TransferAction::Finish(Ok(())),
        ),
        (TransferStage::Discarding, _) => transfer_goes_on(
            FileDownload { failure: None, ..transfer },
            TransferStage::Finished,
            TransferAction::Finish(
                match transfer.failure {
                    Some(error) => Err(error),
                    None => Ok(()),
                },
            ),
        ),
        // No other pair is awaited.
        _ => transfer_goes_on(transfer, TransferStage::Finished, TransferAction::Finish(Ok(()))),
    }
}

impl FileDownload {
    /// Whether a failure is known just while the part of a failed transfer is removed.
    pub open spec fn consistent(self) -> bool {
        self.failure is Some <==> self.stage == TransferStage::Discarding
    }

    /// A transfer that first wants its directory.
    pub fn new() -> (transfer: Self)
        ensures
            transfer == (FileDownload {
                downloaded: 0,
                total: 0,
                failure: None,
                stage: TransferStage::Preparing,
            }),
            transfer.consistent(),
    {
        FileDownload { downloaded: 0, total: 0, failure: None, stage: TransferStage::Preparing }
    }

    /// Whether the transfer can make use of `event` now.
    pub fn awaits(&self, event: &TransferEvent) -> (yes: bool)
        ensures
            yes == transfer_awaits(self.stage, *event),
    {
        match (self.stage, event) {
            (TransferStage::Requesting, TransferEvent::Responded(_)) => true,
            (TransferStage::Requesting, TransferEvent::Failed(_)) => true,
            (TransferStage::Requesting, _) => false,
            (TransferStage::Receiving, TransferEvent::Chunk(_)) => true,
            (TransferStage::Receiving, TransferEvent::End) => true,
            (TransferStage::Receiving, TransferEvent::Failed(_)) => true,
            (TransferStage::Receiving, _) => false,
            (TransferStage::Finished, _) => false,
            (_, TransferEvent::Done) => true,
            (_, TransferEvent::Failed(_)) => true,
            _ => false,
        }
    }

    /// Goes on to `stage`.
    fn go_on(&mut self, stage: TransferStage, action: TransferAction) -> (step: TransferStep)
        ensures
            (*final(self), step) == transfer_goes_on(*old(self), stage, action),
    {
        self.stage = stage;
        TransferStep { progress: None, action }
    }

    /// Deals with a failure of a transfer that is under way.
    fn break_off(&mut self, error: DownloadError) -> (step: TransferStep)
        ensures
            (*final(self), step) == transfer_breaks(*old(self), error),
    {
        self.failure = Some(error);
        self.go_on(TransferStage::Discarding, TransferAction::RemovePart)
    }

    /// Takes what the last piece of work brought and says what is next.
    pub fn step(&mut self, event: TransferEvent) -> (step: TransferStep)
        requires
            transfer_awaits(old(self).stage, event),
            event matches TransferEvent::Chunk(chunk) ==> old(self).downloaded + chunk@.len()
                <= u64::MAX,
        ensures
            (*final(self), step) == transfer_step_of(*old(self), event),
    {
        match (self.stage, event) {
            (TransferStage::Preparing, TransferEvent::Failed(e)) => self.go_on(
                TransferStage::Finished,
                TransferAction::Finish(Err(DownloadError::Directory(e))),
            ),
            (TransferStage::Preparing, _) => self.go_on(
                TransferStage::Clearing,
                TransferAction::RemovePart,
            ),
            (TransferStage::Clearing, _) => self.go_on(
                TransferStage::Requesting,
                TransferAction::Request,
            ),
            (TransferStage::Requesting, TransferEvent::Failed(e)) => self.break_off(
                DownloadError::Request(e),
            ),
            (TransferStage::Requesting, TransferEvent::Responded(total)) => {
                self.total = total;
                self.go_on(TransferStage::Creating, TransferAction::CreatePart)
            },
            (TransferStage::Creating, TransferEvent::Failed(e)) => self.break_off(
                DownloadError::Create(e),
            ),
            (TransferStage::Creating, _) => self.go_on(
                TransferStage::Receiving,
                TransferAction::Receive,
            ),
            (TransferStage::Receiving, TransferEvent::Failed(e)) => self.break_off(
                DownloadError::Receive(e),
            ),
            (TransferStage::Receiving, TransferEvent::Chunk(chunk)) => {
                self.downloaded = self.downloaded + chunk.len() as u64;
                self.go_on(TransferStage::Writing, TransferAction::Write(chunk))
            },
            (TransferStage::Receiving, _) => self.go_on(
                TransferStage::Flushing,
                TransferAction::Flush,
            ),
            (TransferStage::Writing, TransferEvent::Failed(e)) => self.break_off(
                DownloadError::Write(e),
            ),
            (TransferStage::Writing, _) => {
                self.stage = TransferStage::Receiving;
                TransferStep {
                    progress: report_progress(self.downloaded, self.total),
                    action: TransferAction::Receive,
                }
            },
            (TransferStage::Flushing, TransferEvent::Failed(e)) => self.break_off(
                DownloadError::Flush(e),
            ),
            (TransferStage::Flushing, _) => self.go_on(TransferStage::Syncing, TransferAction::Sync),
            (TransferStage::Syncing, TransferEvent::Failed(e)) => self.break_off(
                DownloadError::Sync(e),
            ),
            (TransferStage::Syncing, _) => {
                self.stage = TransferStage::Placing;
                TransferStep { progress: Some(Progress::Complete), action: TransferAction::Place }
            },
            (TransferStage::Placing, TransferEvent::Failed(e)) => self.go_on(
                TransferStage::Finished,
                TransferAction::Finish(Err(DownloadError::Place(e))),
            ),
            (TransferStage::Placing, _) => self.go_on(
                TransferStage::Finished,
                TransferAction::Finish(Ok(())),
            ),
            (TransferStage::Discarding, _) => {
                let result = match self.failure.take() {
                    Some(error) => Err(error),
                    None => Ok(()),
                };
                self.go_on(TransferStage::Finished, TransferAction::Finish(result))
            },
            // No other pair is awaited.
            _ => self.go_on(TransferStage::Finished, TransferAction::Finish(Ok(()))),
        }
    }
}

/// A transfer into memory, for what is small.
pub struct MemoryDownload {
    /// What has come.
    pub bytes: Vec<u8>,
    /// How many bytes have come.
    pub downloaded: u64,
    /// How many are announced; nothing where that is not known.
    pub total: u64,
}

impl MemoryDownload {
    /// A transfer of `total` bytes, none of which have come.
    pub fn new(total: u64) -> (transfer: Self)
        ensures
            transfer.bytes@ == Seq::<u8>::empty(),
            transfer.downloaded == 0,
            transfer.total == total,
    {
        MemoryDownload { bytes: Vec::new(), downloaded: 0, total }
    }

    /// Takes a chunk and says what to show.
    pub fn receive(&mut self, chunk: &Vec<u8>) -> (shown: Option<Progress>)
        requires
            old(self).downloaded + chunk@.len() <= u64::MAX,
        ensures
            final(self).bytes@ == old(self).bytes@ + chunk@,
            final(self).downloaded == old(self).downloaded + chunk@.len(),
            final(self).total == old(self).total,
            shown == progress_of(final(self).downloaded, final(self).total),
    {
        self.downloaded = self.downloaded + chunk.len() as u64;
        self.bytes.extend_from_slice(chunk.as_slice());
        report_progress(self.downloaded, self.total)
    }
}

/// What stands on disk during a transfer.
pub struct Disk {
    /// What stands in the file's place, if anything does.
    pub place: Option<Seq<u8>>,
    /// What stands in the part, if there is one.
    pub part: Option<Seq<u8>>,
}

/// Whether work that was asked for may leave the disk like this, given what it brought. Work that
/// failed may have changed the part in any way; a part is put in its place at once or not at all.
pub open spec fn leaves(
    action: TransferAction,
    event: TransferEvent,
    before: Disk,
    after: Disk,
) -> bool {
    match action {
        TransferAction::RemovePart => {
            &&& after.place == before.place
            &&& event is Done ==> after.part is None
        },
        TransferAction::CreatePart => {
            &&& after.place == before.place
            &&& event is Done ==> after.part == Some(Seq::<u8>::empty())
        },
        TransferAction::Write(chunk) => {
            &&& after.place == before.place
            &&& event is Done && before.part is Some ==> after.part == Some(
                before.part->0 + chunk@,
            )
        },
        TransferAction::Place => if event is Done {
            after.place == before.part && after.part is None
        } else {
            after.place == before.place
        },
        _ => after == before,
    }
}

/// What a transfer relies on: what was asked for last, what has come, and what the disk holds.
pub struct Underway {
    pub transfer: FileDownload,
    pub asked: TransferAction,
    /// All chunks that have come, one behind the other.
    pub received: Seq<u8>,
    /// Whether there is no further chunk.
    pub ended: bool,
    /// Whether the part was removed after a failure.
    pub discarded: bool,
    pub disk: Disk,
}

/// Whether `event` is what the asked-for `action` can bring.
pub open spec fn transfer_answers(action: TransferAction, event: TransferEvent) -> bool {
    match action {
        TransferAction::Request => event is Responded || event is Failed,
        TransferAction::Receive => event is Chunk || event is End || event is Failed,
        TransferAction::Finish(_) => false,
        _ => event is Done || event is Failed,
    }
}

/// What holds throughout a transfer that found `at_first` in the file's place: nothing else comes to
/// stand there before the end, the part holds what was written, and only a transfer that got its
/// last chunk ends well, with all that came in the file's place. No part is left then, nor where it
/// was removed after a failure.
pub open spec fn sound(u: Underway, at_first: Option<Seq<u8>>) -> bool {
    &&& u.transfer.consistent()
    &&& !(u.transfer.stage == TransferStage::Finished) ==> u.disk.place == at_first
    &&& match u.transfer.stage {
        TransferStage::Preparing => u.asked is MakeDirectory && u.received.len() == 0 && !u.ended,
        TransferStage::Clearing => u.asked is RemovePart && u.received.len() == 0 && !u.ended,
        TransferStage::Requesting => u.asked is Request && u.received.len() == 0 && !u.ended,
        TransferStage::Creating => u.asked is CreatePart && u.received.len() == 0 && !u.ended,
        TransferStage::Receiving => u.asked is Receive && u.disk.part == Some(u.received)
            && !u.ended,
        TransferStage::Writing => !u.ended && (u.asked matches TransferAction::Write(chunk)
            && u.disk.part is Some && u.disk.part->0 + chunk@ == u.received),
        TransferStage::Flushing => u.asked is Flush && u.disk.part == Some(u.received) && u.ended,
        TransferStage::Syncing => u.asked is Sync && u.disk.part == Some(u.received) && u.ended,
        TransferStage::Placing => u.asked is Place && u.disk.part == Some(u.received) && u.ended,
        TransferStage::Discarding => u.asked is RemovePart,
        TransferStage::Finished => u.asked matches TransferAction::Finish(result) && match result {
            Ok(()) => u.ended && u.disk.place == Some(u.received) && u.disk.part is None,
            Err(_) => u.disk.place == at_first && (u.discarded ==> u.disk.part is None),
        },
    }
}

/// Whether a transfer gets from `u` to `v` by the asked-for work bringing `event`.
pub open spec fn proceeds(u: Underway, event: TransferEvent, v: Underway) -> bool {
    &&& transfer_answers(u.asked, event)
    &&& transfer_step_of(u.transfer, event) == (v.transfer, TransferStep {
        progress: transfer_step_of(u.transfer, event).1.progress,
        action: v.asked,
    })
    &&& leaves(u.asked, event, u.disk, v.disk)
    &&& v.received == match event {
        TransferEvent::Chunk(chunk) => u.received + chunk@,
        _ => u.received,
    }
    &&& v.ended == (u.ended || event is End)
    &&& v.discarded == (u.transfer.stage == TransferStage::Discarding && event is Done)
}

/// A download leaves the whole file or no file: until a transfer has ended well, what stands in the
/// file's place is what stood there at first, and once it has, all that came stands there and
/// nothing more was to come. No part is left then, nor once it was removed after a failure. This
/// holds at the outset, and whatever the outside work brings keeps it, so it holds wherever a
/// transfer is interrupted.
pub proof fn download_is_whole_or_nothing(
    u: Underway,
    event: TransferEvent,
    v: Underway,
    at_first: Option<Seq<u8>>,
)
    requires
        sound(u, at_first),
        proceeds(u, event, v),
    ensures
        transfer_awaits(u.transfer.stage, event),
        sound(v, at_first),
{
    if u.transfer.stage == TransferStage::Creating {
        assert(u.received =~= Seq::<u8>::empty());
    }
}

/// At its outset a transfer is sound.
pub proof fn new_download_is_sound(disk: Disk)
    ensures
        sound(
            Underway {
                transfer: FileDownload {
                    downloaded: 0,
                    total: 0,
                    failure: None,
                    stage: TransferStage::Preparing,
                },
                asked: TransferAction::MakeDirectory,
                received: Seq::empty(),
                ended: false,
                discarded: false,
                disk,
            },
            disk.place,
        ),
{
}

/// What writing a file whole is waiting for.
#[derive(Clone, Copy, PartialEq, Eq, Structural)]
pub enum WriteStage {
    /// The part.
    Writing,
    /// That the part is in its place.
    Placing,
    /// The removal of the part.
    Discarding,
    /// Nothing more.
    Finished,
}

/// The next piece of work for writing a file whole.
pub enum WriteAction {
    /// Write all bytes to the part.
    WritePart,
    /// Put the part in its place.
    Place,
    /// Remove the part. How that goes does not matter.
    RemovePart,
    /// The file is written, or why not.
    Finish(Result<(), DownloadError>),
}

/// A file that is written whole or not at all, so that a crash meanwhile leaves no half of it.
pub struct AtomicWrite {
    /// Why the file could not be put in its place.
    pub failure: Option<DownloadError>,
    /// What is waited for.
    pub stage: WriteStage,
}

/// Where the end of the asked-for work leads; `failed` is why it failed, if it did.
pub open spec fn write_step_of(write: AtomicWrite, failed: Option<String>) -> (
    AtomicWrite,
    WriteAction,
) {
    match (write.stage, failed) {
        (WriteStage::Writing, Some(e)) => (
            AtomicWrite { stage: WriteStage::Finished, ..write },
            WriteAction::Finish(Err(DownloadError::Write(e))),
        ),
        (WriteStage::Writing, None) => (
            AtomicWrite { stage: WriteStage::Placing, ..write },
            WriteAction::Place,
        ),
        (WriteStage::Placing, Some(e)) => (
            AtomicWrite { stage: WriteStage::Discarding, failure: Some(DownloadError::Place(e)) },
            WriteAction::RemovePart,
        ),
        (WriteStage::Placing, None) => (
            AtomicWrite { stage: WriteStage::Finished, ..write },
            WriteAction::Finish(Ok(())),
        ),
        (_, _) => (
            AtomicWrite { stage: WriteStage::Finished, failure: None },
            WriteAction::Finish(
                match write.failure {
                    Some(error) => Err(error),
                    None => Ok(()),
                },
            ),
        ),
    }
}

impl AtomicWrite {
    /// A write that first wants the part.
    pub fn new() -> (write: Self)
        ensures
            write == (AtomicWrite { failure: None, stage: WriteStage::Writing }),
    {
        AtomicWrite { failure: None, stage: WriteStage::Writing }
    }

    /// Takes how the last piece of work went and says what is next.
    pub fn step(&mut self, failed: Option<String>) -> (action: WriteAction)
        requires
            old(self).stage != WriteStage::Finished,
        ensures
            (*final(self), action) == write_step_of(*old(self), failed),
    {
        match (self.stage, failed) {
            (WriteStage::Writing, Some(e)) => {
                self.stage = WriteStage::Finished;
                WriteAction::Finish(Err(DownloadError::Write(e)))
            },
            (WriteStage::Writing, None) => {
                self.stage = WriteStage::Placing;
                WriteAction::Place
            },
            (WriteStage::Placing, Some(e)) => {
                self.stage = WriteStage::Discarding;
                self.failure = Some(DownloadError::Place(e));
                WriteAction::RemovePart
            },
            (WriteStage::Placing, None) => {
                self.stage = WriteStage::Finished;
                WriteAction::Finish(Ok(()))
            },
            (_, _) => {
                self.stage = WriteStage::Finished;
                match self.failure.take() {
                    Some(error) => WriteAction::Finish(Err(error)),
                    None => WriteAction::Finish(Ok(())),
                }
            },
        }
    }
}

/// Whether work that was asked for, to write `bytes`, may leave the disk like this; `failed` says
/// whether it failed. Work that failed may have changed the part in any way; a part is put in its
/// place at once or not at all.
pub open spec fn write_leaves(
    action: WriteAction,
    failed: bool,
    bytes: Seq<u8>,
    before: Disk,
    after: Disk,
) -> bool {
    match action {
        WriteAction::WritePart => {
            &&& after.place == before.place
            &&& !failed ==> after.part == Some(bytes)
        },
        WriteAction::Place => if failed {
            after.place == before.place
        } else {
            after.place == before.part && after.part is None
        },
        WriteAction::RemovePart => {
            &&& after.place == before.place
            &&& !failed ==> after.part is None
        },
        WriteAction::Finish(_) => after == before,
    }
}

/// What writing a file relies on: what was asked for last, and what the disk holds.
pub struct WriteUnderway {
    pub write: AtomicWrite,
    pub asked: WriteAction,
    /// Whether the part was removed after a failure.
    pub discarded: bool,
    pub disk: Disk,
}

/// What holds throughout the writing of `bytes` to a file in whose place there was `at_first`:
/// nothing else comes to stand there before the end, and only a write that ends well puts the bytes
/// there. No part is left then, nor where it was removed after a failure.
pub open spec fn write_sound(u: WriteUnderway, bytes: Seq<u8>, at_first: Option<Seq<u8>>) -> bool {
    &&& u.write.failure is Some <==> u.write.stage == WriteStage::Discarding
    &&& match u.write.stage {
        WriteStage::Writing => u.asked is WritePart && u.disk.place == at_first,
        WriteStage::Placing => u.asked is Place && u.disk.place == at_first && u.disk.part == Some(
            bytes,
        ),
        WriteStage::Discarding => u.asked is RemovePart && u.disk.place == at_first,
        WriteStage::Finished => u.asked matches WriteAction::Finish(result) && match result {
            Ok(()) => u.disk.place == Some(bytes) && u.disk.part is None,
            Err(_) => u.disk.place == at_first && (u.discarded ==> u.disk.part is None),
        },
    }
}

/// Whether the writing of `bytes` gets from `u` to `v` by the asked-for work ending; `failed` is why
/// it failed, if it did.
pub open spec fn write_proceeds(
    u: WriteUnderway,
    failed: Option<String>,
    v: WriteUnderway,
    bytes: Seq<u8>,
) -> bool {
    &&& !(u.asked is Finish)
    &&& write_step_of(u.write, failed) == (v.write, v.asked)
    &&& write_leaves(u.asked, failed is Some, bytes, u.disk, v.disk)
    &&& v.discarded == (u.write.stage == WriteStage::Discarding && failed is None)
}

/// A file is written whole or not at all: until a write has ended well, what stands in the file's
/// place is what stood there at first, and once it has, the bytes stand there and no part is left.
/// Whatever the work brings keeps this, so it holds wherever a write is interrupted.
pub proof fn write_is_whole_or_nothing(
    u: WriteUnderway,
    failed: Option<String>,
    v: WriteUnderway,
    bytes: Seq<u8>,
    at_first: Option<Seq<u8>>,
)
    requires
        write_sound(u, bytes, at_first),
        write_proceeds(u, failed, v, bytes),
    ensures
        u.write.stage != WriteStage::Finished,
        write_sound(v, bytes, at_first),
{
}

/// At its outset a write is sound.
pub proof fn new_write_is_sound(bytes: Seq<u8>, disk: Disk)
    ensures
        write_sound(
            WriteUnderway {
                write: AtomicWrite { failure: None, stage: WriteStage::Writing },
                asked: WriteAction::WritePart,
                discarded: false,
                disk,
            },
            bytes,
            disk.place,
        ),
{
}

/// A model is fetched just where it can be chosen and is missing, from its own address into its own
/// file; the programs are fetched just where one of the two is missing. Alone, each owns the whole
/// bar.
pub proof fn just_what_is_missing_is_fetched(
    model_id: &str,
    files: Inventory,
    plan: Result<ModelDownload, String>,
)
    requires
        call_ensures(download_model, (model_id, &files), plan),
    ensures
        plan is Ok <==> is_known(model_id@),
        plan matches Err(e) ==> e@ == "Unknown model: "@ + model_id@,
        plan matches Ok(p) ==> {
            let name = "ggml-"@ + model_id@ + ".bin"@;
            let place = seq!["models"@, name];
            &&& p.model is Some <==> !files@.contains(place)
            &&& p.binaries is Some <==> !files@.contains(seq!["bin"@, "whisper-cli.exe"@])
                || !files@.contains(seq!["bin"@, "whisper-server.exe"@])
            &&& p.model matches Some((transfer, dest)) ==> {
                &&& dest@ == place
                &&& transfer.url@ == "https://huggingface.co/ggerganov/whisper.cpp/resolve/main/"@
                    + name
                &&& transfer.label@ == "model"@
                &&& transfer.range.start == 0
                &&& transfer.range.end == if p.binaries is Some {
                    92u32
                } else {
                    100u32
                }
            }
            &&& p.binaries matches Some(transfer) ==> {
                &&& transfer.url@
                    == "https://github.com/ggml-org/whisper.cpp/releases/download/v1.8.3/whisper-bin-x64.zip"@
                &&& transfer.label@ == "whisper-cli"@
                &&& transfer.range.start == if p.model is Some {
                    92u32
                } else {
                    0u32
                }
                &&& transfer.range.end == 100
            }
        },
{
    assert(seq!["models"@, "ggml-"@ + model_id@ + ".bin"@] =~= model_file(model_id@));
}

/// A Zipformer file is fetched just where it is missing, the tokens also where they are no good, each
/// from its own address; the package just where the command is missing. Nothing is planned where
/// Zipformer is ready.
pub proof fn just_what_is_missing_of_zipformer_is_fetched(
    files: Inventory,
    tokens: Option<String>,
    plan: Option<ZipformerDownload>,
    ready: bool,
    valid: bool,
)
    requires
        call_ensures(download_zipformer, (&files, &tokens), plan),
        call_ensures(is_zipformer_ready, (&files, &tokens), ready),
        call_ensures(valid_zipformer_tokens, (&tokens,), valid),
    ensures
        plan is None <==> ready,
        plan matches Some(p) ==> {
            let dir = seq!["models"@, "zipformer-vi"@];
            let base = "https://huggingface.co/hynt/Zipformer-30M-RNNT-6000h/resolve/main"@;
            &&& p.files@.len() == 4
            &&& p.files@[0].needed == !files@.contains(dir.push("encoder.int8.onnx"@))
            &&& p.files@[1].needed == !files@.contains(dir.push("decoder.int8.onnx"@))
            &&& p.files@[2].needed == !files@.contains(dir.push("joiner.int8.onnx"@))
            &&& p.files@[3].needed == (!files@.contains(dir.push("tokens.txt"@)) || !valid)
            &&& p.files@[0].transfer.label@ == "encoder.int8.onnx"@
            &&& p.files@[1].transfer.label@ == "decoder.int8.onnx"@
            &&& p.files@[2].transfer.label@ == "joiner.int8.onnx"@
            &&& p.files@[3].transfer.label@ == "tokens.txt"@
            &&& p.files@[0].transfer.url@ == base + "/encoder-epoch-20-avg-10.int8.onnx"@
            &&& p.files@[1].transfer.url@ == base + "/decoder-epoch-20-avg-10.int8.onnx"@
            &&& p.files@[2].transfer.url@ == base + "/joiner-epoch-20-avg-10.int8.onnx"@
            &&& p.files@[3].transfer.url@ == base + "/config.json"@
            &&& forall|i: int|
                0 <= i < 4 ==> (#[trigger] p.files@[i]).transfer.range.start == 20 * i
                    && p.files@[i].transfer.range.end == 20 * i + 20
            &&& p.package is Some <==> !files@.contains(seq!["bin"@, "sherpa-onnx-offline.exe"@])
            &&& p.package matches Some(transfer) ==> transfer.range.start == 80 && transfer.range.end
                == 96 && transfer.label@ == "sherpa-onnx"@
        },
{
    if let Some(p) = plan {
        let dir = seq!["models"@, "zipformer-vi"@];
        assert(dir.push("encoder.int8.onnx"@) =~= zipformer_file("encoder.int8.onnx"@));
        assert(dir.push("decoder.int8.onnx"@) =~= zipformer_file("decoder.int8.onnx"@));
        assert(dir.push("joiner.int8.onnx"@) =~= zipformer_file("joiner.int8.onnx"@));
        assert(dir.push("tokens.txt"@) =~= zipformer_file("tokens.txt"@));
        reveal_strlit("encoder.int8.onnx");
        reveal_strlit("decoder.int8.onnx");
        reveal_strlit("joiner.int8.onnx");
        reveal_strlit("tokens.txt");
        assert("encoder.int8.onnx"@.len() != "tokens.txt"@.len());
        assert("decoder.int8.onnx"@.len() != "tokens.txt"@.len());
        assert("joiner.int8.onnx"@.len() != "tokens.txt"@.len());
        assert(p.files@[0].needed == zipformer_needs(zipformer_names()[0], files@, tokens));
        assert(p.files@[1].needed == zipformer_needs(zipformer_names()[1], files@, tokens));
        assert(p.files@[2].needed == zipformer_needs(zipformer_names()[2], files@, tokens));
        assert(p.files@[3].needed == zipformer_needs(zipformer_names()[3], files@, tokens));
        assert forall|i: int| 0 <= i < 4 implies (#[trigger] p.files@[i]).transfer.range.start == 20
            * i && p.files@[i].transfer.range.end == 20 * i + 20 by {
            assert(p.files@[i].transfer.range == zipformer_range(i));
        }
    }
}

/// Why a transfer failed is told whole, with the name of what was fetched or of the file.
pub proof fn download_errors_tell_the_reason(
    e: String,
    label: Seq<char>,
    directory: Seq<char>,
    part: Seq<char>,
)
    ensures
        DownloadError::Directory(e).text(label, directory, part) == "Failed to create "@ + directory + ": "@ + e@,
        DownloadError::Request(e).text(label, directory, part) == label + " download failed: "@ + e@,
        DownloadError::Create(e).text(label, directory, part) == "Failed to create "@ + part + ": "@ + e@,
        DownloadError::Receive(e).text(label, directory, part) == label + " download error: "@ + e@,
        DownloadError::Write(e).text(label, directory, part) == "Failed to write "@ + label + ": "@ + e@,
        DownloadError::Flush(e).text(label, directory, part) == "Failed to flush "@ + label + ": "@ + e@,
        DownloadError::Sync(e).text(label, directory, part) == "Failed to sync "@ + label + ": "@ + e@,
        DownloadError::Place(e).text(label, directory, part) == "Failed to finalize "@ + label + ": "@ + e@,
        SetupError::Programs(e).text() == "Failed to create bin dir: "@ + e@,
        SetupError::Zipformer(e).text() == "Failed to create zipformer model dir: "@ + e@,
        SetupError::Granite(e).text() == "Failed to create granite model dir: "@ + e@,
{
}

/// Where work for a transfer fails, the transfer ends for just that reason: at once where nothing was
/// fetched or all was, and otherwise once its part is removed.
pub proof fn failed_work_ends_the_transfer(transfer: FileDownload, e: String)
    requires
        transfer.consistent(),
        transfer.stage != TransferStage::Finished,
        transfer.stage != TransferStage::Clearing,
        transfer.stage != TransferStage::Discarding,
    ensures
        ({
            let (next, step) = transfer_step_of(transfer, TransferEvent::Failed(e));
            let (end, last) = transfer_step_of(next, TransferEvent::Done);
            let (end_too, last_too) = transfer_step_of(next, TransferEvent::Failed(e));
            &&& transfer.stage == TransferStage::Preparing ==> step.action == TransferAction::Finish(
                Err(DownloadError::Directory(e)),
            )
            &&& transfer.stage == TransferStage::Placing ==> step.action == TransferAction::Finish(
                Err(DownloadError::Place(e)),
            )
            &&& transfer.stage != TransferStage::Preparing && transfer.stage
                != TransferStage::Placing ==> {
                &&& step.action == TransferAction::RemovePart
                &&& step.progress is None
                &&& last.action == last_too.action
                &&& last.action == TransferAction::Finish(
                    Err(
                        match transfer.stage {
                            TransferStage::Requesting => DownloadError::Request(e),
                            TransferStage::Creating => DownloadError::Create(e),
                            TransferStage::Receiving => DownloadError::Receive(e),
                            TransferStage::Writing => DownloadError::Write(e),
                            TransferStage::Flushing => DownloadError::Flush(e),
                            _ => DownloadError::Sync(e),
                        },
                    ),
                )
            }
        }),
{
}

/// Every chunk that comes is written as it came, is counted, and is then shown against what was
/// announced, if anything was.
pub proof fn every_chunk_is_written_and_counted(transfer: FileDownload, chunk: Vec<u8>)
    requires
        transfer.stage == TransferStage::Receiving,
        transfer.downloaded + chunk@.len() <= u64::MAX,
    ensures
        ({
            let (got, step) = transfer_step_of(transfer, TransferEvent::Chunk(chunk));
            let (wrote, shown) = transfer_step_of(got, TransferEvent::Done);
            &&& step.action == TransferAction::Write(chunk)
            &&& step.progress is None
            &&& got.downloaded == transfer.downloaded + chunk@.len()
            &&& got.total == transfer.total
            &&& shown.action == TransferAction::Receive
            &&& wrote.stage == TransferStage::Receiving
            &&& wrote.downloaded == got.downloaded && wrote.total == transfer.total
            &&& transfer.total == 0 ==> shown.progress is None
            &&& transfer.total > 0 ==> shown.progress == Some(
                Progress::Of { downloaded: got.downloaded, total: transfer.total },
            )
        }),
{
}

/// A transfer whose work goes well makes its directory, clears what was left, asks, creates the part,
/// and once nothing more comes flushes, syncs and places it, and then ends well.
pub proof fn transfer_goes_from_request_to_place(
    start: FileDownload,
    total: u64,
    detail: String,
)
    requires
        start.stage == TransferStage::Preparing,
        start.failure is None,
    ensures
        ({
            let (a, first) = transfer_step_of(start, TransferEvent::Done);
            let (b, second) = transfer_step_of(a, TransferEvent::Done);
            let (c, third) = transfer_step_of(b, TransferEvent::Responded(total));
            let (d, fourth) = transfer_step_of(c, TransferEvent::Done);
            let (e, fifth) = transfer_step_of(d, TransferEvent::End);
            let (f, sixth) = transfer_step_of(e, TransferEvent::Done);
            let (g, seventh) = transfer_step_of(f, TransferEvent::Done);
            let (h, eighth) = transfer_step_of(g, TransferEvent::Done);
            &&& first.action == TransferAction::RemovePart
            &&& second.action == TransferAction::Request
            &&& third.action == TransferAction::CreatePart && c.total == total
            &&& fourth.action == TransferAction::Receive && d.stage == TransferStage::Receiving
            &&& fifth.action == TransferAction::Flush
            &&& sixth.action == TransferAction::Sync
            &&& seventh.action == TransferAction::Place && seventh.progress == Some(
                Progress::Complete,
            )
            &&& eighth.action == TransferAction::Finish(Ok(()))
            &&& h.stage == TransferStage::Finished && h.total == total
            &&& transfer_step_of(a, TransferEvent::Failed(detail)).1.action
                == TransferAction::Request
        }),
{
}

/// Why a file could not be written whole is told: the write that failed, or the placing, once the
/// part is removed.
pub proof fn failed_write_is_told(e: String, other: Option<String>)
    ensures
        ({
            let writing = AtomicWrite { failure: None, stage: WriteStage::Writing };
            let placing = AtomicWrite { failure: None, stage: WriteStage::Placing };
            let (next, action) = write_step_of(placing, Some(e));
            &&& write_step_of(writing, Some(e)).1 == WriteAction::Finish(
                Err(DownloadError::Write(e)),
            )
            &&& write_step_of(writing, None).1 == WriteAction::Place
            &&& write_step_of(placing, None).1 == WriteAction::Finish(Ok(()))
            &&& action == WriteAction::RemovePart
            &&& write_step_of(next, other).1 == WriteAction::Finish(Err(DownloadError::Place(e)))
        }),
{
}

/// Progress is shown just where it is known how much there is, as it is.
pub proof fn known_progress_is_shown(downloaded: u64, total: u64, shown: Option<Progress>)
    requires
        call_ensures(report_progress, (downloaded, total), shown),
    ensures
        total == 0 <==> shown is None,
        total > 0 ==> shown == Some(Progress::Of { downloaded, total }),
{
}

/// A file that is not whole has the name of the file and a mark behind it.
pub proof fn part_is_named_by_its_file(name: &str, part: String)
    requires
        call_ensures(part_name, (name,), part),
    ensures
        part@ == name@ + ".part"@,
{
}

/// Whichever outcome the asked-for work has, the transfer can make use of it.
pub proof fn every_transfer_outcome_is_awaited(
    transfer: FileDownload,
    event: TransferEvent,
    total: u64,
    chunk: Vec<u8>,
    detail: String,
)
    requires
        transfer_awaits(transfer.stage, event),
        transfer.consistent(),
    ensures
        transfer_awaits(TransferStage::Preparing, TransferEvent::Done),
        transfer_awaits(TransferStage::Preparing, TransferEvent::Failed(detail)),
        ({
            let (next, step) = transfer_step_of(transfer, event);
            match step.action {
                TransferAction::Finish(_) => next.stage == TransferStage::Finished,
                TransferAction::Request => transfer_awaits(
                    next.stage,
                    TransferEvent::Responded(total),
                ) && transfer_awaits(next.stage, TransferEvent::Failed(detail)),
                TransferAction::Receive => transfer_awaits(next.stage, TransferEvent::Chunk(chunk))
                    && transfer_awaits(next.stage, TransferEvent::End) && transfer_awaits(
                    next.stage,
                    TransferEvent::Failed(detail),
                ),
                _ => transfer_awaits(next.stage, TransferEvent::Done) && transfer_awaits(
                    next.stage,
                    TransferEvent::Failed(detail),
                ),
            }
        }),
{
}

/// The marks of a download stand at the ends of the bar and of the slices.
pub proof fn marks_stand_at_the_ends(
    plan: ModelDownload,
    marks: (Option<u32>, u32),
    file: ZipformerTransfer,
    mark: Option<u32>,
)
    requires
        call_ensures(model_marks, (&plan,), marks),
        call_ensures(skipped_mark, (&file,), mark),
    ensures
        marks.1 == 100,
        marks.0 is Some <==> plan.model is Some || plan.binaries is Some,
        marks.0 is Some ==> marks.0->0 == 0,
        mark is Some <==> !file.needed,
        mark is Some ==> mark->0 == file.transfer.range.end,
{
}

} // verus!
