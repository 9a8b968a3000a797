//! The models that can be chosen, the settings that are kept, and which models are on disk.

use vstd::prelude::*;
use vstd::string::*;
use crate::paths::{DataPath, Inventory};
use crate::pill::{Float64, PillPosition, PillPositions};
use crate::text::{same, texts};

verus! {

/// A whisper.cpp model that can be downloaded.
pub struct ModelInfo {
    /// Such as "tiny.en".
    pub id: String,
    /// Such as "ggml-tiny.en.bin".
    pub filename: String,
    /// Such as "Tiny (English)".
    pub label: String,
    /// About how much there is to download.
    pub size_mb: u32,
    /// Where from.
    pub url: String,
}

/// What a [`ModelInfo`] says.
pub struct ModelView {
    pub id: Seq<char>,
    pub filename: Seq<char>,
    pub label: Seq<char>,
    pub size_mb: u32,
    pub url: Seq<char>,
}

impl View for ModelInfo {
    type V = ModelView;

    open spec fn view(&self) -> ModelView {
        ModelView {
            id: self.id@,
            filename: self.filename@,
            label: self.label@,
            size_mb: self.size_mb,
            url: self.url@,
        }
    }
}

/// The name of the file that holds a model.
pub open spec fn model_filename(id: Seq<char>) -> Seq<char> {
    "ggml-"@ + id + ".bin"@
}

/// The model with this id.
pub open spec fn model_of(id: Seq<char>, label: Seq<char>, size_mb: u32) -> ModelView {
    ModelView {
        id,
        filename: model_filename(id),
        label,
        size_mb,
        url: "https://huggingface.co/ggerganov/whisper.cpp/resolve/main/"@ + model_filename(id),
    }
}

/// The models that can be chosen, smallest first.
pub open spec fn models() -> Seq<ModelView> {
    seq![
        model_of("tiny.en"@, "Tiny (English)"@, 75),
        model_of("tiny"@, "Tiny (Multilingual)"@, 75),
        model_of("base.en"@, "Base (English)"@, 142),
        model_of("base"@, "Base (Multilingual)"@, 142),
        model_of("small.en"@, "Small (English)"@, 466),
        model_of("small"@, "Small (Multilingual)"@, 466),
        model_of("medium.en"@, "Medium (English)"@, 1500),
        model_of("medium"@, "Medium (Multilingual)"@, 1500),
        model_of("large-v3-turbo"@, "Large v3 Turbo (Multilingual)"@, 1600),
    ]
}

/// The views of a list of models.
pub open spec fn model_views(list: Seq<ModelInfo>) -> Seq<ModelView> {
    Seq::new(list.len(), |i: int| list[i]@)
}

/// The name of the file that holds the model `id`.
pub fn filename_of(id: &str) -> (name: String)
    ensures
        name@ == model_filename(id@),
{
    "ggml-".to_string().concat(id).concat(".bin")
}

impl ModelInfo {
    /// The model with this id.
    pub fn new(id: &str, label: &str, size_mb: u32) -> (info: Self)
        ensures
            info@ == model_of(id@, label@, size_mb),
    {
        let filename = filename_of(id);
        let url = "https://huggingface.co/ggerganov/whisper.cpp/resolve/main/".to_string().concat(
            filename.as_str(),
        );
        ModelInfo { id: id.to_string(), filename, label: label.to_string(), size_mb, url }
    }
}

/// The full list of models that can be chosen.
pub fn available_models() -> (list: Vec<ModelInfo>)
    ensures
        model_views(list@) == models(),
{
    let mut list: Vec<ModelInfo> = Vec::new();
    list.push(ModelInfo::new("tiny.en", "Tiny (English)", 75));
    list.push(ModelInfo::new("tiny", "Tiny (Multilingual)", 75));
    list.push(ModelInfo::new("base.en", "Base (English)", 142));
    list.push(ModelInfo::new("base", "Base (Multilingual)", 142));
    list.push(ModelInfo::new("small.en", "Small (English)", 466));
    list.push(ModelInfo::new("small", "Small (Multilingual)", 466));
    list.push(ModelInfo::new("medium.en", "Medium (English)", 1500));
    list.push(ModelInfo::new("medium", "Medium (Multilingual)", 1500));
    list.push(ModelInfo::new("large-v3-turbo", "Large v3 Turbo (Multilingual)", 1600));
    assert(model_views(list@) =~= models());
    list
}

/// The list of models that the settings page shows.
pub fn get_available_models() -> (list: Vec<ModelInfo>)
    ensures
        model_views(list@) == models(),
{
    available_models()
}

/// Whether `id` is the id of a model that can be chosen.
pub open spec fn is_known(id: Seq<char>) -> bool {
    exists|i: int| 0 <= i < models().len() && #[trigger] models()[i].id == id
}

/// The model with the id `id`, if it can be chosen.
pub fn find_model(id: &str) -> (found: Option<ModelInfo>)
    ensures
        found is Some <==> is_known(id@),
        found matches Some(info) ==> info@.id == id@ && models().contains(info@),
{
    let mut list = available_models();
    let ghost all = models();
    while list.len() > 0
        invariant
            all == models(),
            list@.len() <= all.len(),
            model_views(list@) == all.skip(all.len() - list@.len()),
            forall|j: int|
                0 <= j < all.len() - list@.len() ==> #[trigger] all[j].id != id@,
        decreases list@.len(),
    {
        let ghost at = all.len() - list@.len();
        assert(model_views(list@)[0] == all[at]);
        let ghost before = list@;
        let info = list.remove(0);
        if same(info.id.as_str(), id) {
            assert(info@ == all[at]);
            assert(models()[at].id == id@);
            return Some(info);
        }
        assert(model_views(list@) == model_views(before).skip(1));
        assert(all.skip(at).skip(1) == all.skip(at + 1));
    }
    None
}

/// The path of the file that holds the model `id`.
pub open spec fn model_file(id: Seq<char>) -> Seq<Seq<char>> {
    seq!["models"@, model_filename(id)]
}

/// The ids of those of `list` whose files are in `files`, in order.
pub open spec fn downloaded_ids(
    list: Seq<ModelView>,
    files: Set<Seq<Seq<char>>>,
) -> Seq<Seq<char>>
    decreases list.len(),
{
    if list.len() == 0 {
        Seq::empty()
    } else {
        let earlier = downloaded_ids(list.drop_last(), files);
        if files.contains(seq!["models"@, list.last().filename]) {
            earlier.push(list.last().id)
        } else {
            earlier
        }
    }
}

/// The paths at which downloaded models are looked for.
pub fn model_files() -> (paths: Vec<DataPath>)
    ensures
        paths@.len() == models().len(),
        forall|i: int| 0 <= i < paths@.len() ==> #[trigger] paths@[i]@ == model_file(
            models()[i].id,
        ),
{
    let list = available_models();
    let mut paths: Vec<DataPath> = Vec::new();
    let mut i: usize = 0;
    while i < list.len()
        invariant
            i <= list@.len(),
            model_views(list@) == models(),
            paths@.len() == i,
            forall|j: int| 0 <= j < i ==> #[trigger] paths@[j]@ == model_file(models()[j].id),
        decreases list@.len() - i,
    {
        assert(list@[i as int]@ == models()[i as int]);
        proof {
            known_model_file(models()[i as int]);
        }
        paths.push(DataPath::of("models", list[i].filename.as_str()));
        i = i + 1;
    }
    assert(list@.len() == model_views(list@).len());
    paths
}

/// The ids of the models that are on disk, in the order of the list.
pub fn get_downloaded_models(files: &Inventory) -> (ids: Vec<String>)
    ensures
        texts(ids@) == downloaded_ids(models(), files@),
{
    let list = available_models();
    let mut ids: Vec<String> = Vec::new();
    let mut i: usize = 0;
    assert(texts(ids@) =~= Seq::<Seq<char>>::empty());
    while i < list.len()
        invariant
            i <= list@.len(),
            model_views(list@) == models(),
            texts(ids@) == downloaded_ids(models().take(i as int), files@),
        decreases list@.len() - i,
    {
        let ghost shown = models().take(i + 1);
        let ghost before = texts(ids@);
        assert(list@[i as int]@ == models()[i as int]);
        assert(shown.drop_last() == models().take(i as int));
        assert(shown.last() == list@[i as int]@);
        if files.has(&DataPath::of("models", list[i].filename.as_str())) {
            let id = list[i].id.clone();
            ids.push(id);
            assert(texts(ids@) == before.push(id@));
        }
        i = i + 1;
    }
    assert(list@.len() == model_views(list@).len());
    assert(models().take(list@.len() as int) == models());
    ids
}

/// Whether the model `model_id` is on disk.
pub fn is_model_downloaded(model_id: String, files: &Inventory) -> (yes: bool)
    ensures
        yes <==> is_known(model_id@) && files@.contains(model_file(model_id@)),
{
    match find_model(model_id.as_str()) {
        Some(info) => {
            proof {
                known_model_file(info@);
            }
            files.has(&DataPath::of("models", info.filename.as_str()))
        },
        None => false,
    }
}

/// A model that can be chosen is kept in the file that its id says.
proof fn known_model_file(info: ModelView)
    requires
        models().contains(info),
    ensures
        info.filename == model_filename(info.id),
{
}

/// The file to remove so that the model `model_id` is no longer on disk, if there is one. An
/// unknown model is an error.
pub fn delete_model(model_id: String, files: &Inventory) -> (removal: Result<
    Option<DataPath>,
    String,
>)
    ensures
        match removal {
            Ok(Some(path)) => is_known(model_id@) && path@ == model_file(model_id@)
                && files@.contains(path@),
            Ok(None) => is_known(model_id@) && !files@.contains(model_file(model_id@)),
            Err(e) => !is_known(model_id@) && e@ == "Unknown model: "@ + model_id@,
        },
{
    match find_model(model_id.as_str()) {
        Some(info) => {
            proof {
                known_model_file(info@);
            }
            let path = DataPath::of("models", info.filename.as_str());
            if files.has(&path) {
                Ok(Some(path))
            } else {
                Ok(None)
            }
        },
        None => Err("Unknown model: ".to_string().concat(model_id.as_str())),
    }
}

/// What is said when a model file could not be removed.
pub fn delete_failed(detail: &str) -> (message: String)
    ensures
        message@ == "Failed to delete model: "@ + detail@,
{
    "Failed to delete model: ".to_string().concat(detail)
}

/// The Zipformer model, for Vietnamese, run by sherpa-onnx.
pub struct ZipformerModelInfo {
    pub id: String,
    pub label: String,
    pub size_mb: u32,
    pub encoder_url: String,
    pub decoder_url: String,
    pub joiner_url: String,
    pub tokens_url: String,
}

/// Where the Zipformer files are downloaded from.
pub open spec fn zipformer_base() -> Seq<char> {
    "https://huggingface.co/hynt/Zipformer-30M-RNNT-6000h/resolve/main"@
}

impl ZipformerModelInfo {
    /// Whether this says what is known of the model.
    pub open spec fn is_the_zipformer(self) -> bool {
        &&& self.id@ == "zipformer-vi"@
        &&& self.label@ == "Zipformer 30M (Vietnamese)"@
        &&& self.size_mb == 30
        &&& self.encoder_url@ == zipformer_base() + "/encoder-epoch-20-avg-10.int8.onnx"@
        &&& self.decoder_url@ == zipformer_base() + "/decoder-epoch-20-avg-10.int8.onnx"@
        &&& self.joiner_url@ == zipformer_base() + "/joiner-epoch-20-avg-10.int8.onnx"@
        &&& self.tokens_url@ == zipformer_base() + "/config.json"@
    }
}

/// What is known of the Zipformer model.
pub fn zipformer_model() -> (info: ZipformerModelInfo)
    ensures
        info.is_the_zipformer(),
{
    let base = "https://huggingface.co/hynt/Zipformer-30M-RNNT-6000h/resolve/main";
    ZipformerModelInfo {
        id: "zipformer-vi".to_string(),
        label: "Zipformer 30M (Vietnamese)".to_string(),
        size_mb: 30,
        encoder_url: base.to_string().concat("/encoder-epoch-20-avg-10.int8.onnx"),
        decoder_url: base.to_string().concat("/decoder-epoch-20-avg-10.int8.onnx"),
        joiner_url: base.to_string().concat("/joiner-epoch-20-avg-10.int8.onnx"),
        tokens_url: base.to_string().concat("/config.json"),
    }
}

/// What the settings page shows of the Zipformer model.
pub fn get_zipformer_model() -> (info: ZipformerModelInfo)
    ensures
        info.is_the_zipformer(),
{
    zipformer_model()
}

/// The path of one of the Zipformer files.
pub open spec fn zipformer_file(name: Seq<char>) -> Seq<Seq<char>> {
    seq!["models"@, "zipformer-vi"@, name]
}

/// The files that the settings page takes for a downloaded Zipformer model.
pub open spec fn zipformer_settings_files() -> Seq<Seq<Seq<char>>> {
    seq![
        zipformer_file("encoder.int8.onnx"@),
        zipformer_file("decoder.int8.onnx"@),
        zipformer_file("joiner.int8.onnx"@),
        zipformer_file("tokens.txt"@),
    ]
}

/// The path of one of the Zipformer files.
pub fn zipformer_path(name: &str) -> (path: DataPath)
    ensures
        path@ == zipformer_file(name@),
{
    let path = DataPath::of("models", "zipformer-vi").join(name);
    assert(path@ == zipformer_file(name@));
    path
}

/// Whether the settings page shows the Zipformer model as downloaded.
pub fn is_zipformer_ready(files: &Inventory) -> (ready: bool)
    ensures
        ready <==> forall|i: int|
            0 <= i < zipformer_settings_files().len() ==> files@.contains(
                #[trigger] zipformer_settings_files()[i],
            ),
{
    let ghost wanted = zipformer_settings_files();
    assert(wanted.len() == 4);
    let ready = files.has(&zipformer_path("encoder.int8.onnx")) && files.has(
        &zipformer_path("decoder.int8.onnx"),
    ) && files.has(&zipformer_path("joiner.int8.onnx")) && files.has(&zipformer_path("tokens.txt"));
    assert(ready == (files@.contains(wanted[0]) && files@.contains(wanted[1]) && files@.contains(
        wanted[2],
    ) && files@.contains(wanted[3])));
    ready
}

/// The Granite 4.0 1B Speech model.
pub struct GraniteModelInfo {
    pub id: String,
    pub label: String,
    /// Its name on the model hub.
    pub model_id: String,
    pub size_mb: u32,
    pub languages: Vec<String>,
}

impl GraniteModelInfo {
    /// Whether this says what is known of the model.
    pub open spec fn is_the_granite(self) -> bool {
        &&& self.id@ == "granite-speech"@
        &&& self.label@ == "Granite 4.0 1B Speech"@
        &&& self.model_id@ == "ibm-granite/granite-4.0-1b-speech"@
        &&& self.size_mb == 2000
        &&& texts(self.languages@) == seq!["en"@, "fr"@, "de"@, "es"@, "pt"@, "ja"@]
    }
}

/// What is known of the Granite model.
pub fn granite_model() -> (info: GraniteModelInfo)
    ensures
        info.is_the_granite(),
{
    let mut languages: Vec<String> = Vec::new();
    languages.push("en".to_string());
    languages.push("fr".to_string());
    languages.push("de".to_string());
    languages.push("es".to_string());
    languages.push("pt".to_string());
    languages.push("ja".to_string());
    assert(texts(languages@) =~= seq!["en"@, "fr"@, "de"@, "es"@, "pt"@, "ja"@]);
    GraniteModelInfo {
        id: "granite-speech".to_string(),
        label: "Granite 4.0 1B Speech".to_string(),
        model_id: "ibm-granite/granite-4.0-1b-speech".to_string(),
        size_mb: 2000,
        languages,
    }
}

/// What the settings page shows of the Granite model.
pub fn get_granite_model() -> (info: GraniteModelInfo)
    ensures
        info.is_the_granite(),
{
    granite_model()
}

/// The path of one of the Granite files.
pub open spec fn granite_file(name: Seq<char>) -> Seq<Seq<char>> {
    seq!["models"@, "granite-speech"@, name]
}

/// The path of one of the Granite files.
pub fn granite_path(name: &str) -> (path: DataPath)
    ensures
        path@ == granite_file(name@),
{
    let path = DataPath::of("models", "granite-speech").join(name);
    assert(path@ == granite_file(name@));
    path
}

/// Whether the settings page shows the Granite model as downloaded: its directory is there with its
/// configuration.
pub fn is_granite_ready(files: &Inventory) -> (ready: bool)
    ensures
        ready <==> files@.contains(granite_file("config.json"@)),
{
    files.has(&granite_path("config.json"))
}

/// The settings that are kept from one run to the next.
pub struct AppSettings {
    /// The id of a model, such as "tiny.en".
    pub model: String,
    /// A language code, such as "en", or "auto".
    pub language: String,
    /// The key to hold while talking.
    pub hotkey: String,
    /// The key that quits.
    pub quit_hotkey: String,
    /// Empty for the system's default.
    pub microphone_id: String,
    /// The loudness below which there is silence.
    pub vad_silence_threshold: Float64,
    /// How many frames of silence end a recording.
    pub vad_silence_frames: u32,
    /// "local" or "cloud".
    pub transcription_mode: String,
    /// "openai" or "groq".
    pub cloud_provider: String,
    pub cloud_api_key: String,
    /// Where the pill was on each monitor.
    pub pill_positions: PillPositions,
    /// "whisper", "zipformer" or "granite".
    pub local_engine: String,
    /// The port of the local Granite server.
    pub granite_api_port: u16,
}

/// What an [`AppSettings`] says.
pub struct SettingsView {
    pub model: Seq<char>,
    pub language: Seq<char>,
    pub hotkey: Seq<char>,
    pub quit_hotkey: Seq<char>,
    pub microphone_id: Seq<char>,
    pub vad_silence_threshold: Float64,
    pub vad_silence_frames: u32,
    pub transcription_mode: Seq<char>,
    pub cloud_provider: Seq<char>,
    pub cloud_api_key: Seq<char>,
    pub pill_positions: Map<Seq<char>, PillPosition>,
    pub local_engine: Seq<char>,
    pub granite_api_port: u16,
}

impl View for AppSettings {
    type V = SettingsView;

    open spec fn view(&self) -> SettingsView {
        SettingsView {
            model: self.model@,
            language: self.language@,
            hotkey: self.hotkey@,
            quit_hotkey: self.quit_hotkey@,
            microphone_id: self.microphone_id@,
            vad_silence_threshold: self.vad_silence_threshold,
            vad_silence_frames: self.vad_silence_frames,
            transcription_mode: self.transcription_mode@,
            cloud_provider: self.cloud_provider@,
            cloud_api_key: self.cloud_api_key@,
            pill_positions: self.pill_positions@,
            local_engine: self.local_engine@,
            granite_api_port: self.granite_api_port,
        }
    }
}

/// The settings of a first run.
pub open spec fn default_settings() -> SettingsView {
    SettingsView {
        model: "tiny.en"@,
        language: "en"@,
        hotkey: "CommandOrControl+Shift+Space"@,
        quit_hotkey: "CommandOrControl+Shift+Q"@,
        microphone_id: ""@,
        vad_silence_threshold: Float64 { bits: DEFAULT_SILENCE_THRESHOLD_BITS },
        vad_silence_frames: 45,
        transcription_mode: "local"@,
        cloud_provider: "openai"@,
        cloud_api_key: ""@,
        pill_positions: Map::empty(),
        local_engine: "whisper"@,
        granite_api_port: 8976,
    }
}

/// The bit pattern of the default silence threshold, 0.015.
pub const DEFAULT_SILENCE_THRESHOLD_BITS: u64 = 0x3f8e_b851_eb85_1eb8;

/// What stands for a transcription mode that was not kept.
pub fn default_transcription_mode() -> (mode: String)
    ensures
        mode@ == "local"@,
{
    "local".to_string()
}

/// What stands for a cloud provider that was not kept.
pub fn default_cloud_provider() -> (provider: String)
    ensures
        provider@ == "openai"@,
{
    "openai".to_string()
}

/// What stands for a local engine that was not kept.
pub fn default_local_engine() -> (engine: String)
    ensures
        engine@ == "whisper"@,
{
    "whisper".to_string()
}

/// What stands for a Granite port that was not kept.
pub fn default_granite_port() -> (port: u16)
    ensures
        port == 8976,
{
    8976
}

impl Default for AppSettings {
    /// The settings of a first run.
    fn default() -> (settings: Self)
        ensures
            settings@ == default_settings(),
    {
        proof {
            reveal_strlit("");
        }
        let settings = AppSettings {
            model: "tiny.en".to_string(),
            language: "en".to_string(),
            hotkey: "CommandOrControl+Shift+Space".to_string(),
            quit_hotkey: "CommandOrControl+Shift+Q".to_string(),
            microphone_id: String::new(),
            vad_silence_threshold: Float64 { bits: DEFAULT_SILENCE_THRESHOLD_BITS },
            vad_silence_frames: 45,
            transcription_mode: default_transcription_mode(),
            cloud_provider: default_cloud_provider(),
            cloud_api_key: String::new(),
            pill_positions: PillPositions::new(),
            local_engine: default_local_engine(),
            granite_api_port: default_granite_port(),
        };
        assert(""@ =~= Seq::<char>::empty());
        settings
    }
}

impl Clone for AppSettings {
    fn clone(&self) -> (copy: Self)
        ensures
            copy@ == self@,
    {
        AppSettings {
            model: self.model.clone(),
            language: self.language.clone(),
            hotkey: self.hotkey.clone(),
            quit_hotkey: self.quit_hotkey.clone(),
            microphone_id: self.microphone_id.clone(),
            vad_silence_threshold: self.vad_silence_threshold,
            vad_silence_frames: self.vad_silence_frames,
            transcription_mode: self.transcription_mode.clone(),
            cloud_provider: self.cloud_provider.clone(),
            cloud_api_key: self.cloud_api_key.clone(),
            pill_positions: self.pill_positions.clone(),
            local_engine: self.local_engine.clone(),
            granite_api_port: self.granite_api_port,
        }
    }
}

/// The settings in the store: each is there or not.
pub struct StoredSettings {
    pub model: Option<String>,
    pub language: Option<String>,
    pub hotkey: Option<String>,
    pub quit_hotkey: Option<String>,
    pub microphone_id: Option<String>,
    pub vad_silence_threshold: Option<Float64>,
    pub vad_silence_frames: Option<u32>,
    pub transcription_mode: Option<String>,
    pub cloud_provider: Option<String>,
    pub cloud_api_key: Option<String>,
    pub pill_positions: Option<PillPositions>,
    pub local_engine: Option<String>,
    pub granite_api_port: Option<u16>,
}

impl StoredSettings {
    /// Whether all those are there for which nothing else can stand.
    pub open spec fn complete(self) -> bool {
        &&& self.model is Some
        &&& self.language is Some
        &&& self.hotkey is Some
        &&& self.quit_hotkey is Some
        &&& self.microphone_id is Some
        &&& self.vad_silence_threshold is Some
        &&& self.vad_silence_frames is Some
    }

    /// Whether all of `settings` are there.
    pub open spec fn holds(self, settings: SettingsView) -> bool {
        &&& self.complete()
        &&& self.transcription_mode is Some
        &&& self.cloud_provider is Some
        &&& self.cloud_api_key is Some
        &&& self.pill_positions is Some
        &&& self.local_engine is Some
        &&& self.granite_api_port is Some
        &&& self.filled() == settings
    }

    /// The settings, with what stands for those that are not there.
    pub open spec fn filled(self) -> SettingsView {
        SettingsView {
            model: self.model->0@,
            language: self.language->0@,
            hotkey: self.hotkey->0@,
            quit_hotkey: self.quit_hotkey->0@,
            microphone_id: self.microphone_id->0@,
            vad_silence_threshold: self.vad_silence_threshold->0,
            vad_silence_frames: self.vad_silence_frames->0,
            transcription_mode: match self.transcription_mode {
                Some(mode) => mode@,
                None => default_settings().transcription_mode,
            },
            cloud_provider: match self.cloud_provider {
                Some(provider) => provider@,
                None => default_settings().cloud_provider,
            },
            cloud_api_key: match self.cloud_api_key {
                Some(key) => key@,
                None => default_settings().cloud_api_key,
            },
            pill_positions: match self.pill_positions {
                Some(positions) => positions@,
                None => default_settings().pill_positions,
            },
            local_engine: match self.local_engine {
                Some(engine) => engine@,
                None => default_settings().local_engine,
            },
            granite_api_port: match self.granite_api_port {
                Some(port) => port,
                None => default_settings().granite_api_port,
            },
        }
    }
}

/// The settings to run with, given what is in the store.
pub open spec fn loaded_from(stored: Option<StoredSettings>) -> SettingsView {
    match stored {
        Some(s) => if s.complete() {
            s.filled()
        } else {
            default_settings()
        },
        None => default_settings(),
    }
}

/// The settings to run with: those in the store, or those of a first run if there are none in the
/// store that can be read, or if one is missing for which nothing else can stand.
pub fn load_settings(stored: Option<StoredSettings>) -> (settings: AppSettings)
    ensures
        settings@ == loaded_from(stored),
{
    let Some(s) = stored else {
        return AppSettings::default();
    };
    let Some(model) = s.model else {
        return AppSettings::default();
    };
    let Some(language) = s.language else {
        return AppSettings::default();
    };
    let Some(hotkey) = s.hotkey else {
        return AppSettings::default();
    };
    let Some(quit_hotkey) = s.quit_hotkey else {
        return AppSettings::default();
    };
    let Some(microphone_id) = s.microphone_id else {
        return AppSettings::default();
    };
    let Some(vad_silence_threshold) = s.vad_silence_threshold else {
        return AppSettings::default();
    };
    let Some(vad_silence_frames) = s.vad_silence_frames else {
        return AppSettings::default();
    };
    proof {
        reveal_strlit("");
        assert(""@ =~= Seq::<char>::empty());
    }
    AppSettings {
        model,
        language,
        hotkey,
        quit_hotkey,
        microphone_id,
        vad_silence_threshold,
        vad_silence_frames,
        transcription_mode: match s.transcription_mode {
            Some(mode) => mode,
            None => default_transcription_mode(),
        },
        cloud_provider: match s.cloud_provider {
            Some(provider) => provider,
            None => default_cloud_provider(),
        },
        cloud_api_key: match s.cloud_api_key {
            Some(key) => key,
            None => String::new(),
        },
        pill_positions: match s.pill_positions {
            Some(positions) => positions,
            None => PillPositions::new(),
        },
        local_engine: match s.local_engine {
            Some(engine) => engine,
            None => default_local_engine(),
        },
        granite_api_port: match s.granite_api_port {
            Some(port) => port,
            None => default_granite_port(),
        },
    }
}

/// What goes into the store: every setting is there, and loading them gives the same settings.
pub fn save_settings(settings: &AppSettings) -> (stored: StoredSettings)
    ensures
        stored.holds(settings@),
        loaded_from(Some(stored)) == settings@,
{
    let s = settings.clone();
    StoredSettings {
        model: Some(s.model),
        language: Some(s.language),
        hotkey: Some(s.hotkey),
        quit_hotkey: Some(s.quit_hotkey),
        microphone_id: Some(s.microphone_id),
        vad_silence_threshold: Some(s.vad_silence_threshold),
        vad_silence_frames: Some(s.vad_silence_frames),
        transcription_mode: Some(s.transcription_mode),
        cloud_provider: Some(s.cloud_provider),
        cloud_api_key: Some(s.cloud_api_key),
        pill_positions: Some(s.pill_positions),
        local_engine: Some(s.local_engine),
        granite_api_port: Some(s.granite_api_port),
    }
}

/// Why settings could not be kept.
pub enum SaveError {
    /// The store could not be opened.
    Open(String),
    /// The settings could not be written out.
    Serialize(String),
    /// The store could not be saved.
    Save(String),
}

impl SaveError {
    /// What the user is told.
    pub open spec fn text(self) -> Seq<char> {
        match self {
            SaveError::Open(e) => "Failed to open store: "@ + e@,
            SaveError::Serialize(e) => "Serialize error: "@ + e@,
            SaveError::Save(e) => "Store save error: "@ + e@,
        }
    }

    /// What the user is told.
    pub fn message(&self) -> (m: String)
        ensures
            m@ == self.text(),
    {
        match self {
            SaveError::Open(e) => "Failed to open store: ".to_string().concat(e.as_str()),
            SaveError::Serialize(e) => "Serialize error: ".to_string().concat(e.as_str()),
            SaveError::Save(e) => "Store save error: ".to_string().concat(e.as_str()),
        }
    }
}

/// The settings that the application runs with.
pub struct SettingsState {
    pub current: AppSettings,
}

/// The settings that the application runs with.
pub fn get_settings(state: &SettingsState) -> (settings: AppSettings)
    ensures
        settings@ == state.current@,
{
    state.current.clone()
}

/// Runs with `settings` from now on, if they could be kept; `kept` says whether they could. Where
/// this returns `Ok`, the other windows are to be told.
pub fn set_settings(
    state: &mut SettingsState,
    settings: AppSettings,
    kept: Result<(), SaveError>,
) -> (done: Result<(), String>)
    ensures
        match kept {
            Ok(()) => done is Ok && final(state).current == settings,
            Err(e) => done is Err && done->Err_0@ == e.text() && *final(state) == *old(state),
        },
{
    match kept {
        Ok(()) => {
            state.current = settings;
            Ok(())
        },
        Err(e) => Err(e.message()),
    }
}

/// Keeps a pill position for a monitor, and returns the settings that are to be stored.
pub fn save_pill_position(
    state: &mut SettingsState,
    fingerprint: String,
    position: PillPosition,
) -> (settings: AppSettings)
    ensures
        final(state).current@ == (SettingsView {
            pill_positions: old(state).current@.pill_positions.insert(fingerprint@, position),
            ..old(state).current@
        }),
        settings@ == final(state).current@,
{
    let mut positions = state.current.pill_positions.clone();
    positions.insert(fingerprint, position);
    state.current.pill_positions = positions;
    state.current.clone()
}

/// No two models have the same id.
pub proof fn model_ids_are_distinct(i: int, j: int)
    requires
        0 <= i < j < models().len(),
    ensures
        models()[i].id != models()[j].id,
{
    reveal_strlit("tiny.en");
    reveal_strlit("tiny");
    reveal_strlit("base.en");
    reveal_strlit("base");
    reveal_strlit("small.en");
    reveal_strlit("small");
    reveal_strlit("medium.en");
    reveal_strlit("medium");
    reveal_strlit("large-v3-turbo");
    assert("tiny.en"@[0] != "base.en"@[0]);
    assert("tiny"@[0] != "base"@[0]);
}

/// Models with different ids are kept in different files, whatever the ids.
pub proof fn model_files_are_distinct(a: Seq<char>, b: Seq<char>)
    requires
        a != b,
    ensures
        model_filename(a) != model_filename(b),
        model_file(a) != model_file(b),
{
    reveal_strlit("ggml-");
    reveal_strlit(".bin");
    if model_filename(a) == model_filename(b) {
        assert(model_filename(a).len() == 5 + a.len() + 4);
        assert(model_filename(b).len() == 5 + b.len() + 4);
        assert(model_filename(a).subrange(5, 5 + a.len() as int) =~= a);
        assert(model_filename(b).subrange(5, 5 + b.len() as int) =~= b);
    }
    if model_file(a) == model_file(b) {
        assert(model_file(a)[1] == model_file(b)[1]);
    }
}

/// Settings that are kept come back as they were.
pub proof fn kept_settings_come_back(stored: StoredSettings, settings: SettingsView)
    requires
        stored.holds(settings),
    ensures
        loaded_from(Some(stored)) == settings,
{
}

/// The model of a first run is one that can be chosen.
pub proof fn default_model_can_be_chosen()
    ensures
        is_known(default_settings().model),
{
    assert(models()[0].id == default_settings().model);
}

/// To remove the file of one model leaves that model off the disk, and every other as it is.
pub proof fn deleting_a_model_keeps_the_others(
    id: Seq<char>,
    other: Seq<char>,
    files: Set<Seq<Seq<char>>>,
)
    requires
        id != other,
    ensures
        !files.remove(model_file(id)).contains(model_file(id)),
        files.remove(model_file(id)).contains(model_file(other)) == files.contains(
            model_file(other),
        ),
{
    model_files_are_distinct(id, other);
}

/// What is listed of the first models is on disk and among them, and what is on disk and among them
/// is listed.
proof fn downloaded_among(list: Seq<ModelView>, files: Set<Seq<Seq<char>>>, id: Seq<char>)
    requires
        forall|i: int|
            0 <= i < list.len() ==> #[trigger] list[i].filename == model_filename(list[i].id),
    ensures
        downloaded_ids(list, files).contains(id) <==> files.contains(model_file(id)) && exists|i: int|
            0 <= i < list.len() && #[trigger] list[i].id == id,
    decreases list.len(),
{
    let ids = downloaded_ids(list, files);
    if list.len() > 0 {
        let front = list.drop_last();
        let earlier = downloaded_ids(front, files);
        assert forall|i: int| 0 <= i < front.len() implies #[trigger] front[i].filename
            == model_filename(front[i].id) by {
            assert(front[i] == list[i]);
        }
        downloaded_among(front, files, id);
        let last = list[list.len() - 1];
        assert(last.filename == model_filename(last.id));
        if ids.contains(id) {
            let k = choose|k: int| 0 <= k < ids.len() && ids[k] == id;
            if k < earlier.len() {
                assert(earlier[k] == id);
                let i = choose|i: int| 0 <= i < front.len() && #[trigger] front[i].id == id;
                assert(list[i].id == id);
            } else {
                assert(list[list.len() - 1].id == id);
            }
        }
        if files.contains(model_file(id)) && exists|i: int|
            0 <= i < list.len() && #[trigger] list[i].id == id {
            let i = choose|i: int| 0 <= i < list.len() && #[trigger] list[i].id == id;
            if i < front.len() {
                assert(front[i].id == id);
                let k = choose|k: int| 0 <= k < earlier.len() && earlier[k] == id;
                assert(ids[k] == id);
            } else {
                assert(ids[ids.len() - 1] == id);
            }
        }
    }
}

/// The list of models on disk names just those that can be chosen and are on disk.
pub proof fn downloaded_list_is_right(files: Set<Seq<Seq<char>>>, id: Seq<char>)
    ensures
        downloaded_ids(models(), files).contains(id) <==> is_known(id) && files.contains(
            model_file(id),
        ),
{
    let list = models();
    assert forall|i: int| 0 <= i < list.len() implies #[trigger] list[i].filename == model_filename(
        list[i].id,
    ) by {
        known_model_file(list[i]);
    }
    downloaded_among(list, files, id);
}

/// A model's file is named by the model: its id stands between `ggml-` and `.bin`, in the directory
/// of the models, and is where the model is fetched from.
pub proof fn model_is_named_by_its_id(id: &str, label: &str, size_mb: u32, info: ModelInfo)
    requires
        call_ensures(ModelInfo::new, (id, label, size_mb), info),
    ensures
        info.id@ == id@,
        info.label@ == label@,
        info.size_mb == size_mb,
        info.filename@ == "ggml-"@ + id@ + ".bin"@,
        info.url@ == "https://huggingface.co/ggerganov/whisper.cpp/resolve/main/"@ + info.filename@,
        model_file(id@) == seq!["models"@, info.filename@],
{
}

/// The models that can be chosen are these.
pub proof fn known_models_are_these(id: Seq<char>)
    ensures
        is_known(id) <==> (id == "tiny.en"@
            || id == "tiny"@
            || id == "base.en"@
            || id == "base"@
            || id == "small.en"@
            || id == "small"@
            || id == "medium.en"@
            || id == "medium"@
            || id == "large-v3-turbo"@),
{
    assert(models()[0].id == "tiny.en"@);
    assert(models()[1].id == "tiny"@);
    assert(models()[2].id == "base.en"@);
    assert(models()[3].id == "base"@);
    assert(models()[4].id == "small.en"@);
    assert(models()[5].id == "small"@);
    assert(models()[6].id == "medium.en"@);
    assert(models()[7].id == "medium"@);
    assert(models()[8].id == "large-v3-turbo"@);
    if is_known(id) {
        let i = choose|i: int| 0 <= i < models().len() && #[trigger] models()[i].id == id;
        assert(0 <= i < 9);
    }
}

/// A model is found by its own id and no other.
pub proof fn model_is_found_by_its_id(id: &str, found: Option<ModelInfo>)
    requires
        call_ensures(find_model, (id,), found),
    ensures
        found is Some <==> is_known(id@),
        found matches Some(info) ==> info.id@ == id@ && info.filename@ == "ggml-"@ + id@ + ".bin"@,
{
    if let Some(info) = found {
        known_model_file(info@);
    }
}

/// The list of models on disk is the list of models without those that are not there: one after the
/// other, none twice, in the order of the list.
pub proof fn downloaded_models_keep_their_order(list: Seq<ModelView>, files: Set<Seq<Seq<char>>>)
    ensures
        downloaded_ids(list, files) == list.filter(
            |m: ModelView| files.contains(seq!["models"@, m.filename]),
        ).map_values(|m: ModelView| m.id),
    decreases list.len(),
{
    let there = |m: ModelView| files.contains(seq!["models"@, m.filename]);
    let id_of = |m: ModelView| m.id;
    reveal(Seq::filter);
    if list.len() == 0 {
        assert(list.filter(there).map_values(id_of) =~= Seq::<Seq<char>>::empty());
    } else {
        let front = list.drop_last();
        downloaded_models_keep_their_order(front, files);
        let kept = front.filter(there);
        assert(list.filter(there) == if there(list.last()) {
            kept.push(list.last())
        } else {
            kept
        });
        assert(downloaded_ids(list, files) =~= list.filter(there).map_values(id_of));
    }
}

/// A model that can be chosen is removed by its own file, if that is there; any other is an error.
pub proof fn deletion_removes_the_named_model(
    model_id: String,
    files: Inventory,
    removal: Result<Option<DataPath>, String>,
    downloaded: bool,
)
    requires
        call_ensures(delete_model, (model_id, &files), removal),
        call_ensures(is_model_downloaded, (model_id, &files), downloaded),
    ensures
        removal is Ok <==> is_known(model_id@),
        removal matches Err(e) ==> e@ == "Unknown model: "@ + model_id@,
        removal matches Ok(path) ==> {
            &&& path is Some <==> downloaded
            &&& path is Some ==> path->0@ == seq!["models"@, "ggml-"@ + model_id@ + ".bin"@]
        },
        downloaded <==> is_known(model_id@) && files@.contains(
            seq!["models"@, "ggml-"@ + model_id@ + ".bin"@],
        ),
{
    assert(seq!["models"@, "ggml-"@ + model_id@ + ".bin"@] =~= model_file(model_id@));
}

/// The settings page shows Zipformer as downloaded just where all four of its files are there.
pub proof fn shown_zipformer_has_four_files(files: Inventory, ready: bool)
    requires
        call_ensures(is_zipformer_ready, (&files,), ready),
    ensures
        ready <==> files@.contains(seq!["models"@, "zipformer-vi"@, "encoder.int8.onnx"@])
            && files@.contains(seq!["models"@, "zipformer-vi"@, "decoder.int8.onnx"@])
            && files@.contains(seq!["models"@, "zipformer-vi"@, "joiner.int8.onnx"@])
            && files@.contains(seq!["models"@, "zipformer-vi"@, "tokens.txt"@]),
{
    let wanted = zipformer_settings_files();
    assert(wanted.len() == 4);
    assert(wanted[0] == zipformer_file("encoder.int8.onnx"@));
    assert(wanted[1] == zipformer_file("decoder.int8.onnx"@));
    assert(wanted[2] == zipformer_file("joiner.int8.onnx"@));
    assert(wanted[3] == zipformer_file("tokens.txt"@));
    if ready {
        assert(files@.contains(wanted[0]) && files@.contains(wanted[1]) && files@.contains(wanted[2])
            && files@.contains(wanted[3]));
    }
}

/// The settings page shows Granite as downloaded just where its configuration is there.
pub proof fn shown_granite_has_its_configuration(files: Inventory, ready: bool)
    requires
        call_ensures(is_granite_ready, (&files,), ready),
    ensures
        ready <==> files@.contains(seq!["models"@, "granite-speech"@, "config.json"@]),
{
}

/// What is in the store is run with as it is, each setting under its own name. Of those that an older
/// version did not keep, the missing ones are as on a first run, each by itself.
pub proof fn stored_settings_are_run_with(stored: StoredSettings, settings: AppSettings)
    requires
        call_ensures(load_settings, (Some(stored),), settings),
        stored.model is Some,
        stored.language is Some,
        stored.hotkey is Some,
        stored.quit_hotkey is Some,
        stored.microphone_id is Some,
        stored.vad_silence_threshold is Some,
        stored.vad_silence_frames is Some,
    ensures
        settings.model@ == stored.model->0@,
        settings.language@ == stored.language->0@,
        settings.hotkey@ == stored.hotkey->0@,
        settings.quit_hotkey@ == stored.quit_hotkey->0@,
        settings.microphone_id@ == stored.microphone_id->0@,
        settings.vad_silence_threshold == stored.vad_silence_threshold->0,
        settings.vad_silence_frames == stored.vad_silence_frames->0,
        settings.transcription_mode@ == (match stored.transcription_mode {
            Some(kept) => kept@,
            None => "local"@,
        }),
        settings.cloud_provider@ == (match stored.cloud_provider {
            Some(kept) => kept@,
            None => "openai"@,
        }),
        settings.cloud_api_key@ == (match stored.cloud_api_key {
            Some(kept) => kept@,
            None => ""@,
        }),
        settings.local_engine@ == (match stored.local_engine {
            Some(kept) => kept@,
            None => "whisper"@,
        }),
        settings.pill_positions@ == (match stored.pill_positions {
            Some(kept) => kept@,
            None => Map::empty(),
        }),
        settings.granite_api_port == (match stored.granite_api_port {
            Some(kept) => kept,
            None => 8976,
        }),
{
}

/// Where one of the settings that nothing else can stand for is missing, or all are, the settings
/// are those of a first run.
pub proof fn incomplete_store_is_a_first_run(
    stored: Option<StoredSettings>,
    settings: AppSettings,
    first: AppSettings,
)
    requires
        call_ensures(load_settings, (stored,), settings),
        call_ensures(AppSettings::default, (), first),
        stored matches Some(s) ==> (s.model is None || s.language is None || s.hotkey is None || s.quit_hotkey is None || s.microphone_id is None || s.vad_silence_threshold is None || s.vad_silence_frames is None),
    ensures
        settings@ == first@,
        first.model@ == "tiny.en"@,
        first.language@ == "en"@,
        first.hotkey@ == "CommandOrControl+Shift+Space"@,
        first.quit_hotkey@ == "CommandOrControl+Shift+Q"@,
        first.transcription_mode@ == "local"@,
        first.local_engine@ == "whisper"@,
        first.granite_api_port == 8976,
{
}

/// What is kept is just what is run with, each setting under its own name.
pub proof fn settings_are_kept_one_by_one(settings: AppSettings, stored: StoredSettings)
    requires
        call_ensures(save_settings, (&settings,), stored),
    ensures
        stored.model is Some && stored.model->0@ == settings.model@,
        stored.language is Some && stored.language->0@ == settings.language@,
        stored.hotkey is Some && stored.hotkey->0@ == settings.hotkey@,
        stored.quit_hotkey is Some && stored.quit_hotkey->0@ == settings.quit_hotkey@,
        stored.microphone_id is Some && stored.microphone_id->0@ == settings.microphone_id@,
        stored.transcription_mode is Some && stored.transcription_mode->0@ == settings.transcription_mode@,
        stored.cloud_provider is Some && stored.cloud_provider->0@ == settings.cloud_provider@,
        stored.cloud_api_key is Some && stored.cloud_api_key->0@ == settings.cloud_api_key@,
        stored.local_engine is Some && stored.local_engine->0@ == settings.local_engine@,
        stored.pill_positions is Some && stored.pill_positions->0@ == settings.pill_positions@,
        stored.vad_silence_threshold == Some(settings.vad_silence_threshold),
        stored.vad_silence_frames == Some(settings.vad_silence_frames),
        stored.granite_api_port == Some(settings.granite_api_port),
{
    assert(stored.filled() == settings@);
    assert(stored.filled().pill_positions == settings@.pill_positions);
}

/// What kept the settings from being kept is told with the reason at its end.
pub proof fn save_errors_tell_the_reason(e: String)
    ensures
        SaveError::Open(e).text() == "Failed to open store: "@ + e@,
        SaveError::Serialize(e).text() == "Serialize error: "@ + e@,
        SaveError::Save(e).text() == "Store save error: "@ + e@,
{
}

/// A copy of settings says the same of each of them.
pub proof fn settings_are_copied_whole(settings: AppSettings, copy: AppSettings)
    requires
        call_ensures(AppSettings::clone, (&settings,), copy),
    ensures
        copy.model@ == settings.model@,
        copy.language@ == settings.language@,
        copy.hotkey@ == settings.hotkey@,
        copy.quit_hotkey@ == settings.quit_hotkey@,
        copy.microphone_id@ == settings.microphone_id@,
        copy.transcription_mode@ == settings.transcription_mode@,
        copy.cloud_provider@ == settings.cloud_provider@,
        copy.cloud_api_key@ == settings.cloud_api_key@,
        copy.local_engine@ == settings.local_engine@,
        copy.pill_positions@ == settings.pill_positions@,
        copy.vad_silence_threshold == settings.vad_silence_threshold,
        copy.vad_silence_frames == settings.vad_silence_frames,
        copy.granite_api_port == settings.granite_api_port,
{
    assert(copy@.model == settings@.model);
    assert(copy@ == settings@);
    assert(copy@.pill_positions == settings@.pill_positions);
}

/// What kept a model from being deleted is told whole.
pub proof fn failed_deletion_is_told(detail: &str, message: String)
    requires
        call_ensures(delete_failed, (detail,), message),
    ensures
        message@ == "Failed to delete model: "@ + detail@,
{
}

} // verus!
