use v_voice::download::{
    download_model, download_zipformer, model_marks, part_name, report_progress, skipped_mark,
    AtomicWrite, DownloadError, FileDownload, MemoryDownload, Progress, ProgressRange, SetupError, TransferAction,
    TransferEvent, TransferStep, WriteAction, PROGRESS_DONE, SHERPA_ONNX_PACKAGE_URL, WHISPER_CLI_ZIP_URL,
};
use v_voice::paths::{DataPath, Inventory};
use v_voice::settings::zipformer_path;
use v_voice::transcribe::{cli_path, is_ready, model_path, server_path};
use v_voice::zipformer::sherpa_cli_path;

fn inventory(paths: &[DataPath]) -> Inventory {
    let mut seen = Inventory::new();
    for path in paths {
        seen.add(path.clone());
    }
    seen
}

fn range(start: u32, end: u32) -> ProgressRange {
    ProgressRange { start, end }
}

fn tokens() -> Option<String> {
    Some("token 1\n".repeat(20))
}

fn text(error: &DownloadError) -> String {
    error.message("model", "/d", "/d/m.part")
}

fn go(transfer: &mut FileDownload, event: TransferEvent) -> TransferStep {
    assert!(transfer.awaits(&event));
    transfer.step(event)
}

fn fails(step: &TransferStep) -> String {
    match &step.action {
        TransferAction::Finish(Err(error)) => text(error),
        _ => panic!("the transfer went on"),
    }
}

/// A transfer that waits for its first chunk of ten bytes.
fn receiving() -> FileDownload {
    let mut transfer = FileDownload::new();
    go(&mut transfer, TransferEvent::Done);
    go(&mut transfer, TransferEvent::Done);
    go(&mut transfer, TransferEvent::Responded(10));
    go(&mut transfer, TransferEvent::Done);
    transfer
}

#[test]
fn ranges_are_slices_of_the_bar() {
    assert!(ProgressRange::new(20, 40) == range(20, 40));
    assert!(ProgressRange::full() == range(0, 100));
}

#[test]
fn a_missing_model_and_missing_programs_share_the_bar() {
    let plan = download_model("base.en", &inventory(&[])).ok().unwrap();
    let (model, place) = plan.model.unwrap();
    assert_eq!(
        model.url,
        "https://huggingface.co/ggerganov/whisper.cpp/resolve/main/ggml-base.en.bin"
    );
    assert_eq!(model.label, "model");
    assert!(model.range == range(0, 92));
    assert_eq!(place.parts, vec!["models", "ggml-base.en.bin"]);
    let binaries = plan.binaries.unwrap();
    assert_eq!(binaries.url, WHISPER_CLI_ZIP_URL);
    assert_eq!(
        binaries.url,
        "https://github.com/ggml-org/whisper.cpp/releases/download/v1.8.3/whisper-bin-x64.zip"
    );
    assert_eq!(binaries.label, "whisper-cli");
    assert!(binaries.range == range(92, 100));
}

#[test]
fn what_is_there_is_not_fetched() {
    let model = model_path("tiny");
    let plan = download_model("tiny", &inventory(&[cli_path(), server_path()])).ok().unwrap();
    assert!(plan.model.unwrap().0.range == range(0, 100));
    assert!(plan.binaries.is_none());
    for programs in [vec![model.clone()], vec![model.clone(), cli_path()]] {
        let plan = download_model("tiny", &inventory(&programs)).ok().unwrap();
        assert!(plan.model.is_none());
        assert!(plan.binaries.unwrap().range == range(0, 100));
    }
    let all = inventory(&[model, cli_path(), server_path()]);
    assert!(is_ready("tiny", &all));
    let plan = download_model("tiny", &all).ok().unwrap();
    assert!(plan.model.is_none() && plan.binaries.is_none());
}

#[test]
fn fetching_all_makes_a_model_ready() {
    let plan = download_model("tiny", &inventory(&[])).ok().unwrap();
    let after = inventory(&[plan.model.unwrap().1, cli_path(), server_path()]);
    assert!(is_ready("tiny", &after));
}

#[test]
fn an_unknown_model_is_not_fetched() {
    let error = download_model("huge", &inventory(&[])).err().unwrap();
    assert_eq!(error, "Unknown model: huge");
}

#[test]
fn zipformer_files_share_the_bar() {
    let plan = download_zipformer(&inventory(&[]), &None).unwrap();
    let base = "https://huggingface.co/hynt/Zipformer-30M-RNNT-6000h/resolve/main";
    let expected = [
        ("encoder.int8.onnx", "encoder-epoch-20-avg-10.int8.onnx"),
        ("decoder.int8.onnx", "decoder-epoch-20-avg-10.int8.onnx"),
        ("joiner.int8.onnx", "joiner-epoch-20-avg-10.int8.onnx"),
        ("tokens.txt", "config.json"),
    ];
    assert_eq!(plan.files.len(), 4);
    for (i, (name, source)) in expected.iter().enumerate() {
        let file = &plan.files[i];
        assert_eq!(file.transfer.label, *name);
        assert_eq!(file.transfer.url, format!("{}/{}", base, source));
        assert!(file.transfer.range == range(20 * i as u32, 20 * (i as u32 + 1)));
        assert!(file.needed);
    }
    let package = plan.package.unwrap();
    assert_eq!(package.url, SHERPA_ONNX_PACKAGE_URL);
    assert_eq!(
        package.url,
        "https://github.com/k2-fsa/sherpa-onnx/releases/download/v1.12.29/sherpa-onnx-v1.12.29-win-x64-shared-MD-Release-no-tts.tar.bz2"
    );
    assert_eq!(package.label, "sherpa-onnx");
    assert!(package.range == range(80, 96));
}

#[test]
fn a_usable_zipformer_is_not_fetched() {
    let mut all = vec![sherpa_cli_path()];
    for name in ["encoder.int8.onnx", "decoder.int8.onnx", "joiner.int8.onnx", "tokens.txt"] {
        all.push(zipformer_path(name));
    }
    assert!(download_zipformer(&inventory(&all), &tokens()).is_none());
    // Tokens that are no list of tokens are fetched again.
    let plan = download_zipformer(&inventory(&all), &Some("{}".to_string())).unwrap();
    let needed: Vec<bool> = plan.files.iter().map(|file| file.needed).collect();
    assert_eq!(needed, vec![false, false, false, true]);
    assert!(plan.package.is_none());
    // The command alone is missing.
    let plan = download_zipformer(&inventory(&all[1..]), &tokens()).unwrap();
    assert!(plan.files.iter().all(|file| !file.needed));
    assert!(plan.package.is_some());
}

#[test]
fn the_bar_starts_at_nothing_where_something_is_fetched() {
    assert_eq!(PROGRESS_DONE, 100);
    let all = inventory(&[model_path("tiny"), cli_path(), server_path()]);
    assert_eq!(model_marks(&download_model("tiny", &all).ok().unwrap()), (None, 100));
    for present in [vec![], vec![model_path("tiny")], vec![cli_path(), server_path()]] {
        let plan = download_model("tiny", &inventory(&present)).ok().unwrap();
        assert_eq!(model_marks(&plan), (Some(0), 100));
    }
}

#[test]
fn a_skipped_file_moves_the_bar_to_the_end_of_its_slice() {
    let present = inventory(&[zipformer_path("decoder.int8.onnx"), zipformer_path("tokens.txt")]);
    let plan = download_zipformer(&present, &tokens()).unwrap();
    let marks: Vec<Option<u32>> = plan.files.iter().map(skipped_mark).collect();
    assert_eq!(marks, vec![None, Some(40), None, Some(80)]);
}

#[test]
fn a_part_has_its_own_name() {
    assert_eq!(part_name("ggml-tiny.bin"), "ggml-tiny.bin.part");
    assert_ne!(part_name("a"), "a");
}

#[test]
fn failures_of_a_transfer_are_explained() {
    let e = || "why".to_string();
    assert_eq!(text(&DownloadError::Directory(e())), "Failed to create /d: why");
    assert_eq!(text(&DownloadError::Request(e())), "model download failed: why");
    assert_eq!(text(&DownloadError::Create(e())), "Failed to create /d/m.part: why");
    assert_eq!(text(&DownloadError::Receive(e())), "model download error: why");
    assert_eq!(text(&DownloadError::Write(e())), "Failed to write model: why");
    assert_eq!(text(&DownloadError::Flush(e())), "Failed to flush model: why");
    assert_eq!(text(&DownloadError::Sync(e())), "Failed to sync model: why");
    assert_eq!(text(&DownloadError::Place(e())), "Failed to finalize model: why");
    assert_eq!(SetupError::Programs(e()).message(), "Failed to create bin dir: why");
    assert_eq!(SetupError::Zipformer(e()).message(), "Failed to create zipformer model dir: why");
    assert_eq!(SetupError::Granite(e()).message(), "Failed to create granite model dir: why");
}

#[test]
fn progress_is_shown_where_the_size_is_known() {
    assert!(report_progress(5, 0).is_none());
    assert!(report_progress(5, 10) == Some(Progress::Of { downloaded: 5, total: 10 }));
}

#[test]
fn a_transfer_puts_the_whole_file_in_place() {
    let mut transfer = FileDownload::new();
    assert!(matches!(go(&mut transfer, TransferEvent::Done).action, TransferAction::RemovePart));
    let step = go(&mut transfer, TransferEvent::Failed("no part".to_string()));
    assert!(matches!(step.action, TransferAction::Request));
    let step = go(&mut transfer, TransferEvent::Responded(5));
    assert!(matches!(step.action, TransferAction::CreatePart));
    assert!(matches!(go(&mut transfer, TransferEvent::Done).action, TransferAction::Receive));
    let mut written: Vec<u8> = Vec::new();
    for chunk in [vec![1u8, 2], vec![], vec![3, 4, 5]] {
        let step = go(&mut transfer, TransferEvent::Chunk(chunk.clone()));
        match step.action {
            TransferAction::Write(bytes) => written.extend(bytes),
            _ => panic!("the chunk was dropped"),
        }
        let step = go(&mut transfer, TransferEvent::Done);
        let downloaded = written.len() as u64;
        assert!(step.progress == Some(Progress::Of { downloaded, total: 5 }));
        assert!(matches!(step.action, TransferAction::Receive));
    }
    assert_eq!(written, vec![1, 2, 3, 4, 5]);
    assert!(matches!(go(&mut transfer, TransferEvent::End).action, TransferAction::Flush));
    assert!(matches!(go(&mut transfer, TransferEvent::Done).action, TransferAction::Sync));
    let step = go(&mut transfer, TransferEvent::Done);
    assert!(step.progress == Some(Progress::Complete));
    assert!(matches!(step.action, TransferAction::Place));
    let step = go(&mut transfer, TransferEvent::Done);
    assert!(matches!(step.action, TransferAction::Finish(Ok(()))));
    assert!(!transfer.awaits(&TransferEvent::Done));
}

#[test]
fn a_transfer_without_its_directory_ends_at_once() {
    let mut transfer = FileDownload::new();
    let step = go(&mut transfer, TransferEvent::Failed("denied".to_string()));
    assert_eq!(fails(&step), "Failed to create /d: denied");
}

#[test]
fn an_interrupted_transfer_removes_its_part() {
    let broken = |mut transfer: FileDownload, expected: &str| {
        let step = go(&mut transfer, TransferEvent::Failed("x".to_string()));
        assert!(matches!(step.action, TransferAction::RemovePart));
        let step = go(&mut transfer, TransferEvent::Done);
        assert_eq!(fails(&step), expected);
    };
    let mut requesting = FileDownload::new();
    go(&mut requesting, TransferEvent::Done);
    go(&mut requesting, TransferEvent::Done);
    broken(requesting, "model download failed: x");
    let mut creating = FileDownload::new();
    go(&mut creating, TransferEvent::Done);
    go(&mut creating, TransferEvent::Done);
    go(&mut creating, TransferEvent::Responded(0));
    broken(creating, "Failed to create /d/m.part: x");
    broken(receiving(), "model download error: x");
    let mut writing = receiving();
    go(&mut writing, TransferEvent::Chunk(vec![1]));
    broken(writing, "Failed to write model: x");
    let mut flushing = receiving();
    go(&mut flushing, TransferEvent::End);
    broken(flushing, "Failed to flush model: x");
    let mut syncing = receiving();
    go(&mut syncing, TransferEvent::End);
    go(&mut syncing, TransferEvent::Done);
    broken(syncing, "Failed to sync model: x");
}

#[test]
fn a_part_that_cannot_be_placed_is_an_error() {
    let mut transfer = receiving();
    go(&mut transfer, TransferEvent::End);
    go(&mut transfer, TransferEvent::Done);
    go(&mut transfer, TransferEvent::Done);
    let step = go(&mut transfer, TransferEvent::Failed("in use".to_string()));
    assert_eq!(fails(&step), "Failed to finalize model: in use");
}

#[test]
fn a_transfer_of_unknown_size_shows_no_progress() {
    let mut transfer = FileDownload::new();
    go(&mut transfer, TransferEvent::Done);
    go(&mut transfer, TransferEvent::Done);
    go(&mut transfer, TransferEvent::Responded(0));
    go(&mut transfer, TransferEvent::Done);
    go(&mut transfer, TransferEvent::Chunk(vec![1, 2, 3]));
    assert!(go(&mut transfer, TransferEvent::Done).progress.is_none());
    assert_eq!(transfer.downloaded, 3);
}

#[test]
fn small_things_are_fetched_into_memory() {
    let mut transfer = MemoryDownload::new(4);
    let shown = transfer.receive(&vec![1, 2, 3]);
    assert!(shown == Some(Progress::Of { downloaded: 3, total: 4 }));
    let shown = transfer.receive(&vec![4]);
    assert!(shown == Some(Progress::Of { downloaded: 4, total: 4 }));
    assert_eq!(transfer.bytes, vec![1, 2, 3, 4]);
    let mut unknown = MemoryDownload::new(0);
    assert!(unknown.receive(&vec![9]).is_none());
    assert_eq!(unknown.bytes, vec![9]);
}

#[test]
fn a_file_is_written_whole_or_not_at_all() {
    let mut write = AtomicWrite::new();
    assert!(matches!(write.step(None), WriteAction::Place));
    assert!(matches!(write.step(None), WriteAction::Finish(Ok(()))));

    let mut write = AtomicWrite::new();
    match write.step(Some("full".to_string())) {
        WriteAction::Finish(Err(error)) => {
            assert_eq!(error.message("a.dll", "", ""), "Failed to write a.dll: full")
        }
        _ => panic!("the write went on"),
    }

    let mut write = AtomicWrite::new();
    write.step(None);
    assert!(matches!(write.step(Some("in use".to_string())), WriteAction::RemovePart));
    match write.step(None) {
        WriteAction::Finish(Err(error)) => {
            assert_eq!(error.message("a.dll", "", ""), "Failed to finalize a.dll: in use")
        }
        _ => panic!("the write went on"),
    }
}
