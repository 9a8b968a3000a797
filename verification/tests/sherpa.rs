use v_voice::reply::ProgramOutput;
use v_voice::request::Arg;
use v_voice::sherpa::{
    is_dll, sherpa_archive, sherpa_extract_command, sherpa_extract_dir, sherpa_extract_result,
    InstallAction, InstallError, InstallEvent, LibrarySource, SherpaInstall, SherpaProgram,
    SHERPA_ONNX_PACKAGE_DIR,
};

fn go(install: &mut SherpaInstall, event: InstallEvent) -> InstallAction {
    assert!(install.awaits(&event));
    install.step(event)
}

fn fails(action: InstallAction) -> String {
    match action {
        InstallAction::Finish(Err(error)) => error.message(),
        _ => panic!("the installation went on"),
    }
}

fn failed() -> InstallEvent {
    InstallEvent::Failed("x".to_string())
}

/// An installation after `done` steps that went well, the package having both programs.
fn after(done: usize) -> SherpaInstall {
    let mut install = SherpaInstall::new();
    for step in 0..done {
        if step == 4 {
            go(&mut install, InstallEvent::Programs { offline: true, streaming: true });
        } else {
            go(&mut install, InstallEvent::Done);
        }
    }
    install
}

#[test]
fn the_package_is_unpacked_in_the_temporary_directory() {
    assert_eq!(sherpa_archive(), "sherpa-onnx-package.tar.bz2");
    assert_eq!(sherpa_extract_dir(), "sherpa-onnx-extract");
    assert_eq!(SHERPA_ONNX_PACKAGE_DIR, "sherpa-onnx-v1.12.29-win-x64-shared-MD-Release-no-tts");
    let run = sherpa_extract_command();
    assert!(matches!(run.program, Arg::Text(name) if name == "tar"));
    assert_eq!(run.args.list.len(), 4);
    assert!(matches!(&run.args.list[0], Arg::Text(t) if t == "-xf"));
    assert!(matches!(&run.args.list[1], Arg::Temp(t) if t == "sherpa-onnx-package.tar.bz2"));
    assert!(matches!(&run.args.list[2], Arg::Text(t) if t == "-C"));
    assert!(matches!(&run.args.list[3], Arg::Temp(t) if t == "sherpa-onnx-extract"));
}

#[test]
fn what_tar_says_is_kept() {
    let output = |success| ProgramOutput { success, stdout: vec![], stderr: b"bad\xff".to_vec() };
    assert_eq!(sherpa_extract_result(&output(true)), Ok(()));
    assert_eq!(sherpa_extract_result(&output(false)), Err("bad\u{fffd}".to_string()));
}

#[test]
fn libraries_end_in_dll() {
    assert!(is_dll("onnxruntime.dll"));
    assert!(!is_dll("onnxruntime.lib"));
    assert!(!is_dll("dll"));
}

#[test]
fn sherpa_is_installed_step_by_step() {
    let mut install = SherpaInstall::new();
    assert!(matches!(go(&mut install, InstallEvent::Done), InstallAction::RemovePackage));
    assert!(matches!(go(&mut install, failed()), InstallAction::MakeDirectory));
    assert!(matches!(go(&mut install, InstallEvent::Done), InstallAction::Extract));
    assert!(matches!(go(&mut install, InstallEvent::Done), InstallAction::FindPrograms));
    assert!(matches!(
        go(&mut install, InstallEvent::Programs { offline: true, streaming: true }),
        InstallAction::CopyProgram(SherpaProgram::Offline)
    ));
    assert!(matches!(
        go(&mut install, InstallEvent::Done),
        InstallAction::CopyLibraries(LibrarySource::Lib)
    ));
    assert!(matches!(
        go(&mut install, InstallEvent::Done),
        InstallAction::CopyLibraries(LibrarySource::Bin)
    ));
    assert!(matches!(go(&mut install, InstallEvent::Done), InstallAction::RemoveArchive));
    assert!(matches!(go(&mut install, failed()), InstallAction::RemovePackage));
    assert!(matches!(go(&mut install, failed()), InstallAction::Finish(Ok(()))));
    assert!(!install.awaits(&InstallEvent::Done));
}

#[test]
fn the_streaming_program_stands_in() {
    let mut install = after(4);
    assert!(matches!(
        go(&mut install, InstallEvent::Programs { offline: false, streaming: true }),
        InstallAction::CopyProgram(SherpaProgram::Streaming)
    ));
    assert_eq!(fails(go(&mut install, failed())), "Failed to copy sherpa-onnx.exe: x");
    assert_eq!(SherpaProgram::Offline.file_name(), "sherpa-onnx-offline.exe");
    assert_eq!(SherpaProgram::Streaming.file_name(), "sherpa-onnx.exe");
}

#[test]
fn failures_of_an_installation_are_explained() {
    assert_eq!(fails(go(&mut after(0), failed())), "x");
    assert_eq!(fails(go(&mut after(2), failed())), "Failed to create extract dir: x");
    assert_eq!(fails(go(&mut after(3), failed())), "Failed to run tar: x");
    assert_eq!(
        fails(go(&mut after(3), InstallEvent::TarFailed("y".to_string()))),
        "Failed to extract sherpa-onnx package: y"
    );
    assert_eq!(
        fails(go(&mut after(4), InstallEvent::Programs { offline: false, streaming: false })),
        "sherpa-onnx-offline.exe not found in extracted package"
    );
    assert_eq!(fails(go(&mut after(5), failed())), "Failed to copy sherpa-onnx-offline.exe: x");
    assert_eq!(fails(go(&mut after(6), failed())), "Failed to read lib dir: x");
    assert_eq!(fails(go(&mut after(7), failed())), "Failed to read extracted bin dir: x");
    assert_eq!(InstallError::Fetch("z".to_string()).message(), "z");
}
