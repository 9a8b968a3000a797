use v_voice::reply::ProgramOutput;
use v_voice::run::{ProgramRun, RunAction, RunEngine, RunEvent};
use v_voice::wav::WavTarget;

fn output(success: bool) -> ProgramOutput {
    ProgramOutput { success, stdout: b" said \n".to_vec(), stderr: b" why \n".to_vec() }
}

fn go(run: &mut ProgramRun, event: RunEvent) -> RunAction {
    assert!(run.awaits(&event));
    run.step(event)
}

fn outcome(action: RunAction) -> Result<String, String> {
    match action {
        RunAction::Done(result) => result,
        _ => panic!("the transcription went on"),
    }
}

#[test]
fn recordings_are_written_for_their_engines() {
    assert!(RunEngine::Whisper.target() == WavTarget::Recording);
    assert!(RunEngine::WhisperPartial.target() == WavTarget::PartialRecording);
    assert!(RunEngine::Zipformer.target() == WavTarget::ZipformerRecording);
}

#[test]
fn a_transcript_is_told_once_its_recording_is_gone() {
    for engine in [RunEngine::Whisper, RunEngine::WhisperPartial, RunEngine::Zipformer] {
        let mut run = ProgramRun::new(engine);
        assert!(matches!(go(&mut run, RunEvent::Recorded), RunAction::Run));
        let action = go(&mut run, RunEvent::Ended(output(true)));
        assert!(matches!(action, RunAction::RemoveRecording));
        assert!(!run.awaits(&RunEvent::Recorded));
        assert_eq!(outcome(go(&mut run, RunEvent::Removed)), Ok("said".to_string()));
        assert!(!run.awaits(&RunEvent::Removed));
    }
}

#[test]
fn a_program_that_ends_badly_is_explained() {
    let expected = [
        (RunEngine::Whisper, "whisper-cli failed:  why \n"),
        (RunEngine::WhisperPartial, "whisper-cli failed: why"),
        (RunEngine::Zipformer, "sherpa-onnx failed:  why \n"),
    ];
    for (engine, text) in expected {
        let mut run = ProgramRun::new(engine);
        go(&mut run, RunEvent::Recorded);
        go(&mut run, RunEvent::Ended(output(false)));
        assert_eq!(outcome(go(&mut run, RunEvent::Removed)), Err(text.to_string()));
        assert_eq!(engine.transcript(&output(false)), Err(text.to_string()));
    }
}

#[test]
fn a_program_that_cannot_be_run_is_explained() {
    let expected = [
        (RunEngine::Whisper, "Failed to run whisper-cli: missing"),
        (RunEngine::WhisperPartial, "Failed to run whisper-cli: missing"),
        (RunEngine::Zipformer, "Failed to run sherpa-onnx: missing"),
    ];
    for (engine, text) in expected {
        let mut run = ProgramRun::new(engine);
        go(&mut run, RunEvent::Recorded);
        let action = go(&mut run, RunEvent::NotRun("missing".to_string()));
        assert_eq!(outcome(action), Err(text.to_string()));
    }
}

#[test]
fn without_a_recording_nothing_is_run() {
    let mut run = ProgramRun::new(RunEngine::Whisper);
    let action = go(&mut run, RunEvent::NotRecorded("disk full".to_string()));
    assert_eq!(outcome(action), Err("disk full".to_string()));
}
