//! Transcriptions by a program that reads the recording from a file.
//!
//! Such a transcription waits on outside work: the recording has to be written, the program has to
//! run, and the recording has to go again. It is therefore a machine: [`ProgramRun::step`] takes
//! what the last piece of work brought and says which one is next, until it is done.

use vstd::prelude::*;
use vstd::string::*;
use crate::reply::{
    utf8_lossy, whisper_cli_partial_transcript, whisper_cli_transcript, ProgramOutput,
};
use crate::text::{is_white, joined, lines_of, trimmed, trimmed_has_clean_ends};
use crate::wav::WavTarget;
use crate::zipformer::{speech_lines, spoken_in, zipformer_transcript};

verus! {

/// An engine that is a program.
#[derive(Clone, Copy, PartialEq, Eq, Structural)]
pub enum RunEngine {
    /// The whisper command, for the final transcript.
    Whisper,
    /// The whisper command, for a transcript of what was said so far.
    WhisperPartial,
    /// sherpa-onnx.
    Zipformer,
}

impl RunEngine {
    /// What is said first of a program that could not be run.
    pub open spec fn not_run(self) -> Seq<char> {
        match self {
            RunEngine::Whisper => "Failed to run whisper-cli: "@,
            RunEngine::WhisperPartial => "Failed to run whisper-cli: "@,
            RunEngine::Zipformer => "Failed to run sherpa-onnx: "@,
        }
    }

    /// What is told when the program has ended: its transcript, or its complaint.
    pub open spec fn verdict(self, output: ProgramOutput) -> Result<Seq<char>, Seq<char>> {
        match self {
            RunEngine::Whisper => if output.success {
                Ok(trimmed(utf8_lossy(output.stdout@)))
            } else {
                Err("whisper-cli failed: "@ + utf8_lossy(output.stderr@))
            },
            RunEngine::WhisperPartial => if output.success {
                Ok(trimmed(utf8_lossy(output.stdout@)))
            } else {
                Err("whisper-cli failed: "@ + trimmed(utf8_lossy(output.stderr@)))
            },
            RunEngine::Zipformer => if output.success {
                Ok(spoken_in(utf8_lossy(output.stdout@)))
            } else {
                Err("sherpa-onnx failed: "@ + utf8_lossy(output.stderr@))
            },
        }
    }

    /// What the recording is written for.
    pub fn target(self) -> (target: WavTarget)
        ensures
            target == match self {
                RunEngine::Whisper => WavTarget::Recording,
                RunEngine::WhisperPartial => WavTarget::PartialRecording,
                RunEngine::Zipformer => WavTarget::ZipformerRecording,
            },
    {
        match self {
            RunEngine::Whisper => WavTarget::Recording,
            RunEngine::WhisperPartial => WavTarget::PartialRecording,
            RunEngine::Zipformer => WavTarget::ZipformerRecording,
        }
    }

    /// What is told of a program that could not be run.
    fn not_run_message(self, detail: &str) -> (m: String)
        ensures
            m@ == self.not_run() + detail@,
    {
        let heading = match self {
            RunEngine::Whisper => "Failed to run whisper-cli: ",
            RunEngine::WhisperPartial => "Failed to run whisper-cli: ",
            RunEngine::Zipformer => "Failed to run sherpa-onnx: ",
        };
        heading.to_string().concat(detail)
    }

    /// What is told when the program has ended.
    pub fn transcript(self, output: &ProgramOutput) -> (result: Result<String, String>)
        ensures
            told(result) == self.verdict(*output),
    {
        match self {
            RunEngine::Whisper => whisper_cli_transcript(output),
            RunEngine::WhisperPartial => whisper_cli_partial_transcript(output),
            RunEngine::Zipformer => zipformer_transcript(output),
        }
    }
}

/// What a result says.
pub open spec fn told(result: Result<String, String>) -> Result<Seq<char>, Seq<char>> {
    match result {
        Ok(text) => Ok(text@),
        Err(e) => Err(e@),
    }
}

/// What a transcription is waiting for.
pub enum RunStage {
    /// The recording.
    Recording,
    /// The end of the program.
    Running,
    /// The removal of the recording; this is what the program left behind.
    Removing(ProgramOutput),
    /// Nothing more.
    Finished,
}

/// What a piece of outside work brought.
pub enum RunEvent {
    /// The recording is written.
    Recorded,
    /// The recording could not be written; this is what to tell.
    NotRecorded(String),
    /// The program has ended.
    Ended(ProgramOutput),
    /// The program could not be run.
    NotRun(String),
    /// The recording is removed, or could not be.
    Removed,
}

/// The next piece of outside work.
pub enum RunAction {
    /// Run the program.
    Run,
    /// Remove the recording. How that goes does not matter.
    RemoveRecording,
    /// The transcription is over.
    Done(Result<String, String>),
}

/// One transcription by a program.
pub struct ProgramRun {
    pub engine: RunEngine,
    /// What the transcription is waiting for.
    pub stage: RunStage,
}

/// Whether a transcription in `stage` can make use of `event`.
pub open spec fn run_awaits(stage: RunStage, event: RunEvent) -> bool {
    match stage {
        RunStage::Recording => event is Recorded || event is NotRecorded,
        RunStage::Running => event is Ended || event is NotRun,
        RunStage::Removing(_) => event is Removed,
        RunStage::Finished => false,
    }
}

/// Whether an awaited event leads a transcription by `engine` from `stage` to `next`, asking for
/// `action`.
pub open spec fn run_leads(
    engine: RunEngine,
    stage: RunStage,
    event: RunEvent,
    next: RunStage,
    action: RunAction,
) -> bool {
    match (stage, event) {
        (RunStage::Recording, RunEvent::Recorded) => next is Running && action is Run,
        (RunStage::Recording, RunEvent::NotRecorded(e)) => next is Finished && action
            == RunAction::Done(Err(e)),
        (RunStage::Running, RunEvent::Ended(output)) => next == RunStage::Removing(output)
            && action is RemoveRecording,
        (RunStage::Running, RunEvent::NotRun(e)) => next is Finished && (action matches
            RunAction::Done(result) && told(result) == Err::<Seq<char>, Seq<char>>(
            engine.not_run() + e@,
        )),
        (RunStage::Removing(output), _) => next is Finished && (action matches
            RunAction::Done(result) && told(result) == engine.verdict(output)),
        // No other pair is awaited.
        _ => next is Finished,
    }
}

impl ProgramRun {
    /// A transcription that first wants its recording.
    pub fn new(engine: RunEngine) -> (run: Self)
        ensures
            run.engine == engine,
            run.stage is Recording,
    {
        ProgramRun { engine, stage: RunStage::Recording }
    }

    /// Whether the transcription can make use of `event` now.
    pub fn awaits(&self, event: &RunEvent) -> (yes: bool)
        ensures
            yes == run_awaits(self.stage, *event),
    {
        match (&self.stage, event) {
            (RunStage::Recording, RunEvent::Recorded) => true,
            (RunStage::Recording, RunEvent::NotRecorded(_)) => true,
            (RunStage::Running, RunEvent::Ended(_)) => true,
            (RunStage::Running, RunEvent::NotRun(_)) => true,
            (RunStage::Removing(_), RunEvent::Removed) => true,
            _ => false,
        }
    }

    /// Takes what the last piece of work brought and says what is next.
    pub fn step(&mut self, event: RunEvent) -> (action: RunAction)
        requires
            run_awaits(old(self).stage, event),
        ensures
            final(self).engine == old(self).engine,
            run_leads(old(self).engine, old(self).stage, event, final(self).stage, action),
    {
        let mut stage = RunStage::Finished;
        std::mem::swap(&mut stage, &mut self.stage);
        match (stage, event) {
            (RunStage::Recording, RunEvent::Recorded) => {
                self.stage = RunStage::Running;
                RunAction::Run
            },
            (RunStage::Recording, RunEvent::NotRecorded(e)) => RunAction::Done(Err(e)),
            (RunStage::Running, RunEvent::Ended(output)) => {
                self.stage = RunStage::Removing(output);
                RunAction::RemoveRecording
            },
            (RunStage::Running, RunEvent::NotRun(e)) => RunAction::Done(
                Err(self.engine.not_run_message(e.as_str())),
            ),
            (RunStage::Removing(output), _) => RunAction::Done(self.engine.transcript(&output)),
            // No other pair is awaited.
            _ => RunAction::Done(Ok(String::new())),
        }
    }
}

/// How many steps a transcription has left at most.
pub open spec fn run_steps_left(stage: RunStage) -> nat {
    match stage {
        RunStage::Recording => 3,
        RunStage::Running => 2,
        RunStage::Removing(_) => 1,
        RunStage::Finished => 0,
    }
}

/// Every transcription by a program ends. It tells a transcript only once the recording was asked
/// to be removed, and the transcript is that of the program's output.
pub proof fn transcript_is_told_without_its_recording(
    engine: RunEngine,
    stage: RunStage,
    event: RunEvent,
    next: RunStage,
    action: RunAction,
)
    requires
        run_awaits(stage, event),
        run_leads(engine, stage, event, next, action),
    ensures
        run_steps_left(next) < run_steps_left(stage),
        action is Done <==> next is Finished,
        action matches RunAction::Done(Ok(text)) ==> (stage matches RunStage::Removing(output)
            && engine.verdict(output) == Ok::<Seq<char>, Seq<char>>(text@)),
        next is Removing <==> action is RemoveRecording,
{
}

/// A transcript from a program has no white space at its ends.
pub proof fn program_transcript_has_clean_ends(engine: RunEngine, output: ProgramOutput)
    ensures
        engine.verdict(output) matches Ok(text) ==> (text.len() > 0 ==> !is_white(text[0])
            && !is_white(text.last())),
{
    let printed = utf8_lossy(output.stdout@);
    trimmed_has_clean_ends(printed);
    trimmed_has_clean_ends(joined(speech_lines(lines_of(printed)), " "@));
}

/// What a program of each kind is told to have said is what it printed, and its complaint where it
/// ended badly.
pub proof fn program_is_understood(engine: RunEngine, output: ProgramOutput)
    ensures
        output.success ==> engine.verdict(output) == Ok::<Seq<char>, Seq<char>>(
            match engine {
                RunEngine::Zipformer => spoken_in(utf8_lossy(output.stdout@)),
                _ => trimmed(utf8_lossy(output.stdout@)),
            },
        ),
        !output.success ==> engine.verdict(output) == Err::<Seq<char>, Seq<char>>(
            match engine {
                RunEngine::Whisper => "whisper-cli failed: "@ + utf8_lossy(output.stderr@),
                RunEngine::WhisperPartial => "whisper-cli failed: "@ + trimmed(
                    utf8_lossy(output.stderr@),
                ),
                RunEngine::Zipformer => "sherpa-onnx failed: "@ + utf8_lossy(output.stderr@),
            },
        ),
{
}

/// A recording that was written is always run on, a program that ended is always cleaned up after,
/// and what went wrong is told whole.
pub proof fn run_goes_from_recording_to_transcript(
    engine: RunEngine,
    stage: RunStage,
    event: RunEvent,
    next: RunStage,
    action: RunAction,
)
    requires
        run_awaits(stage, event),
        run_leads(engine, stage, event, next, action),
    ensures
        event is Recorded ==> stage is Recording && next is Running && action is Run,
        event matches RunEvent::Ended(output) ==> stage is Running && next == RunStage::Removing(
            output,
        ) && action is RemoveRecording,
        event matches RunEvent::NotRecorded(e) ==> stage is Recording && action == RunAction::Done(
            Err(e),
        ),
        event matches RunEvent::NotRun(e) ==> stage is Running && (action matches RunAction::Done(
            Err(told),
        ) && told@ == (if engine == RunEngine::Zipformer {
            "Failed to run sherpa-onnx: "@
        } else {
            "Failed to run whisper-cli: "@
        }) + e@),
        event is Removed ==> (stage matches RunStage::Removing(output) && (action matches
            RunAction::Done(result) && match engine.verdict(output) {
            Ok(text) => result is Ok && result->Ok_0@ == text,
            Err(e) => result is Err && result->Err_0@ == e,
        })),
{
}

/// What is told of an output is what the engine's own reading of it gives.
pub proof fn each_engine_reads_its_own_output(
    output: ProgramOutput,
    whole: Result<String, String>,
    partial: Result<String, String>,
    speech: Result<String, String>,
    by_whisper: Result<String, String>,
    so_far: Result<String, String>,
    by_zipformer: Result<String, String>,
)
    requires
        call_ensures(whisper_cli_transcript, (&output,), whole),
        call_ensures(whisper_cli_partial_transcript, (&output,), partial),
        call_ensures(zipformer_transcript, (&output,), speech),
        call_ensures(RunEngine::transcript, (RunEngine::Whisper, &output), by_whisper),
        call_ensures(RunEngine::transcript, (RunEngine::WhisperPartial, &output), so_far),
        call_ensures(RunEngine::transcript, (RunEngine::Zipformer, &output), by_zipformer),
    ensures
        output.success ==> {
            &&& by_whisper is Ok && whole is Ok && by_whisper->Ok_0@ == whole->Ok_0@
            &&& so_far is Ok && partial is Ok && so_far->Ok_0@ == partial->Ok_0@
            &&& by_zipformer is Ok && speech is Ok && by_zipformer->Ok_0@ == speech->Ok_0@
        },
        !output.success ==> {
            &&& by_whisper is Err && whole is Err && by_whisper->Err_0@ == whole->Err_0@
            &&& so_far is Err && partial is Err && so_far->Err_0@ == partial->Err_0@
            &&& by_zipformer is Err && speech is Err && by_zipformer->Err_0@ == speech->Err_0@
        },
{
    assert(told(by_whisper) == RunEngine::Whisper.verdict(output));
    assert(told(so_far) == RunEngine::WhisperPartial.verdict(output));
    assert(told(by_zipformer) == RunEngine::Zipformer.verdict(output));
}

/// Whichever outcome the asked-for work has, the transcription can make use of it.
pub proof fn every_run_outcome_is_awaited(
    engine: RunEngine,
    stage: RunStage,
    event: RunEvent,
    next: RunStage,
    action: RunAction,
    output: ProgramOutput,
    detail: String,
)
    requires
        run_awaits(stage, event),
        run_leads(engine, stage, event, next, action),
    ensures
        run_awaits(RunStage::Recording, RunEvent::Recorded),
        run_awaits(RunStage::Recording, RunEvent::NotRecorded(detail)),
        action is Run ==> run_awaits(next, RunEvent::Ended(output)) && run_awaits(
            next,
            RunEvent::NotRun(detail),
        ),
        action is RemoveRecording ==> run_awaits(next, RunEvent::Removed),
{
}

} // verus!
