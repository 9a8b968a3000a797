//! How the sherpa-onnx command is installed from its package.
//!
//! An installation waits on outside work (a transfer, a run of `tar`, copies). It is therefore a
//! machine: [`SherpaInstall::step`] takes what the last piece of work brought and says which one is
//! next, until it is done.

use vstd::prelude::*;
use vstd::string::*;
use crate::reply::{lossy_text, utf8_lossy, ProgramOutput};
use crate::request::{Arg, ArgView, Args, Command};
use crate::text::ends_with;

verus! {

/// The directory in the package that holds everything.
pub const SHERPA_ONNX_PACKAGE_DIR: &'static str = "sherpa-onnx-v1.12.29-win-x64-shared-MD-Release-no-tts";

/// The archive of the package, in the temporary directory.
pub fn sherpa_archive() -> (name: String)
    ensures
        name@ == "sherpa-onnx-package.tar.bz2"@,
{
    "sherpa-onnx-package.tar.bz2".to_string()
}

/// The directory that the package is unpacked to, in the temporary directory.
pub fn sherpa_extract_dir() -> (name: String)
    ensures
        name@ == "sherpa-onnx-extract"@,
{
    "sherpa-onnx-extract".to_string()
}

/// The run of `tar` that unpacks the package.
pub fn sherpa_extract_command() -> (command: Command)
    ensures
        command.program@ == ArgView::Text("tar"@),
        command.args@ == seq![
            ArgView::Text("-xf"@),
            ArgView::Temp("sherpa-onnx-package.tar.bz2"@),
            ArgView::Text("-C"@),
            ArgView::Temp("sherpa-onnx-extract"@),
        ],
{
    let mut args = Args::new();
    args.text("-xf");
    args.temp(sherpa_archive().as_str());
    args.text("-C");
    args.temp(sherpa_extract_dir().as_str());
    assert(args@ =~= seq![
        ArgView::Text("-xf"@),
        ArgView::Temp("sherpa-onnx-package.tar.bz2"@),
        ArgView::Text("-C"@),
        ArgView::Temp("sherpa-onnx-extract"@),
    ]);
    Command { program: Arg::Text("tar".to_string()), args }
}

/// How the unpacking ended: where `tar` ended badly, what it said of that is the error.
pub fn sherpa_extract_result(output: &ProgramOutput) -> (result: Result<(), String>)
    ensures
        output.success ==> result is Ok,
        !output.success ==> result is Err && result->Err_0@ == utf8_lossy(output.stderr@),
{
    if output.success {
        return Ok(());
    }
    Err(lossy_text(output.stderr.as_slice()))
}

/// Whether a file of this name is a library that the programs need beside them.
pub fn is_dll(name: &str) -> (yes: bool)
    ensures
        yes == ".dll"@.is_suffix_of(name@),
{
    ends_with(name, ".dll")
}

/// Where the package may hold libraries.
#[derive(Clone, Copy, PartialEq, Eq, Structural)]
pub enum LibrarySource {
    /// In `lib`.
    Lib,
    /// Beside the programs.
    Bin,
}

/// The program of the package that becomes the sherpa-onnx command.
#[derive(Clone, Copy, PartialEq, Eq, Structural)]
pub enum SherpaProgram {
    /// The one that takes whole recordings.
    Offline,
    /// The one that takes a stream, where the other is missing.
    Streaming,
}

impl SherpaProgram {
    /// Its file in the package.
    pub open spec fn file(self) -> Seq<char> {
        match self {
            SherpaProgram::Offline => "sherpa-onnx-offline.exe"@,
            SherpaProgram::Streaming => "sherpa-onnx.exe"@,
        }
    }

    /// Its file in the package.
    pub fn file_name(self) -> (name: &'static str)
        ensures
            name@ == self.file(),
    {
        match self {
            SherpaProgram::Offline => "sherpa-onnx-offline.exe",
            SherpaProgram::Streaming => "sherpa-onnx.exe",
        }
    }
}

/// Why sherpa-onnx could not be installed, with what the outside work said of it.
pub enum InstallError {
    /// The package could not be fetched; this is what the transfer says.
    Fetch(String),
    /// The directory to unpack to could not be made.
    MakeDirectory(String),
    /// `tar` could not be run.
    RunTar(String),
    /// `tar` ended badly.
    Extract(String),
    /// The package holds no program.
    NoProgram,
    /// The program could not be copied.
    Copy(SherpaProgram, String),
    /// A directory of the package could not be read.
    Read(LibrarySource, String),
}

impl InstallError {
    /// What the user is told.
    pub open spec fn text(self) -> Seq<char> {
        match self {
            InstallError::Fetch(e) => e@,
            InstallError::MakeDirectory(e) => "Failed to create extract dir: "@ + e@,
            InstallError::RunTar(e) => "Failed to run tar: "@ + e@,
            InstallError::Extract(e) => "Failed to extract sherpa-onnx package: "@ + e@,
            InstallError::NoProgram => "sherpa-onnx-offline.exe not found in extracted package"@,
            InstallError::Copy(program, e) => "Failed to copy "@ + program.file() + ": "@ + e@,
            InstallError::Read(LibrarySource::Lib, e) => "Failed to read lib dir: "@ + e@,
            InstallError::Read(LibrarySource::Bin, e) => "Failed to read extracted bin dir: "@ + e@,
        }
    }

    /// What the user is told.
    pub fn message(&self) -> (m: String)
        ensures
            m@ == self.text(),
    {
        match self {
            InstallError::Fetch(e) => e.clone(),
            InstallError::MakeDirectory(e) => "Failed to create extract dir: ".to_string().concat(
                e.as_str(),
            ),
            InstallError::RunTar(e) => "Failed to run tar: ".to_string().concat(e.as_str()),
            InstallError::Extract(e) => "Failed to extract sherpa-onnx package: ".to_string().concat(
                e.as_str(),
            ),
            InstallError::NoProgram => "sherpa-onnx-offline.exe not found in extracted package".to_string(),
            InstallError::Copy(program, e) => "Failed to copy ".to_string().concat(
                program.file_name(),
            ).concat(": ").concat(e.as_str()),
            InstallError::Read(LibrarySource::Lib, e) => "Failed to read lib dir: ".to_string().concat(
                e.as_str(),
            ),
            InstallError::Read(LibrarySource::Bin, e) => "Failed to read extracted bin dir: ".to_string().concat(
                e.as_str(),
            ),
        }
    }
}

/// What an installation is waiting for.
#[derive(Clone, Copy, PartialEq, Eq, Structural)]
pub enum InstallStage {
    /// The archive.
    Fetching,
    /// The removal of what an earlier installation unpacked.
    Clearing,
    /// The directory to unpack to.
    Making,
    /// The unpacked package.
    Extracting,
    /// Which programs the package holds.
    Finding,
    /// The copy of the program.
    Copying(SherpaProgram),
    /// The copies of the libraries.
    CopyingLibraries(LibrarySource),
    /// The removal of the archive.
    RemovingArchive,
    /// The removal of the unpacked package.
    RemovingPackage,
    /// Nothing more.
    Finished,
}

/// What a piece of outside work brought.
pub enum InstallEvent {
    /// It is done.
    Done,
    /// It could not be done.
    Failed(String),
    /// `tar` ended badly, and said this.
    TarFailed(String),
    /// Which programs the package holds.
    Programs { offline: bool, streaming: bool },
}

/// The next piece of outside work.
pub enum InstallAction {
    /// Fetch the archive to the temporary directory.
    Fetch,
    /// Remove the directory to unpack to. How that goes does not matter.
    RemovePackage,
    /// Make the directory to unpack to.
    MakeDirectory,
    /// Run `tar`.
    Extract,
    /// See which programs the package holds.
    FindPrograms,
    /// Copy this program, to be the sherpa-onnx command.
    CopyProgram(SherpaProgram),
    /// Copy the libraries from here, if there is such a directory, to stand beside the command. How
    /// each copy goes does not matter.
    CopyLibraries(LibrarySource),
    /// Remove the archive. How that goes does not matter.
    RemoveArchive,
    /// The installation is over.
    Finish(Result<(), InstallError>),
}

/// Whether an installation in `stage` can make use of `event`.
pub open spec fn install_awaits(stage: InstallStage, event: InstallEvent) -> bool {
    match stage {
        InstallStage::Extracting => event is Done || event is Failed || event is TarFailed,
        InstallStage::Finding => event is Programs,
        InstallStage::Finished => false,
        _ => event is Done || event is Failed,
    }
}

/// Where an awaited event leads: what the installation waits for next, and what is asked for.
pub open spec fn install_step_of(stage: InstallStage, event: InstallEvent) -> (
    InstallStage,
    InstallAction,
) {
    match (stage, event) {
        (InstallStage::Fetching, InstallEvent::Failed(e)) => install_fails(InstallError::Fetch(e)),
        (InstallStage::Fetching, _) => (InstallStage::Clearing, InstallAction::RemovePackage),
        (InstallStage::Clearing, _) => (InstallStage::Making, InstallAction::MakeDirectory),
        (InstallStage::Making, InstallEvent::Failed(e)) => install_fails(
            InstallError::MakeDirectory(e),
        ),
        (InstallStage::Making, _) => (InstallStage::Extracting, InstallAction::Extract),
        (InstallStage::Extracting, InstallEvent::Failed(e)) => install_fails(
            InstallError::RunTar(e),
        ),
        (InstallStage::Extracting, InstallEvent::TarFailed(e)) => install_fails(
            InstallError::Extract(e),
        ),
        (InstallStage::Extracting, _) => (InstallStage::Finding, InstallAction::FindPrograms),
        (InstallStage::Finding, InstallEvent::Programs { offline, streaming }) => if offline {
            (
                InstallStage::Copying(SherpaProgram::Offline),
                InstallAction::CopyProgram(SherpaProgram::Offline),
            )
        } else if streaming {
            (
                InstallStage::Copying(SherpaProgram::Streaming),
                InstallAction::CopyProgram(SherpaProgram::Streaming),
            )
        } else {
            install_fails(InstallError::NoProgram)
        },
        (InstallStage::Copying(program), InstallEvent::Failed(e)) => install_fails(
            InstallError::Copy(program, e),
        ),
        (InstallStage::Copying(_), _) => (
            InstallStage::CopyingLibraries(LibrarySource::Lib),
            InstallAction::CopyLibraries(LibrarySource::Lib),
        ),
        (InstallStage::CopyingLibraries(source), InstallEvent::Failed(e)) => install_fails(
            InstallError::Read(source, e),
        ),
        (InstallStage::CopyingLibraries(LibrarySource::Lib), _) => (
            InstallStage::CopyingLibraries(LibrarySource::Bin),
            InstallAction::CopyLibraries(LibrarySource::Bin),
        ),
        (InstallStage::CopyingLibraries(LibrarySource::Bin), _) => (
            InstallStage::RemovingArchive,
            InstallAction::RemoveArchive,
        ),
        (InstallStage::RemovingArchive, _) => (
            InstallStage::RemovingPackage,
            InstallAction::RemovePackage,
        ),
        (InstallStage::RemovingPackage, _) => (
            InstallStage::Finished,
            InstallAction::Finish(Ok(())),
        ),
        // No other pair is awaited.
        _ => install_fails(InstallError::NoProgram),
    }
}

/// The installation is over for this reason.
pub open spec fn install_fails(error: InstallError) -> (InstallStage, InstallAction) {
    (InstallStage::Finished, InstallAction::Finish(Err(error)))
}

/// One installation of sherpa-onnx.
pub struct SherpaInstall {
    /// What the installation is waiting for.
    pub stage: InstallStage,
}

impl SherpaInstall {
    /// An installation that first wants the archive.
    pub fn new() -> (install: Self)
        ensures
            install.stage == InstallStage::Fetching,
    {
        SherpaInstall { stage: InstallStage::Fetching }
    }

    /// Whether the installation can make use of `event` now.
    pub fn awaits(&self, event: &InstallEvent) -> (yes: bool)
        ensures
            yes == install_awaits(self.stage, *event),
    {
        match (self.stage, event) {
            (InstallStage::Extracting, InstallEvent::Programs { .. }) => false,
            (InstallStage::Extracting, _) => true,
            (InstallStage::Finding, InstallEvent::Programs { .. }) => true,
            (InstallStage::Finding, _) => false,
            (InstallStage::Finished, _) => false,
            (_, InstallEvent::Done) => true,
            (_, InstallEvent::Failed(_)) => true,
            _ => false,
        }
    }

    /// Goes on to `stage`.
    fn go_on(&mut self, stage: InstallStage, action: InstallAction) -> (next: InstallAction)
        ensures
            (final(self).stage, next) == (stage, action),
    {
        self.stage = stage;
        action
    }

    /// Ends the installation for this reason.
    fn fail(&mut self, error: InstallError) -> (next: InstallAction)
        ensures
            (final(self).stage, next) == install_fails(error),
    {
        self.stage = InstallStage::Finished;
        InstallAction::Finish(Err(error))
    }

    /// Takes what the last piece of work brought and says what is next.
    pub fn step(&mut self, event: InstallEvent) -> (action: InstallAction)
        requires
            install_awaits(old(self).stage, event),
        ensures
            (final(self).stage, action) == install_step_of(old(self).stage, event),
    {
        match (self.stage, event) {
            (InstallStage::Fetching, InstallEvent::Failed(e)) => self.fail(InstallError::Fetch(e)),
            (InstallStage::Fetching, _) => self.go_on(
                InstallStage::Clearing,
                InstallAction::RemovePackage,
            ),
            (InstallStage::Clearing, _) => self.go_on(
                InstallStage::Making,
                InstallAction::MakeDirectory,
            ),
            (InstallStage::Making, InstallEvent::Failed(e)) => self.fail(
                InstallError::MakeDirectory(e),
            ),
            (InstallStage::Making, _) => self.go_on(
                InstallStage::Extracting,
                InstallAction::Extract,
            ),
            (InstallStage::Extracting, InstallEvent::Failed(e)) => self.fail(
                InstallError::RunTar(e),
            ),
            (InstallStage::Extracting, InstallEvent::TarFailed(e)) => self.fail(
                InstallError::Extract(e),
            ),
            (InstallStage::Extracting, _) => self.go_on(
                InstallStage::Finding,
                InstallAction::FindPrograms,
            ),
            (InstallStage::Finding, InstallEvent::Programs { offline, streaming }) => {
                if offline {
                    self.go_on(
                        InstallStage::Copying(SherpaProgram::Offline),
                        InstallAction::CopyProgram(SherpaProgram::Offline),
                    )
                } else if streaming {
                    self.go_on(
                        InstallStage::Copying(SherpaProgram::Streaming),
                        InstallAction::CopyProgram(SherpaProgram::Streaming),
                    )
                } else {
                    self.fail(InstallError::NoProgram)
                }
            },
            (InstallStage::Copying(program), InstallEvent::Failed(e)) => self.fail(
                InstallError::Copy(program, e),
            ),
            (InstallStage::Copying(_), _) => self.go_on(
                InstallStage::CopyingLibraries(LibrarySource::Lib),
                InstallAction::CopyLibraries(LibrarySource::Lib),
            ),
            (InstallStage::CopyingLibraries(source), InstallEvent::Failed(e)) => self.fail(
                InstallError::Read(source, e),
            ),
            (InstallStage::CopyingLibraries(LibrarySource::Lib), _) => self.go_on(
                InstallStage::CopyingLibraries(LibrarySource::Bin),
                InstallAction::CopyLibraries(LibrarySource::Bin),
            ),
            (InstallStage::CopyingLibraries(LibrarySource::Bin), _) => self.go_on(
                InstallStage::RemovingArchive,
                InstallAction::RemoveArchive,
            ),
            (InstallStage::RemovingArchive, _) => self.go_on(
                InstallStage::RemovingPackage,
                InstallAction::RemovePackage,
            ),
            (InstallStage::RemovingPackage, _) => self.go_on(
                InstallStage::Finished,
                InstallAction::Finish(Ok(())),
            ),
            // No other pair is awaited.
            _ => self.fail(InstallError::NoProgram),
        }
    }
}

/// How many steps an installation has left at most.
pub open spec fn install_steps_left(stage: InstallStage) -> nat {
    match stage {
        InstallStage::Fetching => 10,
        InstallStage::Clearing => 9,
        InstallStage::Making => 8,
        InstallStage::Extracting => 7,
        InstallStage::Finding => 6,
        InstallStage::Copying(_) => 5,
        InstallStage::CopyingLibraries(LibrarySource::Lib) => 4,
        InstallStage::CopyingLibraries(LibrarySource::Bin) => 3,
        InstallStage::RemovingArchive => 2,
        InstallStage::RemovingPackage => 1,
        InstallStage::Finished => 0,
    }
}

/// Every installation ends, whatever the outside work brings, and one that ended awaits nothing.
pub proof fn every_installation_ends(stage: InstallStage, event: InstallEvent)
    requires
        install_awaits(stage, event),
    ensures
        ({
            let (next, action) = install_step_of(stage, event);
            &&& install_steps_left(next) < install_steps_left(stage)
            &&& action is Finish <==> next == InstallStage::Finished
        }),
{
}

/// Whether the program has been copied by the time that an installation is in `stage`.
pub open spec fn program_is_copied(stage: InstallStage) -> bool {
    ||| stage is CopyingLibraries
    ||| stage is RemovingArchive
    ||| stage is RemovingPackage
}

/// An installation ends well only after its program was copied: the stages that may lead to a good
/// end are reached through a copy that is done, and through nothing else.
pub proof fn installed_program_was_copied(stage: InstallStage, event: InstallEvent)
    requires
        install_awaits(stage, event),
    ensures
        ({
            let (next, action) = install_step_of(stage, event);
            &&& program_is_copied(next) ==> program_is_copied(stage) || stage is Copying
                && event is Done
            &&& action == InstallAction::Finish(Ok(())) ==> program_is_copied(stage)
        }),
{
}

/// Why sherpa-onnx could not be installed is told whole.
pub proof fn install_errors_tell_the_reason(e: String)
    ensures
        InstallError::Fetch(e).text() == e@,
        InstallError::MakeDirectory(e).text() == "Failed to create extract dir: "@ + e@,
        InstallError::RunTar(e).text() == "Failed to run tar: "@ + e@,
        InstallError::Extract(e).text() == "Failed to extract sherpa-onnx package: "@ + e@,
        InstallError::Copy(SherpaProgram::Offline, e).text() == "Failed to copy "@
            + "sherpa-onnx-offline.exe"@ + ": "@ + e@,
        InstallError::Copy(SherpaProgram::Streaming, e).text() == "Failed to copy "@
            + "sherpa-onnx.exe"@ + ": "@ + e@,
        InstallError::Read(LibrarySource::Lib, e).text() == "Failed to read lib dir: "@ + e@,
        InstallError::Read(LibrarySource::Bin, e).text() == "Failed to read extracted bin dir: "@
            + e@,
{
}

/// Where work for an installation fails that it rests on, the installation ends for just that reason;
/// where clearing up fails, it goes on.
pub proof fn failed_work_ends_the_installation(e: String, program: SherpaProgram)
    ensures
        ({
            let failed = InstallEvent::Failed(e);
            &&& install_step_of(InstallStage::Fetching, failed).1 == InstallAction::Finish(
                Err(InstallError::Fetch(e)),
            )
            &&& install_step_of(InstallStage::Making, failed).1 == InstallAction::Finish(
                Err(InstallError::MakeDirectory(e)),
            )
            &&& install_step_of(InstallStage::Extracting, failed).1 == InstallAction::Finish(
                Err(InstallError::RunTar(e)),
            )
            &&& install_step_of(InstallStage::Extracting, InstallEvent::TarFailed(e)).1
                == InstallAction::Finish(Err(InstallError::Extract(e)))
            &&& install_step_of(InstallStage::Copying(program), failed).1 == InstallAction::Finish(
                Err(InstallError::Copy(program, e)),
            )
            &&& install_step_of(InstallStage::CopyingLibraries(LibrarySource::Lib), failed).1
                == InstallAction::Finish(Err(InstallError::Read(LibrarySource::Lib, e)))
            &&& install_step_of(InstallStage::CopyingLibraries(LibrarySource::Bin), failed).1
                == InstallAction::Finish(Err(InstallError::Read(LibrarySource::Bin, e)))
            &&& install_step_of(InstallStage::Clearing, failed) == install_step_of(
                InstallStage::Clearing,
                InstallEvent::Done,
            )
            &&& install_step_of(InstallStage::RemovingArchive, failed) == install_step_of(
                InstallStage::RemovingArchive,
                InstallEvent::Done,
            )
            &&& install_step_of(InstallStage::RemovingPackage, failed).1 == InstallAction::Finish(
                Ok(()),
            )
        }),
{
}

/// The offline program is taken wherever it is there, the streaming one where it is not, and neither
/// is the one error of its kind.
pub proof fn offline_program_comes_first(offline: bool, streaming: bool)
    ensures
        ({
            let (next, action) = install_step_of(
                InstallStage::Finding,
                InstallEvent::Programs { offline, streaming },
            );
            &&& offline ==> action == InstallAction::CopyProgram(SherpaProgram::Offline) && next
                == InstallStage::Copying(SherpaProgram::Offline)
            &&& !offline && streaming ==> action == InstallAction::CopyProgram(
                SherpaProgram::Streaming,
            ) && next == InstallStage::Copying(SherpaProgram::Streaming)
            &&& !offline && !streaming ==> action == InstallAction::Finish(
                Err(InstallError::NoProgram),
            )
        }),
{
}

/// What `tar` said is the reason where it ended badly, and only there.
pub proof fn tar_is_understood(output: ProgramOutput, result: Result<(), String>)
    requires
        call_ensures(sherpa_extract_result, (&output,), result),
    ensures
        result is Ok <==> output.success,
        result matches Err(e) ==> e@ == utf8_lossy(output.stderr@),
{
}

/// A library is known by the end of its name alone.
pub proof fn libraries_are_known_by_their_end(name: &str, yes: bool)
    requires
        call_ensures(is_dll, (name,), yes),
    ensures
        yes <==> name@.len() >= 4 && name@.skip(name@.len() - 4) == seq!['.', 'd', 'l', 'l'],
{
    reveal_strlit(".dll");
    assert(".dll"@ =~= seq!['.', 'd', 'l', 'l']);
    if name@.len() >= 4 {
        assert(name@.skip(name@.len() - 4) =~= name@.subrange(name@.len() - 4, name@.len() as int));
    }
}

/// Whichever outcome the asked-for work has, the installation can make use of it.
pub proof fn every_install_outcome_is_awaited(
    stage: InstallStage,
    event: InstallEvent,
    offline: bool,
    streaming: bool,
    detail: String,
)
    requires
        install_awaits(stage, event),
    ensures
        install_awaits(InstallStage::Fetching, InstallEvent::Done),
        install_awaits(InstallStage::Fetching, InstallEvent::Failed(detail)),
        ({
            let (next, action) = install_step_of(stage, event);
            match action {
                InstallAction::Finish(_) => next == InstallStage::Finished,
                InstallAction::FindPrograms => install_awaits(
                    next,
                    InstallEvent::Programs { offline, streaming },
                ),
                InstallAction::Extract => install_awaits(next, InstallEvent::Done)
                    && install_awaits(next, InstallEvent::Failed(detail)) && install_awaits(
                    next,
                    InstallEvent::TarFailed(detail),
                ),
                _ => install_awaits(next, InstallEvent::Done) && install_awaits(
                    next,
                    InstallEvent::Failed(detail),
                ),
            }
        }),
{
}

/// An installation whose work goes well unpacks afresh, copies the program and the libraries from
/// both places, and then removes the archive and what was unpacked.
pub proof fn installation_goes_from_archive_to_command(program: SherpaProgram)
    ensures
        ({
            let done = InstallEvent::Done;
            &&& install_step_of(InstallStage::Fetching, done) == (
                InstallStage::Clearing,
                InstallAction::RemovePackage,
            )
            &&& install_step_of(InstallStage::Clearing, done) == (
                InstallStage::Making,
                InstallAction::MakeDirectory,
            )
            &&& install_step_of(InstallStage::Making, done) == (
                InstallStage::Extracting,
                InstallAction::Extract,
            )
            &&& install_step_of(InstallStage::Extracting, done) == (
                InstallStage::Finding,
                InstallAction::FindPrograms,
            )
            &&& install_step_of(InstallStage::Copying(program), done) == (
                InstallStage::CopyingLibraries(LibrarySource::Lib),
                InstallAction::CopyLibraries(LibrarySource::Lib),
            )
            &&& install_step_of(InstallStage::CopyingLibraries(LibrarySource::Lib), done) == (
                InstallStage::CopyingLibraries(LibrarySource::Bin),
                InstallAction::CopyLibraries(LibrarySource::Bin),
            )
            &&& install_step_of(InstallStage::CopyingLibraries(LibrarySource::Bin), done) == (
                InstallStage::RemovingArchive,
                InstallAction::RemoveArchive,
            )
            &&& install_step_of(InstallStage::RemovingArchive, done) == (
                InstallStage::RemovingPackage,
                InstallAction::RemovePackage,
            )
        }),
{
}

} // verus!
