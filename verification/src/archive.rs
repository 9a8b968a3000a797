//! The whisper programs in the zip archive that they are released in.

use std::io::Cursor;
use std::io::Read;
use vstd::prelude::*;
use vstd::string::*;
use zip::result::ZipError;
use zip::ZipArchive;
use crate::text::{after_last, after_last_of, ends_with, same, what_follows_the_last};

verus! {

/// An archive reader, carried through unread.
#[verifier::external_type_specification]
#[verifier::external_body]
#[verifier::reject_recursive_types(R)]
pub struct ExZipArchive<R>(ZipArchive<R>);

/// A reader of bytes in memory, carried through unread.
#[verifier::external_type_specification]
#[verifier::external_body]
#[verifier::reject_recursive_types(T)]
pub struct ExCursor<T>(Cursor<T>);

/// An error of the archive reader, carried through unread.
#[verifier::external_type_specification]
#[verifier::external_body]
pub struct ExZipError(ZipError);

/// An error of reading, carried through unread.
#[verifier::external_type_specification]
#[verifier::external_body]
pub struct ExIoError(std::io::Error);

/// What the zip reader makes of bytes: nothing where they are no archive; else the entries in order.
/// Of an entry that can be opened, its name, whether it is a directory, and what it holds if that
/// can be read.
pub uninterp spec fn zip_entries(bytes: Seq<u8>) -> Option<
    Seq<Option<(Seq<char>, bool, Option<Seq<u8>>)>>,
>;

/// The entries of an archive that was opened, as in [`zip_entries`].
pub uninterp spec fn archive_entries(archive: ZipArchive<Cursor<Vec<u8>>>) -> Seq<
    Option<(Seq<char>, bool, Option<Seq<u8>>)>,
>;

/// Opens an archive in memory with `ZipArchive::new`. Whether it can be opened, and what is in it
/// then, depends on the bytes alone.
#[verifier::external_body]
fn open_archive(bytes: Vec<u8>) -> (archive: Result<ZipArchive<Cursor<Vec<u8>>>, ZipError>)
    ensures
        match archive {
            Ok(a) => zip_entries(bytes@) == Some(archive_entries(a)),
            Err(_) => zip_entries(bytes@) is None,
        },
{
    ZipArchive::new(Cursor::new(bytes))
}

/// `ZipArchive::len` is the number of entries.
#[verifier::external_body]
fn entry_count(archive: &ZipArchive<Cursor<Vec<u8>>>) -> (count: usize)
    ensures
        count == archive_entries(*archive).len(),
{
    archive.len()
}

/// Opens an entry with `ZipArchive::by_index` and takes its `name` and whether it `is_dir`. The
/// entries stay as they are.
#[verifier::external_body]
fn entry_header(archive: &mut ZipArchive<Cursor<Vec<u8>>>, index: usize) -> (header: Result<
    (String, bool),
    ZipError,
>)
    requires
        index < archive_entries(*old(archive)).len(),
    ensures
        archive_entries(*final(archive)) == archive_entries(*old(archive)),
        match header {
            Ok((name, is_dir)) => archive_entries(*old(archive))[index as int] matches Some(entry)
                && entry.0 == name@ && entry.1 == is_dir,
            Err(_) => archive_entries(*old(archive))[index as int] is None,
        },
{
    let file = archive.by_index(index)?;
    Ok((file.name().to_string(), file.is_dir()))
}

/// Opens an entry that can be opened with `ZipArchive::by_index` and reads what it holds with
/// `read_to_end`. The entries stay as they are.
#[verifier::external_body]
fn entry_bytes(archive: &mut ZipArchive<Cursor<Vec<u8>>>, index: usize) -> (bytes: Result<
    Vec<u8>,
    std::io::Error,
>)
    requires
        index < archive_entries(*old(archive)).len(),
        archive_entries(*old(archive))[index as int] is Some,
    ensures
        archive_entries(*final(archive)) == archive_entries(*old(archive)),
        match bytes {
            Ok(b) => archive_entries(*old(archive))[index as int] matches Some((_, _, data)) && data
                == Some(b@),
            Err(_) => archive_entries(*old(archive))[index as int] matches Some((_, _, data))
                && data is None,
        },
{
    let mut bytes = Vec::new();
    archive.by_index(index)?.read_to_end(&mut bytes)?;
    Ok(bytes)
}

/// A file that is to stand beside the whisper programs.
pub struct BinaryFile {
    pub name: String,
    pub bytes: Vec<u8>,
}

/// Why an archive could not be read to its end.
pub enum ArchiveError {
    /// It is no archive.
    Open(ZipError),
    /// An entry could not be opened.
    Entry(ZipError),
    /// A file in it could not be read.
    Read { file: String, error: std::io::Error },
}

impl ArchiveError {
    /// What the user is told first; what the reader says follows.
    pub open spec fn heading(self) -> Seq<char> {
        match self {
            ArchiveError::Open(_) => "Failed to open zip: "@,
            ArchiveError::Entry(_) => "Zip entry error: "@,
            ArchiveError::Read { file, .. } => "Failed to read "@ + file@ + " from zip: "@,
        }
    }

    /// Whether `detail` is what the reader says of the error.
    pub open spec fn says(self, detail: String) -> bool {
        match self {
            ArchiveError::Open(e) => to_string_from_display_ensures::<ZipError>(&e, detail),
            ArchiveError::Entry(e) => to_string_from_display_ensures::<ZipError>(&e, detail),
            ArchiveError::Read { error, .. } => to_string_from_display_ensures::<std::io::Error>(
                &error,
                detail,
            ),
        }
    }

    /// What the user is told.
    pub fn message(&self) -> (m: String)
        ensures
            exists|detail: String| #[trigger]
                self.says(detail) && m@ == self.heading() + detail@,
    {
        let (heading, detail) = match self {
            ArchiveError::Open(e) => ("Failed to open zip: ".to_string(), e.to_string()),
            ArchiveError::Entry(e) => ("Zip entry error: ".to_string(), e.to_string()),
            ArchiveError::Read { file, error } => (
                "Failed to read ".to_string().concat(file.as_str()).concat(" from zip: "),
                error.to_string(),
            ),
        };
        assert(self.says(detail));
        heading.concat(detail.as_str())
    }
}

/// What was taken out of an archive: the files in order, up to the error if there was one.
pub struct Extraction {
    pub files: Vec<BinaryFile>,
    pub error: Option<ArchiveError>,
}

/// The names and contents of a list of files.
pub open spec fn file_views(files: Seq<BinaryFile>) -> Seq<(Seq<char>, Seq<u8>)> {
    Seq::new(files.len(), |i: int| (files[i].name@, files[i].bytes@))
}

/// Whether a file of this name is wanted: the two programs and all libraries are.
pub open spec fn is_wanted(name: Seq<char>) -> bool {
    ||| name == "whisper-cli.exe"@
    ||| name == "whisper-server.exe"@
    ||| ".dll"@.is_suffix_of(name)
}

/// Under which name an entry is taken out, if it is.
pub open spec fn taken_as(name: Seq<char>, is_dir: bool) -> Option<Seq<char>> {
    let base = after_last_of(name, '/');
    if is_wanted(base) && !is_dir {
        Some(base)
    } else {
        None
    }
}

/// How far reading an archive went.
pub enum Progress {
    /// To its end.
    Whole,
    /// To an entry that could not be opened.
    EntryFailed,
    /// To a file of this name that could not be read.
    ReadFailed(Seq<char>),
}

/// The files that are taken out of an archive with these entries, and how far that goes.
pub open spec fn taken_from(entries: Seq<Option<(Seq<char>, bool, Option<Seq<u8>>)>>) -> (
    Seq<(Seq<char>, Seq<u8>)>,
    Progress,
)
    decreases entries.len(),
{
    if entries.len() == 0 {
        (Seq::empty(), Progress::Whole)
    } else {
        let (files, progress) = taken_from(entries.drop_last());
        if !(progress is Whole) {
            (files, progress)
        } else {
            match entries.last() {
                None => (files, Progress::EntryFailed),
                Some((name, is_dir, bytes)) => match taken_as(name, is_dir) {
                    None => (files, Progress::Whole),
                    Some(base) => match bytes {
                        Some(b) => (files.push((base, b)), Progress::Whole),
                        None => (files, Progress::ReadFailed(base)),
                    },
                },
            }
        }
    }
}

/// Whether an error says how far reading went.
pub open spec fn tells(error: Option<ArchiveError>, progress: Progress) -> bool {
    match progress {
        Progress::Whole => error is None,
        Progress::EntryFailed => error is Some && error->0 is Entry,
        Progress::ReadFailed(name) => error is Some && error->0 is Read && error->0->file@ == name,
    }
}

/// Under which name an entry is taken out, if it is: its name behind the last slash.
pub fn select_entry(name: &str, is_dir: bool) -> (taken: Option<String>)
    ensures
        match taken {
            Some(base) => taken_as(name@, is_dir) == Some(base@),
            None => taken_as(name@, is_dir) is None,
        },
{
    let base = after_last(name, '/');
    let wanted = same(base.as_str(), "whisper-cli.exe") || same(
        base.as_str(),
        "whisper-server.exe",
    ) || ends_with(base.as_str(), ".dll");
    if wanted && !is_dir {
        Some(base)
    } else {
        None
    }
}

/// Takes the two programs and all libraries out of an archive.
pub fn extract_binaries(zip_bytes: Vec<u8>) -> (extraction: Extraction)
    ensures
        match zip_entries(zip_bytes@) {
            Some(entries) => {
                &&& file_views(extraction.files@) == taken_from(entries).0
                &&& tells(extraction.error, taken_from(entries).1)
            },
            None => {
                &&& extraction.files@.len() == 0
                &&& extraction.error is Some
                &&& extraction.error->0 is Open
            },
        },
{
    let mut files: Vec<BinaryFile> = Vec::new();
    let mut archive = match open_archive(zip_bytes) {
        Ok(archive) => archive,
        Err(e) => {
            return Extraction { files, error: Some(ArchiveError::Open(e)) };
        },
    };
    let ghost entries = archive_entries(archive);
    let count: usize = entry_count(&archive);
    let mut i: usize = 0;
    assert(file_views(files@) =~= Seq::<(Seq<char>, Seq<u8>)>::empty());
    while i < count
        invariant
            i <= count == entries.len(),
            archive_entries(archive) == entries,
            zip_entries(zip_bytes@) == Some(entries),
            taken_from(entries.take(i as int)) == (file_views(files@), Progress::Whole),
        decreases count - i,
    {
        let ghost shown = entries.take(i + 1);
        assert(shown.drop_last() == entries.take(i as int));
        assert(shown.last() == entries[i as int]);
        let (name, is_dir) = match entry_header(&mut archive, i) {
            Ok(header) => header,
            Err(e) => {
                proof {
                    failure_stays(entries, i + 1);
                }
                return Extraction { files, error: Some(ArchiveError::Entry(e)) };
            },
        };
        if let Some(base) = select_entry(name.as_str(), is_dir) {
            match entry_bytes(&mut archive, i) {
                Ok(bytes) => {
                    let ghost before = file_views(files@);
                    let file = BinaryFile { name: base, bytes };
                    files.push(file);
                    assert(file_views(files@) =~= before.push((base@, bytes@)));
                },
                Err(error) => {
                    proof {
                        failure_stays(entries, i + 1);
                    }
                    return Extraction {
                        files,
                        error: Some(ArchiveError::Read { file: base, error }),
                    };
                },
            }
        }
        i = i + 1;
    }
    assert(entries.take(count as int) == entries);
    Extraction { files, error: None }
}

/// Nothing is taken out behind an entry that failed.
proof fn failure_stays(entries: Seq<Option<(Seq<char>, bool, Option<Seq<u8>>)>>, n: int)
    requires
        0 <= n <= entries.len(),
        !(taken_from(entries.take(n)).1 is Whole),
    ensures
        taken_from(entries) == taken_from(entries.take(n)),
    decreases entries.len(),
{
    if n < entries.len() {
        let front = entries.drop_last();
        assert(front.take(n) == entries.take(n));
        failure_stays(front, n);
    } else {
        assert(entries.take(n) == entries);
    }
}

/// Whether a file of this name is among those taken out.
fn has_file(files: &Vec<BinaryFile>, name: &str) -> (yes: bool)
    ensures
        yes <==> exists|i: int| 0 <= i < files@.len() && #[trigger] files@[i].name@ == name@,
{
    let mut i: usize = 0;
    while i < files.len()
        invariant
            i <= files@.len(),
            forall|j: int| 0 <= j < i ==> #[trigger] files@[j].name@ != name@,
        decreases files@.len() - i,
    {
        if same(files[i].name.as_str(), name) {
            return true;
        }
        i = i + 1;
    }
    false
}

/// Whether both programs are there now that `files` were taken out of the archive; `cli` and
/// `server` say which were there before.
pub fn check_binaries(cli: bool, server: bool, files: &Vec<BinaryFile>) -> (result: Result<
    (),
    String,
>)
    ensures
        ({
            let found_cli = cli || exists|i: int|
                0 <= i < files@.len() && #[trigger] files@[i].name@ == "whisper-cli.exe"@;
            let found_server = server || exists|i: int|
                0 <= i < files@.len() && #[trigger] files@[i].name@ == "whisper-server.exe"@;
            match result {
                Ok(()) => found_cli && found_server,
                Err(e) => if !found_cli {
                    e@ == "whisper-cli.exe not found in the downloaded zip archive"@
                } else {
                    !found_server && e@
                        == "whisper-server.exe not found in the downloaded zip archive"@
                },
            }
        }),
{
    if !cli && !has_file(files, "whisper-cli.exe") {
        return Err("whisper-cli.exe not found in the downloaded zip archive".to_string());
    }
    if !server && !has_file(files, "whisper-server.exe") {
        return Err("whisper-server.exe not found in the downloaded zip archive".to_string());
    }
    Ok(())
}

/// What follows the last slash holds no slash.
proof fn after_last_slash(s: Seq<char>)
    ensures
        !after_last_of(s, '/').contains('/'),
    decreases s.len(),
{
    if s.len() > 0 && s.last() != '/' {
        after_last_slash(s.drop_last());
        let front = after_last_of(s.drop_last(), '/');
        let all = after_last_of(s, '/');
        if all.contains('/') {
            let k = choose|k: int| 0 <= k < all.len() && all[k] == '/';
            if k < front.len() {
                assert(front[k] == '/');
            }
        }
    }
}

/// Every file that is taken out of an archive is wanted, and no slash in its name leads out of the
/// directory that it is written to, whatever the archive says.
pub proof fn taken_files_stay_in_place(
    entries: Seq<Option<(Seq<char>, bool, Option<Seq<u8>>)>>,
    i: int,
)
    requires
        0 <= i < taken_from(entries).0.len(),
    ensures
        is_wanted(taken_from(entries).0[i].0),
        !taken_from(entries).0[i].0.contains('/'),
    decreases entries.len(),
{
    if entries.len() > 0 {
        let front = entries.drop_last();
        if i < taken_from(front).0.len() {
            taken_files_stay_in_place(front, i);
        } else if let Some((name, is_dir, bytes)) = entries.last() {
            after_last_slash(name);
        }
    }
}

/// From an archive that is read to its end, every wanted file is taken out, wherever it stands in
/// the archive.
pub proof fn every_wanted_file_is_taken(
    entries: Seq<Option<(Seq<char>, bool, Option<Seq<u8>>)>>,
    i: int,
)
    requires
        taken_from(entries).1 is Whole,
        0 <= i < entries.len(),
    ensures
        match entries[i] {
            None => false,
            Some((name, is_dir, bytes)) => match taken_as(name, is_dir) {
                None => true,
                Some(base) => bytes is Some && taken_from(entries).0.contains((base, bytes->0)),
            },
        },
    decreases entries.len(),
{
    let front = entries.drop_last();
    let all = taken_from(entries).0;
    if i < front.len() {
        every_wanted_file_is_taken(front, i);
        assert(front[i] == entries[i]);
        if let Some((name, is_dir, bytes)) = entries[i] {
            if let Some(base) = taken_as(name, is_dir) {
                let wanted = (base, bytes->0);
                let earlier = taken_from(front).0;
                let k = choose|k: int| 0 <= k < earlier.len() && earlier[k] == wanted;
                assert(all[k] == wanted);
            }
        }
    } else if let Some((name, is_dir, bytes)) = entries[i] {
        if let Some(base) = taken_as(name, is_dir) {
            assert(all[all.len() - 1] == (base, bytes->0));
        }
    }
}

/// An entry is taken out under its own name, without the directories before it, just where it is no
/// directory and is one of the two programs or a library.
pub proof fn entry_is_taken_under_its_own_name(
    dir: Seq<char>,
    base: Seq<char>,
    name: &str,
    is_dir: bool,
    taken: Option<String>,
)
    requires
        call_ensures(select_entry, (name, is_dir), taken),
        !base.contains('/'),
        name@ == base || name@ == dir.push('/') + base,
    ensures
        taken is Some <==> !is_dir && (base == "whisper-cli.exe"@ || base == "whisper-server.exe"@ || ".dll"@.is_suffix_of(base)),
        taken is Some ==> taken->0@ == base,
{
    what_follows_the_last(dir, '/', base);
}

/// Entries are taken one by one, in order, with all that each holds, until one fails; what comes
/// behind that one is left.
pub proof fn entries_are_taken_one_by_one(
    entries: Seq<Option<(Seq<char>, bool, Option<Seq<u8>>)>>,
    dir: Seq<char>,
    base: Seq<char>,
    name: Seq<char>,
    is_dir: bool,
    bytes: Option<Seq<u8>>,
)
    requires
        !base.contains('/'),
        name == base || name == dir.push('/') + base,
    ensures
        ({
            let (files, progress) = taken_from(entries);
            let more = taken_from(entries.push(Some((name, is_dir, bytes))));
            let broken = taken_from(entries.push(None));
            let wanted = !is_dir && (base == "whisper-cli.exe"@ || base == "whisper-server.exe"@ || ".dll"@.is_suffix_of(base));
            &&& !(progress is Whole) ==> more == taken_from(entries) && broken == taken_from(
                entries,
            )
            &&& progress is Whole ==> {
                &&& broken == (files, Progress::EntryFailed)
                &&& !wanted ==> more == (files, Progress::Whole)
                &&& wanted && bytes is Some ==> more == (
                    files.push((base, bytes->0)),
                    Progress::Whole,
                )
                &&& wanted && bytes is None ==> more == (files, Progress::ReadFailed(base))
            }
        }),
        taken_from(Seq::empty()).0.len() == 0,
        taken_from(Seq::empty()).1 is Whole,
{
    what_follows_the_last(dir, '/', base);
    let next = entries.push(Some((name, is_dir, bytes)));
    assert(next.drop_last() =~= entries);
    assert(next.last() == Some((name, is_dir, bytes)));
    let end = entries.push(None);
    assert(end.drop_last() =~= entries);
    assert(end.last() is None);
}

/// What is taken out of an archive are the files that its entries give, with their bytes, and the
/// error says where reading stopped. Bytes that are no archive give no file.
pub proof fn extraction_tells_what_was_taken(zip_bytes: Vec<u8>, extraction: Extraction)
    requires
        call_ensures(extract_binaries, (zip_bytes,), extraction),
    ensures
        match zip_entries(zip_bytes@) {
            Some(entries) => {
                let (files, progress) = taken_from(entries);
                &&& extraction.files@.len() == files.len()
                &&& forall|i: int|
                    0 <= i < files.len() ==> (#[trigger] extraction.files@[i]).name@ == files[i].0
                        && extraction.files@[i].bytes@ == files[i].1
                &&& extraction.error is None <==> progress is Whole
                &&& progress is EntryFailed <==> (extraction.error matches Some(e) && e is Entry)
                &&& progress matches Progress::ReadFailed(name) ==> (extraction.error matches Some(e)
                    && e is Read && e->file@ == name)
            },
            None => extraction.files@.len() == 0 && (extraction.error matches Some(e) && e is Open),
        },
{
    if let Some(entries) = zip_entries(zip_bytes@) {
        let files = taken_from(entries).0;
        assert(file_views(extraction.files@).len() == files.len());
        assert forall|i: int| 0 <= i < files.len() implies (#[trigger] extraction.files@[i]).name@
            == files[i].0 && extraction.files@[i].bytes@ == files[i].1 by {
            assert(file_views(extraction.files@)[i] == files[i]);
        }
    }
}

/// Both programs have to be there, from before or from the archive; the one that is missing is told,
/// the command before the server.
pub proof fn both_programs_are_asked_for(
    cli: bool,
    server: bool,
    files: Vec<BinaryFile>,
    result: Result<(), String>,
)
    requires
        call_ensures(check_binaries, (cli, server, &files), result),
    ensures
        ({
            let no_cli = !cli && forall|k: int|
                0 <= k < files@.len() ==> #[trigger] files@[k].name@ != "whisper-cli.exe"@;
            let no_server = !server && forall|k: int|
                0 <= k < files@.len() ==> #[trigger] files@[k].name@ != "whisper-server.exe"@;
            &&& result is Ok <==> !no_cli && !no_server
            &&& no_cli ==> result is Err && result->Err_0@
                == "whisper-cli.exe not found in the downloaded zip archive"@
            &&& !no_cli && no_server ==> result is Err && result->Err_0@
                == "whisper-server.exe not found in the downloaded zip archive"@
        }),
{
}

/// What an archive failed for is told by what was done and by the file.
pub proof fn archive_errors_name_their_file(
    file: String,
    error: std::io::Error,
    zip_error: ZipError,
)
    ensures
        ArchiveError::Open(zip_error).heading() == "Failed to open zip: "@,
        ArchiveError::Entry(zip_error).heading() == "Zip entry error: "@,
        (ArchiveError::Read { file, error }).heading() == "Failed to read "@ + file@ + " from zip: "@,
{
}

} // verus!
