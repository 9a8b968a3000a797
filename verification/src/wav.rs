//! Recordings as WAV files in memory.

use vstd::prelude::*;
use vstd::string::*;

verus! {

/// The sample rate that the speech engines take.
pub const WHISPER_SAMPLE_RATE: u32 = 16000;

/// How the samples of a WAV file are laid out.
#[derive(Clone, Copy)]
pub struct WavFormat {
    pub channels: u16,
    pub sample_rate: u32,
    pub bits_per_sample: u16,
}

/// An error of the WAV writer, carried through unread.
#[verifier::external_type_specification]
#[verifier::external_body]
pub struct ExHoundError(hound::Error);

/// What a WAV file is written for.
#[derive(Clone, Copy, PartialEq, Eq, Structural)]
pub enum WavTarget {
    /// An upload.
    Upload,
    /// The final transcript by the whisper command.
    Recording,
    /// The transcript of what was said so far by the whisper command.
    PartialRecording,
    /// The transcript by sherpa-onnx.
    ZipformerRecording,
}

/// A step of writing a WAV file.
#[derive(Clone, Copy, PartialEq, Eq, Structural)]
pub enum WavPhase {
    Create,
    Write,
    Finalize,
}

/// What the user is told first of a WAV file that could not be written; the reason follows.
pub open spec fn wav_heading(target: WavTarget, phase: WavPhase) -> Seq<char> {
    match (phase, target) {
        (WavPhase::Create, WavTarget::Upload) => "Failed to create WAV writer: "@,
        (WavPhase::Create, WavTarget::PartialRecording) => "Failed to create partial WAV: "@,
        (WavPhase::Create, _) => "Failed to create WAV file: "@,
        (WavPhase::Write, WavTarget::Recording) => "Failed to write WAV sample: "@,
        (WavPhase::Write, WavTarget::PartialRecording) => "Failed to write WAV sample: "@,
        (WavPhase::Write, _) => "WAV write error: "@,
        (WavPhase::Finalize, WavTarget::Recording) => "Failed to finalize WAV: "@,
        (WavPhase::Finalize, WavTarget::PartialRecording) => "Failed to finalize WAV: "@,
        (WavPhase::Finalize, _) => "WAV finalize error: "@,
    }
}

/// What the user is told of a WAV file that could not be written.
pub fn wav_failure(target: WavTarget, phase: WavPhase, detail: &str) -> (m: String)
    ensures
        m@ == wav_heading(target, phase) + detail@,
{
    let heading = match (phase, target) {
        (WavPhase::Create, WavTarget::Upload) => "Failed to create WAV writer: ",
        (WavPhase::Create, WavTarget::PartialRecording) => "Failed to create partial WAV: ",
        (WavPhase::Create, _) => "Failed to create WAV file: ",
        (WavPhase::Write, WavTarget::Recording) => "Failed to write WAV sample: ",
        (WavPhase::Write, WavTarget::PartialRecording) => "Failed to write WAV sample: ",
        (WavPhase::Write, _) => "WAV write error: ",
        (WavPhase::Finalize, WavTarget::Recording) => "Failed to finalize WAV: ",
        (WavPhase::Finalize, WavTarget::PartialRecording) => "Failed to finalize WAV: ",
        (WavPhase::Finalize, _) => "WAV finalize error: ",
    };
    heading.to_string().concat(detail)
}

/// At which point a WAV file could not be written.
pub enum WavError {
    Create(hound::Error),
    Write(hound::Error),
    Finalize(hound::Error),
}

impl WavError {
    /// The step that failed.
    pub open spec fn phase(self) -> WavPhase {
        match self {
            WavError::Create(_) => WavPhase::Create,
            WavError::Write(_) => WavPhase::Write,
            WavError::Finalize(_) => WavPhase::Finalize,
        }
    }

    /// Whether `detail` is what the WAV writer says of the error.
    pub open spec fn says(self, detail: String) -> bool {
        match self {
            WavError::Create(e) => to_string_from_display_ensures::<hound::Error>(&e, detail),
            WavError::Write(e) => to_string_from_display_ensures::<hound::Error>(&e, detail),
            WavError::Finalize(e) => to_string_from_display_ensures::<hound::Error>(&e, detail),
        }
    }

    /// What the user is told: which step failed, and then what the WAV writer says of it.
    pub fn message(&self, target: WavTarget) -> (m: String)
        ensures
            exists|detail: String| #[trigger]
                self.says(detail) && m@ == wav_heading(target, self.phase()) + detail@,
    {
        let (phase, detail) = match self {
            WavError::Create(e) => (WavPhase::Create, e.to_string()),
            WavError::Write(e) => (WavPhase::Write, e.to_string()),
            WavError::Finalize(e) => (WavPhase::Finalize, e.to_string()),
        };
        assert(self.says(detail));
        wav_failure(target, phase, detail.as_str())
    }
}

/// The two bytes of a number, the low one first.
pub open spec fn le16(n: nat) -> Seq<u8> {
    seq![(n % 256) as u8, (n / 256 % 256) as u8]
}

/// The four bytes of a number, the low one first.
pub open spec fn le32(n: nat) -> Seq<u8> {
    le16(n % 0x1_0000) + le16(n / 0x1_0000)
}

/// A sample in two's complement.
pub open spec fn unsigned(sample: i16) -> nat {
    (if sample < 0 {
        sample + 0x1_0000
    } else {
        sample as int
    }) as nat
}

/// The samples one behind the other, the low byte of each first.
pub open spec fn sample_bytes(samples: Seq<i16>) -> Seq<u8> {
    Seq::new(2 * samples.len(), |i: int| le16(unsigned(samples[i / 2]))[i % 2])
}

/// The header of a WAV file with `len` bytes of uncompressed samples of one channel and two bytes
/// each.
pub open spec fn wav_header(format: WavFormat, len: nat) -> Seq<u8> {
    seq![0x52u8, 0x49, 0x46, 0x46]  // RIFF
     + le32(len + 36) + seq![0x57u8, 0x41, 0x56, 0x45]  // WAVE
     + seq![0x66u8, 0x6d, 0x74, 0x20]  // fmt
     + le32(16) + le16(1) + le16(format.channels as nat) + le32(format.sample_rate as nat) + le32(
        (format.sample_rate * 2) as nat,
    ) + le16(2) + le16(format.bits_per_sample as nat) + seq![0x64u8, 0x61, 0x74, 0x61]  // data
     + le32(len)
}

/// The WAV file with these samples.
pub open spec fn wav_file(format: WavFormat, samples: Seq<i16>) -> Seq<u8> {
    wav_header(format, 2 * samples.len()) + sample_bytes(samples)
}

/// Writes a WAV file with `hound::WavWriter`: `new`, a `write_sample` for each sample, and
/// `finalize`. The file is the header of the uncompressed format, with both lengths filled in, and
/// the samples, two bytes each, the low byte first.
///
/// None of these fails here. The writer itself refuses neither this format nor any sample of it, so
/// an error could only come from what it writes to, and that is a vector in memory, which grows as
/// needed.
#[verifier::external_body]
fn write_wav(format: WavFormat, samples: &Vec<i16>) -> (file: Result<Vec<u8>, WavError>)
    requires
        format.channels == 1,
        format.bits_per_sample == 16,
        0 < format.sample_rate,
        format.sample_rate * 2 <= u32::MAX,
        2 * samples@.len() + 36 <= u32::MAX,
    ensures
        file is Ok,
        file->Ok_0@ == wav_file(format, samples@),
{
    let mut cursor = std::io::Cursor::new(Vec::new());
    let spec = hound::WavSpec {
        channels: format.channels,
        sample_rate: format.sample_rate,
        bits_per_sample: format.bits_per_sample,
        sample_format: hound::SampleFormat::Int,
    };
    let mut writer = hound::WavWriter::new(&mut cursor, spec).map_err(WavError::Create)?;
    for sample in samples {
        writer.write_sample(*sample).map_err(WavError::Write)?;
    }
    writer.finalize().map_err(WavError::Finalize)?;
    Ok(cursor.into_inner())
}

/// The format that the speech engines take: one channel, sixteen bits.
pub fn speech_format() -> (format: WavFormat)
    ensures
        format == (WavFormat {
            channels: 1,
            sample_rate: WHISPER_SAMPLE_RATE,
            bits_per_sample: 16,
        }),
{
    WavFormat { channels: 1, sample_rate: WHISPER_SAMPLE_RATE, bits_per_sample: 16 }
}

/// The WAV file with these samples, at the rate that the speech engines take.
pub fn samples_to_wav_bytes(samples: &Vec<i16>) -> (file: Result<Vec<u8>, WavError>)
    requires
        2 * samples@.len() + 36 <= u32::MAX,
    ensures
        file is Ok,
        file->Ok_0@ == wav_file(
            WavFormat { channels: 1, sample_rate: WHISPER_SAMPLE_RATE, bits_per_sample: 16 },
            samples@,
        ),
{
    write_wav(speech_format(), samples)
}

/// A WAV file takes forty-four bytes and two more for each sample.
pub proof fn wav_file_length(format: WavFormat, samples: Seq<i16>)
    ensures
        wav_file(format, samples).len() == 44 + 2 * samples.len(),
{
    header_length(format, 2 * samples.len());
}

/// A WAV file gives its samples back: each stands in two bytes behind the header of forty-four,
/// and these say which it is.
pub proof fn wav_file_keeps_samples(format: WavFormat, samples: Seq<i16>, i: int)
    requires
        0 <= i < samples.len(),
    ensures
        wav_file(format, samples).len() == 44 + 2 * samples.len(),
        ({
            let low = wav_file(format, samples)[44 + 2 * i];
            let high = wav_file(format, samples)[44 + 2 * i + 1];
            let value = low + 256 * high;
            samples[i] == if value < 0x8000 {
                value
            } else {
                value - 0x1_0000
            }
        }),
{
    let header = wav_header(format, 2 * samples.len());
    let data = sample_bytes(samples);
    header_length(format, 2 * samples.len());
    let file = wav_file(format, samples);
    assert(file.len() == header.len() + data.len());
    sum_at(header, data, 2 * i);
    sum_at(header, data, 2 * i + 1);
    sample_at(samples, i);
}

/// The header takes forty-four bytes.
proof fn header_length(format: WavFormat, len: nat)
    ensures
        wav_header(format, len).len() == 44,
{
}

/// What stands in the second of two sequences stands in their sum.
proof fn sum_at(header: Seq<u8>, data: Seq<u8>, i: int)
    requires
        0 <= i < data.len(),
    ensures
        (header + data)[header.len() + i] == data[i],
{
}

/// The two bytes of a sample say which it is.
proof fn sample_at(samples: Seq<i16>, i: int)
    requires
        0 <= i < samples.len(),
    ensures
        ({
            let value = sample_bytes(samples)[2 * i] + 256 * sample_bytes(samples)[2 * i + 1];
            samples[i] == if value < 0x8000 {
                value
            } else {
                value - 0x1_0000
            }
        }),
{
    let n = unsigned(samples[i]);
    assert((2 * i) / 2 == i && (2 * i) % 2 == 0 && (2 * i + 1) / 2 == i && (2 * i + 1) % 2 == 1);
    assert(sample_bytes(samples)[2 * i] == (n % 256) as u8);
    assert(sample_bytes(samples)[2 * i + 1] == (n / 256 % 256) as u8);
    assert(n < 0x1_0000);
}

/// What four bytes say, the low one first.
pub open spec fn read32(bytes: Seq<u8>, at: int) -> int {
    bytes[at] + 256 * bytes[at + 1] + 0x1_0000 * bytes[at + 2] + 0x100_0000 * bytes[at + 3]
}

/// Four bytes of a number say which it is.
proof fn read32_of_le32(n: nat)
    requires
        n <= u32::MAX,
    ensures
        le32(n).len() == 4,
        read32(le32(n), 0) == n,
{
    let low = n % 0x1_0000;
    let high = n / 0x1_0000;
    assert(le32(n)[0] == (low % 256) as u8);
    assert(le32(n)[1] == (low / 256 % 256) as u8);
    assert(le32(n)[2] == (high % 256) as u8);
    assert(le32(n)[3] == (high / 256 % 256) as u8);
}

/// The header of a WAV file says how long the file is, how long the samples are, and how they are to
/// be played, whatever their number.
pub proof fn wav_header_tells_length_and_rate(samples: Vec<i16>, file: Result<Vec<u8>, WavError>)
    requires
        call_ensures(samples_to_wav_bytes, (&samples,), file),
        2 * samples@.len() + 36 <= u32::MAX,
    ensures
        file is Ok,
        file->Ok_0@.len() == 44 + 2 * samples@.len(),
        read32(file->Ok_0@, 4) == file->Ok_0@.len() - 8,
        read32(file->Ok_0@, 40) == 2 * samples@.len(),
        read32(file->Ok_0@, 24) == 16000,
        read32(file->Ok_0@, 28) == 32000,
        read32(file->Ok_0@, 16) == 16,
        file->Ok_0@[20] == 1 && file->Ok_0@[21] == 0,
        file->Ok_0@[22] == 1 && file->Ok_0@[23] == 0,
        file->Ok_0@[32] == 2 && file->Ok_0@[33] == 0,
        file->Ok_0@[34] == 16 && file->Ok_0@[35] == 0,
{
    let format = WavFormat { channels: 1, sample_rate: WHISPER_SAMPLE_RATE, bits_per_sample: 16 };
    let len = 2 * samples@.len();
    wav_file_length(format, samples@);
    header_length(format, len);
    let bytes = file->Ok_0@;
    let header = wav_header(format, len);
    assert forall|i: int| 0 <= i < 44 implies bytes[i] == header[i] by {
    }
    header_fields(format, len);
    read32_of_le32(len + 36);
    read32_of_le32(len);
    read32_of_le32(16000);
    read32_of_le32(32000);
    read32_of_le32(16);
    reveal_le16();
}

/// Where the fields of a header stand.
proof fn header_fields(format: WavFormat, len: nat)
    ensures
        wav_header(format, len).len() == 44,
        wav_header(format, len).subrange(4, 8) == le32(len + 36),
        wav_header(format, len).subrange(16, 20) == le32(16),
        wav_header(format, len).subrange(20, 22) == le16(1),
        wav_header(format, len).subrange(22, 24) == le16(format.channels as nat),
        wav_header(format, len).subrange(24, 28) == le32(format.sample_rate as nat),
        wav_header(format, len).subrange(28, 32) == le32((format.sample_rate * 2) as nat),
        wav_header(format, len).subrange(32, 34) == le16(2),
        wav_header(format, len).subrange(34, 36) == le16(format.bits_per_sample as nat),
        wav_header(format, len).subrange(40, 44) == le32(len),
{
    let h = wav_header(format, len);
    assert(h.len() == 44);
    assert(h.subrange(4, 8) =~= le32(len + 36));
    assert(h.subrange(20, 22) =~= le16(1));
    assert(h.subrange(22, 24) =~= le16(format.channels as nat));
    assert(h.subrange(24, 28) =~= le32(format.sample_rate as nat));
    assert(h.subrange(28, 32) =~= le32((format.sample_rate * 2) as nat));
    assert(h.subrange(32, 34) =~= le16(2));
    assert(h.subrange(34, 36) =~= le16(format.bits_per_sample as nat));
    assert(h.subrange(40, 44) =~= le32(len));
}

/// The two bytes of small numbers.
proof fn reveal_le16()
    ensures
        le16(1) == seq![1u8, 0u8],
        le16(2) == seq![2u8, 0u8],
        le16(16) == seq![16u8, 0u8],
{
    assert(le16(1) =~= seq![1u8, 0u8]);
    assert(le16(2) =~= seq![2u8, 0u8]);
    assert(le16(16) =~= seq![16u8, 0u8]);
}

/// Why a WAV file could not be written is told whole, behind what could not be done.
pub proof fn wav_failures_tell_the_reason(
    target: WavTarget,
    phase: WavPhase,
    detail: &str,
    m: String,
    other: &str,
    n: String,
)
    requires
        call_ensures(wav_failure, (target, phase, detail), m),
        call_ensures(wav_failure, (target, phase, other), n),
    ensures
        detail@.is_suffix_of(m@),
        m@.len() - detail@.len() == n@.len() - other@.len(),
        m@.take(m@.len() - detail@.len()) == n@.take(n@.len() - other@.len()),
{
    let heading = wav_heading(target, phase);
    assert(m@.subrange(m@.len() - detail@.len(), m@.len() as int) =~= detail@);
    assert(m@.take(m@.len() - detail@.len()) =~= heading);
    assert(n@.take(n@.len() - other@.len()) =~= heading);
}

} // verus!
