use std::io::Cursor;
use v_voice::wav::{
    samples_to_wav_bytes, speech_format, wav_failure, WavError, WavPhase, WavTarget,
    WHISPER_SAMPLE_RATE,
};

fn wav(samples: Vec<i16>) -> Vec<u8> {
    match samples_to_wav_bytes(&samples) {
        Ok(bytes) => bytes,
        Err(_) => panic!("writing to memory failed"),
    }
}

#[test]
fn speech_is_one_channel_of_sixteen_bits() {
    let format = speech_format();
    assert_eq!(format.channels, 1);
    assert_eq!(format.sample_rate, 16000);
    assert_eq!(format.bits_per_sample, 16);
    assert_eq!(WHISPER_SAMPLE_RATE, 16000);
}

#[test]
fn a_wav_file_is_a_header_and_the_samples() {
    let bytes = wav(vec![1, -2, 256]);
    let expected: Vec<u8> = vec![
        b'R', b'I', b'F', b'F', 42, 0, 0, 0, b'W', b'A', b'V', b'E', b'f', b'm', b't', b' ', 16, 0,
        0, 0, 1, 0, 1, 0, 0x80, 0x3e, 0, 0, 0, 0x7d, 0, 0, 2, 0, 16, 0, b'd', b'a', b't', b'a', 6,
        0, 0, 0, 1, 0, 0xfe, 0xff, 0, 1,
    ];
    assert_eq!(bytes, expected);
}

#[test]
fn a_wav_file_takes_two_bytes_for_each_sample() {
    let bytes = wav(vec![0, 32767, -32767, 32767, -32768]);
    assert_eq!(bytes.len(), 54);
    assert_eq!(bytes[44..], [0, 0, 0xff, 0x7f, 0x01, 0x80, 0xff, 0x7f, 0x00, 0x80]);
}

#[test]
fn an_empty_recording_is_a_header() {
    let bytes = wav(vec![]);
    assert_eq!(bytes.len(), 44);
    assert_eq!(bytes[4..8], [36, 0, 0, 0]);
    assert_eq!(bytes[40..44], [0, 0, 0, 0]);
}

#[test]
fn samples_come_back_from_a_wav_file() {
    let samples: Vec<i16> = vec![0, 1, -1, 255, 256, -256, 12345, -12345, i16::MAX, i16::MIN];
    let bytes = wav(samples.clone());
    assert_eq!(bytes.len(), 44 + 2 * samples.len());
    let mut reader = hound::WavReader::new(Cursor::new(bytes.clone())).unwrap();
    assert_eq!(reader.spec().channels, 1);
    assert_eq!(reader.spec().sample_rate, 16000);
    let read: Vec<i16> = reader.samples::<i16>().map(|sample| sample.unwrap()).collect();
    assert_eq!(read, samples);
    for (i, sample) in samples.iter().enumerate() {
        let low = bytes[44 + 2 * i] as i32;
        let high = bytes[44 + 2 * i + 1] as i32;
        let value = low + 256 * high;
        let value = if value < 0x8000 { value } else { value - 0x1_0000 };
        assert_eq!(value, *sample as i32);
    }
}

#[test]
fn a_wav_file_that_cannot_be_written_is_explained() {
    let text = |target, phase| wav_failure(target, phase, "disk full");
    assert_eq!(
        text(WavTarget::Upload, WavPhase::Create),
        "Failed to create WAV writer: disk full"
    );
    assert_eq!(text(WavTarget::Upload, WavPhase::Write), "WAV write error: disk full");
    assert_eq!(text(WavTarget::Upload, WavPhase::Finalize), "WAV finalize error: disk full");
    assert_eq!(
        text(WavTarget::Recording, WavPhase::Create),
        "Failed to create WAV file: disk full"
    );
    assert_eq!(
        text(WavTarget::Recording, WavPhase::Write),
        "Failed to write WAV sample: disk full"
    );
    assert_eq!(
        text(WavTarget::Recording, WavPhase::Finalize),
        "Failed to finalize WAV: disk full"
    );
    assert_eq!(
        text(WavTarget::PartialRecording, WavPhase::Create),
        "Failed to create partial WAV: disk full"
    );
    assert_eq!(
        text(WavTarget::PartialRecording, WavPhase::Write),
        "Failed to write WAV sample: disk full"
    );
    assert_eq!(
        text(WavTarget::PartialRecording, WavPhase::Finalize),
        "Failed to finalize WAV: disk full"
    );
    assert_eq!(
        text(WavTarget::ZipformerRecording, WavPhase::Create),
        "Failed to create WAV file: disk full"
    );
    assert_eq!(text(WavTarget::ZipformerRecording, WavPhase::Write), "WAV write error: disk full");
    assert_eq!(
        text(WavTarget::ZipformerRecording, WavPhase::Finalize),
        "WAV finalize error: disk full"
    );
}

#[test]
fn an_error_of_the_wav_writer_names_its_step() {
    let create = WavError::Create(hound::Error::Unsupported);
    let write = WavError::Write(hound::Error::TooWide);
    let finalize = WavError::Finalize(hound::Error::UnfinishedSample);
    assert_eq!(
        create.message(WavTarget::Upload),
        format!("Failed to create WAV writer: {}", hound::Error::Unsupported)
    );
    assert_eq!(
        write.message(WavTarget::Recording),
        format!("Failed to write WAV sample: {}", hound::Error::TooWide)
    );
    assert_eq!(
        finalize.message(WavTarget::ZipformerRecording),
        format!("WAV finalize error: {}", hound::Error::UnfinishedSample)
    );
}
