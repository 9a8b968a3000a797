use v_voice::paths::Inventory;
use v_voice::reply::ProgramOutput;
use v_voice::request::Arg;
use v_voice::settings::zipformer_path;
use v_voice::zipformer::{
    is_speech_line, is_zipformer_ready, sherpa_cli_path, spoken_text, transcribe_zipformer,
    valid_zipformer_tokens, zipformer_model_dir, zipformer_transcript,
};

fn tokens(lines: usize) -> Option<String> {
    Some((0..lines).map(|i| format!("t{} {}\n", i, i)).collect())
}

fn all_files() -> Inventory {
    let mut seen = Inventory::new();
    seen.add(sherpa_cli_path());
    for name in ["encoder.int8.onnx", "decoder.int8.onnx", "joiner.int8.onnx"] {
        seen.add(zipformer_path(name));
    }
    seen
}

#[test]
fn zipformer_files_have_their_places() {
    assert_eq!(sherpa_cli_path().parts, vec!["bin", "sherpa-onnx-offline.exe"]);
    assert_eq!(zipformer_model_dir().parts, vec!["models", "zipformer-vi"]);
}

#[test]
fn a_token_list_has_more_than_ten_lines() {
    assert!(!valid_zipformer_tokens(&None));
    assert!(!valid_zipformer_tokens(&Some(String::new())));
    assert!(!valid_zipformer_tokens(&tokens(10)));
    assert!(valid_zipformer_tokens(&tokens(11)));
}

#[test]
fn a_json_object_is_no_token_list() {
    let json: String = format!(" \n{{\n{}}}\n", "\"a\": 1,\n".repeat(20));
    assert!(!valid_zipformer_tokens(&Some(json)));
    let inside: String = format!("a 0\n{{ 1\n{}", "b 2\n".repeat(20));
    assert!(valid_zipformer_tokens(&Some(inside)));
}

#[test]
fn zipformer_is_ready_with_all_files() {
    assert!(is_zipformer_ready(&all_files(), &tokens(100)));
    assert!(!is_zipformer_ready(&all_files(), &tokens(3)));
    assert!(!is_zipformer_ready(&all_files(), &None));
    let mut without_command = Inventory::new();
    for name in ["encoder.int8.onnx", "decoder.int8.onnx", "joiner.int8.onnx"] {
        without_command.add(zipformer_path(name));
    }
    assert!(!is_zipformer_ready(&without_command, &tokens(100)));
    let mut without_joiner = Inventory::new();
    without_joiner.add(sherpa_cli_path());
    without_joiner.add(zipformer_path("encoder.int8.onnx"));
    without_joiner.add(zipformer_path("decoder.int8.onnx"));
    assert!(!is_zipformer_ready(&without_joiner, &tokens(100)));
}

#[test]
fn a_recording_is_given_to_sherpa() {
    let run = transcribe_zipformer(&all_files(), &tokens(100)).ok().unwrap();
    let shown = |arg: &Arg| match arg {
        Arg::Text(text) => text.clone(),
        Arg::Data(path) => path.parts.join("/"),
        Arg::Temp(name) => format!("temp:{}", name),
    };
    assert_eq!(shown(&run.program), "bin/sherpa-onnx-offline.exe");
    assert_eq!(
        run.args.list.iter().map(shown).collect::<Vec<String>>(),
        vec![
            "--transducer-encoder",
            "models/zipformer-vi/encoder.int8.onnx",
            "--transducer-decoder",
            "models/zipformer-vi/decoder.int8.onnx",
            "--transducer-joiner",
            "models/zipformer-vi/joiner.int8.onnx",
            "--tokens",
            "models/zipformer-vi/tokens.txt",
            "temp:v-voice-zipformer.wav",
        ]
    );
    let error = transcribe_zipformer(&Inventory::new(), &tokens(100)).err().unwrap();
    assert_eq!(error, "Zipformer model or sherpa-onnx not ready");
}

#[test]
fn figures_and_file_names_are_no_speech() {
    for line in [
        "",
        "   ",
        "audio.wav",
        " /tmp/x ",
        "---- done",
        "see v-voice-zipformer here",
        "C:\\Users\\x",
        "Duration : 3",
        "Wave duration: 3 s",
        "Elapsed seconds: 1",
        "Real time factor (RTF): 0.1",
        "NumThreads: 2",
        "num_threads: 2",
    ] {
        assert!(!is_speech_line(line), "{:?}", line);
    }
    for line in ["xin chào", " một hai ", "the Duration", "a/b", "x: y", "elapsed"] {
        assert!(is_speech_line(line), "{:?}", line);
    }
}

#[test]
fn speech_is_joined_by_blanks() {
    let printed = "/tmp/v-voice-zipformer.wav\r\n xin chào\r\n----\r\nmột hai \nElapsed: 1\n";
    assert_eq!(spoken_text(printed), "xin chào một hai");
    assert_eq!(spoken_text(""), "");
    assert_eq!(spoken_text("----\n"), "");
}

#[test]
fn sherpa_output_is_read() {
    let good = ProgramOutput { success: true, stdout: b"a\xff\nb\n".to_vec(), stderr: vec![] };
    assert_eq!(zipformer_transcript(&good), Ok("a\u{fffd} b".to_string()));
    let bad = ProgramOutput { success: false, stdout: b"a".to_vec(), stderr: b"why\n".to_vec() };
    assert_eq!(zipformer_transcript(&bad), Err("sherpa-onnx failed: why\n".to_string()));
}
