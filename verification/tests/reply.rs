use v_voice::reply::{
    cloud_transcript, granite_outcome, granite_transcript, is_granite_server_running,
    is_ready_status, is_success, printed_transcript, refusal_message, transcript, whisper_cli_partial_transcript,
    whisper_cli_transcript, whisper_server_transcript, HttpReply, ProgramOutput,
};

fn success(body: &str) -> HttpReply {
    HttpReply::Success { body: body.as_bytes().to_vec() }
}

fn refused() -> HttpReply {
    HttpReply::Failure { status: "503 Service Unavailable".to_string(), detail: "busy".to_string() }
}

fn output(ok: bool, stdout: &[u8], stderr: &[u8]) -> ProgramOutput {
    ProgramOutput { success: ok, stdout: stdout.to_vec(), stderr: stderr.to_vec() }
}

#[test]
fn a_transcript_has_no_white_space_at_its_ends() {
    assert_eq!(transcript(&Some(" hello \n".to_string())), "hello");
    assert_eq!(transcript(&Some("".to_string())), "");
    assert_eq!(transcript(&None), "");
}

#[test]
fn a_refusal_names_status_and_body() {
    assert_eq!(refusal_message("Cloud API error", "401", "no key"), "Cloud API error (401): no key");
}

#[test]
fn a_status_of_two_hundred_is_a_success() {
    for status in [200, 204, 206, 299] {
        assert!(is_success(status));
    }
    for status in [0, 100, 199, 300, 304, 404, 500, 65535] {
        assert!(!is_success(status));
    }
}

#[test]
fn whisper_server_replies_are_read() {
    let text = |reply: &HttpReply| whisper_server_transcript(reply);
    assert_eq!(text(&success("{\"text\": \" xin ch\\u00e0o \"}")), Ok("xin chào".to_string()));
    assert_eq!(text(&success("{\"words\": []}")), Ok("".to_string()));
    assert_eq!(text(&success("{\"text\": 7}")), Ok("".to_string()));
    assert_eq!(text(&success("[1]")), Ok("".to_string()));
    assert_eq!(
        text(&refused()),
        Err("Whisper server error (503 Service Unavailable): busy".to_string())
    );
    let error = text(&success("not json")).unwrap_err();
    let words = serde_json::from_str::<serde_json::Value>("not json").unwrap_err();
    assert_eq!(error, format!("Failed to parse Whisper server response: {}", words));
}

#[test]
fn cloud_replies_are_read() {
    assert_eq!(cloud_transcript(&success("{\"text\": \"done\"}")), Ok("done".to_string()));
    assert_eq!(
        cloud_transcript(&refused()),
        Err("Cloud API error (503 Service Unavailable): busy".to_string())
    );
    assert_eq!(
        cloud_transcript(&success("")),
        Err("Failed to parse cloud response: error decoding response body".to_string())
    );
}

#[test]
fn granite_replies_are_read() {
    assert_eq!(granite_transcript(&success("{\"text\": \" a \"}")), Ok("a".to_string()));
    assert_eq!(granite_transcript(&success("{}")), Ok("".to_string()));
    assert_eq!(
        granite_transcript(&success("{\"error\": \"out of memory\", \"text\": \"a\"}")),
        Err("Granite inference error: out of memory".to_string())
    );
    assert_eq!(
        granite_transcript(&success("{\"error\": null, \"text\": \"a\"}")),
        Ok("a".to_string())
    );
    assert_eq!(
        granite_transcript(&refused()),
        Err("Granite server error (503 Service Unavailable): busy".to_string())
    );
    assert_eq!(
        granite_transcript(&success("{")),
        Err("Failed to parse Granite response: error decoding response body".to_string())
    );
}

#[test]
fn servers_that_do_not_answer_are_explained() {
    let unsent = HttpReply::Unsent { detail: "refused".to_string() };
    let unread = HttpReply::Unread { detail: "cut off".to_string() };
    assert_eq!(
        whisper_server_transcript(&unsent),
        Err("Whisper server request failed: refused".to_string())
    );
    assert_eq!(
        whisper_server_transcript(&unread),
        Err("Failed to read Whisper server response: cut off".to_string())
    );
    assert_eq!(
        cloud_transcript(&unsent),
        Err("Cloud API request failed: refused".to_string())
    );
    assert_eq!(
        cloud_transcript(&unread),
        Err("Failed to parse cloud response: cut off".to_string())
    );
    assert_eq!(
        granite_transcript(&unsent),
        Err("Granite server request failed: refused".to_string())
    );
    assert_eq!(
        granite_transcript(&unread),
        Err("Failed to parse Granite response: cut off".to_string())
    );
}

#[test]
fn a_named_granite_error_comes_first() {
    let some = |s: &str| Some(s.to_string());
    assert_eq!(
        granite_outcome(&some("x"), &some("y")),
        Err("Granite inference error: x".to_string())
    );
    assert_eq!(granite_outcome(&None, &some(" y ")), Ok("y".to_string()));
    assert_eq!(granite_outcome(&None, &None), Ok("".to_string()));
}

#[test]
fn the_granite_server_runs_once_it_says_so() {
    let answer = |body: &str| Some(body.as_bytes().to_vec());
    assert!(is_granite_server_running(&answer("{\"status\": \"ready\"}")));
    assert!(!is_granite_server_running(&answer("{\"status\": \"loading\"}")));
    assert!(!is_granite_server_running(&answer("{\"status\": true}")));
    assert!(!is_granite_server_running(&answer("ready")));
    assert!(!is_granite_server_running(&None));
    assert!(is_ready_status(&Some("ready".to_string())));
    assert!(!is_ready_status(&Some("Ready".to_string())));
    assert!(!is_ready_status(&None));
}

#[test]
fn printed_transcripts_are_read() {
    assert_eq!(printed_transcript(true, " a b \n", "noise", "x: "), Ok("a b".to_string()));
    assert_eq!(printed_transcript(false, "a", "why", "x: "), Err("x: why".to_string()));
}

#[test]
fn whisper_output_is_read() {
    assert_eq!(
        whisper_cli_transcript(&output(true, " ti\u{1ebf}ng Vi\u{1ec7}t \r\n".as_bytes(), b"")),
        Ok("tiếng Việt".to_string())
    );
    assert_eq!(
        whisper_cli_transcript(&output(true, b"a\xffb", b"")),
        Ok("a\u{fffd}b".to_string())
    );
    assert_eq!(
        whisper_cli_transcript(&output(false, b"", b" no model\n")),
        Err("whisper-cli failed:  no model\n".to_string())
    );
    assert_eq!(
        whisper_cli_partial_transcript(&output(false, b"", b" no model\n")),
        Err("whisper-cli failed: no model".to_string())
    );
    assert_eq!(
        whisper_cli_partial_transcript(&output(true, b" so far ", b"")),
        Ok("so far".to_string())
    );
}
