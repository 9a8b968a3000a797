//! What other programs and servers answer, and the transcript in it.

use vstd::prelude::*;
use vstd::string::*;
use vstd::utf8::*;
use crate::text::{
    is_white, same, trim, trimmed, trimmed_has_clean_ends, trimmed_loses_white_space_alone,
};

verus! {

/// The text that `String::from_utf8_lossy` makes of bytes.
pub uninterp spec fn utf8_lossy(bytes: Seq<u8>) -> Seq<char>;

/// `String::from_utf8_lossy` makes a text of any bytes. Of valid UTF-8 it is the text that the
/// bytes encode.
#[verifier::external_body]
pub(crate) fn lossy_text(bytes: &[u8]) -> (text: String)
    ensures
        text@ == utf8_lossy(bytes@),
        valid_utf8(bytes@) ==> text@ == decode_utf8(bytes@),
{
    String::from_utf8_lossy(bytes).into_owned()
}

/// What `serde_json::from_slice` and a look at the member `key` of the value make of a body:
/// nothing where it is no JSON; else the text of the member, if there is one and it is a text.
pub uninterp spec fn json_text_member(body: Seq<u8>, key: Seq<char>) -> Option<Option<Seq<char>>>;

/// An error of the JSON parser, carried through unread.
#[verifier::external_type_specification]
#[verifier::external_body]
pub struct ExJsonError(serde_json::Error);

/// Parses a body with `serde_json::from_slice` into a `serde_json::Value`, indexes it by `key` and
/// takes the text there with `Value::as_str`. The outcome depends on the body and the key alone;
/// whether the body is JSON, on the body alone.
#[verifier::external_body]
fn text_member(body: &[u8], key: &str) -> (member: Result<Option<String>, serde_json::Error>)
    ensures
        match member {
            Ok(Some(text)) => json_text_member(body@, key@) == Some(Some(text@)),
            Ok(None) => json_text_member(body@, key@) == Some(None::<Seq<char>>),
            Err(_) => json_text_member(body@, key@) is None,
        },
        member is Ok ==> forall|k: Seq<char>| #[trigger] json_text_member(body@, k) is Some,
        member is Err ==> forall|k: Seq<char>| #[trigger] json_text_member(body@, k) is None,
{
    let value: serde_json::Value = serde_json::from_slice(body)?;
    Ok(value[key].as_str().map(|text| text.to_string()))
}

/// What a program left behind when it ended.
pub struct ProgramOutput {
    /// Whether it ended well.
    pub success: bool,
    pub stdout: Vec<u8>,
    pub stderr: Vec<u8>,
}

/// What a server answered.
pub enum HttpReply {
    /// It did what it was asked for.
    Success { body: Vec<u8> },
    /// It did not.
    Failure { status: String, detail: String },
    /// It could not be asked.
    Unsent { detail: String },
    /// What it answered could not be received.
    Unread { detail: String },
}

/// Whether a server that answers with this HTTP status did what it was asked for.
pub fn is_success(status: u16) -> (ok: bool)
    ensures
        ok <==> 200 <= status <= 299,
{
    200 <= status && status <= 299
}

/// The transcript in the member that should hold it: the text there without white space at its
/// ends, and nothing where there is no text.
pub open spec fn transcript_of(member: Option<Seq<char>>) -> Seq<char> {
    match member {
        Some(text) => trimmed(text),
        None => Seq::empty(),
    }
}

/// The transcript in the member that should hold it.
pub fn transcript(member: &Option<String>) -> (text: String)
    ensures
        text@ == transcript_of(
            match *member {
                Some(m) => Some(m@),
                None => None,
            },
        ),
{
    match member {
        Some(m) => trim(m.as_str()),
        None => String::new(),
    }
}

/// What is said of a server that did not do what it was asked for.
pub open spec fn refusal(heading: Seq<char>, status: Seq<char>, body: Seq<char>) -> Seq<char> {
    heading + " ("@ + status + "): "@ + body
}

/// What is said of a server that did not do what it was asked for.
pub fn refusal_message(heading: &str, status: &str, body: &str) -> (m: String)
    ensures
        m@ == refusal(heading@, status@, body@),
{
    heading.to_string().concat(" (").concat(status).concat("): ").concat(body)
}

/// What a server's errors say first.
pub struct ServerWords {
    /// Of a server that did not do what it was asked for.
    pub refused: &'static str,
    /// Of one that could not be asked.
    pub unsent: &'static str,
    /// Of an answer that could not be received.
    pub unread: &'static str,
    /// Of an answer that is no JSON.
    pub unreadable: &'static str,
    /// What then follows; the parser's own words where this is nothing.
    pub ending: Option<&'static str>,
}

/// Whether `text` is what is said of an answer that is no JSON.
pub open spec fn tells_unreadable(text: Seq<char>, words: ServerWords) -> bool {
    match words.ending {
        Some(ending) => text == words.unreadable@ + ending@,
        None => exists|e: serde_json::Error, detail: String| #[trigger]
            to_string_from_display_ensures::<serde_json::Error>(&e, detail) && text
                == words.unreadable@ + detail@,
    }
}

/// Whether `result` is the transcript in the member `text` of what a server answered, or else the
/// error that the server's words give.
pub open spec fn is_transcript(
    result: Result<String, String>,
    reply: HttpReply,
    words: ServerWords,
) -> bool {
    match reply {
        HttpReply::Success { body } => match json_text_member(body@, "text"@) {
            Some(member) => result is Ok && result->Ok_0@ == transcript_of(member),
            None => result is Err && tells_unreadable(result->Err_0@, words),
        },
        _ => result is Err && result->Err_0@ == failure_of(reply, words),
    }
}

/// What is said of a server that did not answer, or did not do what it was asked for.
pub open spec fn failure_of(reply: HttpReply, words: ServerWords) -> Seq<char> {
    match reply {
        HttpReply::Success { .. } => Seq::empty(),
        HttpReply::Failure { status, detail } => refusal(words.refused@, status@, detail@),
        HttpReply::Unsent { detail } => words.unsent@ + detail@,
        HttpReply::Unread { detail } => words.unread@ + detail@,
    }
}

/// What is said of a server that did not answer, or did not do what it was asked for; nothing of one
/// that did.
fn server_failure(reply: &HttpReply, words: &ServerWords) -> (m: String)
    ensures
        m@ == failure_of(*reply, *words),
{
    match reply {
        HttpReply::Success { .. } => String::new(),
        HttpReply::Failure { status, detail } => refusal_message(
            words.refused,
            status.as_str(),
            detail.as_str(),
        ),
        HttpReply::Unsent { detail } => words.unsent.to_string().concat(detail.as_str()),
        HttpReply::Unread { detail } => words.unread.to_string().concat(detail.as_str()),
    }
}

/// What is said of an answer that is no JSON.
fn not_json(words: &ServerWords, e: serde_json::Error) -> (m: String)
    ensures
        tells_unreadable(m@, *words),
{
    match words.ending {
        Some(ending) => words.unreadable.to_string().concat(ending),
        None => {
            let detail = e.to_string();
            words.unreadable.to_string().concat(detail.as_str())
        },
    }
}

/// The transcript in the member `text` of what a server answered, or else what is to be told.
fn server_transcript(reply: &HttpReply, words: &ServerWords) -> (result: Result<String, String>)
    ensures
        is_transcript(result, *reply, *words),
{
    if let HttpReply::Success { body } = reply {
        match text_member(body.as_slice(), "text") {
            Ok(member) => Ok(transcript(&member)),
            Err(e) => Err(not_json(words, e)),
        }
    } else {
        Err(server_failure(reply, words))
    }
}

/// What the errors of the local `whisper-server` say first.
pub open spec fn whisper_server_words() -> ServerWords {
    ServerWords {
        refused: "Whisper server error",
        unsent: "Whisper server request failed: ",
        unread: "Failed to read Whisper server response: ",
        unreadable: "Failed to parse Whisper server response: ",
        ending: None,
    }
}

/// The transcript in what the local `whisper-server` answered.
pub fn whisper_server_transcript(reply: &HttpReply) -> (result: Result<String, String>)
    ensures
        is_transcript(result, *reply, whisper_server_words()),
{
    server_transcript(
        reply,
        &ServerWords {
            refused: "Whisper server error",
            unsent: "Whisper server request failed: ",
            unread: "Failed to read Whisper server response: ",
            unreadable: "Failed to parse Whisper server response: ",
            ending: None,
        },
    )
}

/// What the errors of a cloud service say first.
pub open spec fn cloud_words() -> ServerWords {
    ServerWords {
        refused: "Cloud API error",
        unsent: "Cloud API request failed: ",
        unread: "Failed to parse cloud response: ",
        unreadable: "Failed to parse cloud response: ",
        ending: Some("error decoding response body"),
    }
}

/// The transcript in what a cloud service answered.
pub fn cloud_transcript(reply: &HttpReply) -> (result: Result<String, String>)
    ensures
        is_transcript(result, *reply, cloud_words()),
{
    server_transcript(
        reply,
        &ServerWords {
            refused: "Cloud API error",
            unsent: "Cloud API request failed: ",
            unread: "Failed to parse cloud response: ",
            unreadable: "Failed to parse cloud response: ",
            ending: Some("error decoding response body"),
        },
    )
}

/// What is made of the members `error` and `text` of what the Granite server answered: an error
/// that the server names comes first.
pub fn granite_outcome(error: &Option<String>, text: &Option<String>) -> (result: Result<
    String,
    String,
>)
    ensures
        match *error {
            Some(e) => result is Err && result->Err_0@ == "Granite inference error: "@ + e@,
            None => result is Ok && result->Ok_0@ == transcript_of(
                match *text {
                    Some(t) => Some(t@),
                    None => None,
                },
            ),
        },
{
    match error {
        Some(e) => Err("Granite inference error: ".to_string().concat(e.as_str())),
        None => Ok(transcript(text)),
    }
}

/// What the errors of the Granite server say first.
pub open spec fn granite_words() -> ServerWords {
    ServerWords {
        refused: "Granite server error",
        unsent: "Granite server request failed: ",
        unread: "Failed to parse Granite response: ",
        unreadable: "Failed to parse Granite response: ",
        ending: Some("error decoding response body"),
    }
}

/// The transcript in what the Granite server answered. An error that the server names comes first.
pub fn granite_transcript(reply: &HttpReply) -> (result: Result<String, String>)
    ensures
        match *reply {
            HttpReply::Success { body } => match json_text_member(body@, "error"@) {
                Some(Some(error)) => result is Err && result->Err_0@
                    == "Granite inference error: "@ + error,
                _ => is_transcript(result, *reply, granite_words()),
            },
            _ => is_transcript(result, *reply, granite_words()),
        },
{
    let words = ServerWords {
        refused: "Granite server error",
        unsent: "Granite server request failed: ",
        unread: "Failed to parse Granite response: ",
        unreadable: "Failed to parse Granite response: ",
        ending: Some("error decoding response body"),
    };
    if let HttpReply::Success { body } = reply {
        let error = text_member(body.as_slice(), "error");
        let text = text_member(body.as_slice(), "text");
        match (error, text) {
            (Ok(error), Ok(text)) => granite_outcome(&error, &text),
            (Err(e), _) => Err(not_json(&words, e)),
            (_, Err(e)) => Err(not_json(&words, e)),
        }
    } else {
        Err(server_failure(reply, &words))
    }
}

/// Whether the member `status` says that the Granite server can be used.
pub fn is_ready_status(status: &Option<String>) -> (ready: bool)
    ensures
        ready <==> (*status matches Some(s) && s@ == "ready"@),
{
    match status {
        Some(s) => same(s.as_str(), "ready"),
        None => false,
    }
}

/// Whether the Granite server runs and can be used: what it answered to a health check, if it
/// answered at all.
pub fn is_granite_server_running(answer: &Option<Vec<u8>>) -> (running: bool)
    ensures
        running <==> (*answer matches Some(body) && json_text_member(body@, "status"@) == Some(
            Some("ready"@),
        )),
{
    match answer {
        Some(body) => match text_member(body.as_slice(), "status") {
            Ok(status) => is_ready_status(&status),
            Err(_) => false,
        },
        None => false,
    }
}

/// The transcript that a program printed. Where it ended badly, what it said of that is the error,
/// behind `failed`.
pub fn printed_transcript(success: bool, stdout: &str, stderr: &str, failed: &str) -> (result:
    Result<String, String>)
    ensures
        success ==> result is Ok && result->Ok_0@ == trimmed(stdout@),
        !success ==> result is Err && result->Err_0@ == failed@ + stderr@,
{
    if !success {
        return Err(failed.to_string().concat(stderr));
    }
    Ok(trim(stdout))
}

/// The final transcript that `whisper-cli` printed.
pub fn whisper_cli_transcript(output: &ProgramOutput) -> (result: Result<String, String>)
    ensures
        output.success ==> result is Ok && result->Ok_0@ == trimmed(utf8_lossy(output.stdout@)),
        !output.success ==> result is Err && result->Err_0@ == "whisper-cli failed: "@ + utf8_lossy(
            output.stderr@,
        ),
{
    let stdout = lossy_text(output.stdout.as_slice());
    let stderr = lossy_text(output.stderr.as_slice());
    printed_transcript(output.success, stdout.as_str(), stderr.as_str(), "whisper-cli failed: ")
}

/// The transcript of what was said so far that `whisper-cli` printed.
pub fn whisper_cli_partial_transcript(output: &ProgramOutput) -> (result: Result<String, String>)
    ensures
        output.success ==> result is Ok && result->Ok_0@ == trimmed(utf8_lossy(output.stdout@)),
        !output.success ==> result is Err && result->Err_0@ == "whisper-cli failed: "@ + trimmed(
            utf8_lossy(output.stderr@),
        ),
{
    let stdout = lossy_text(output.stdout.as_slice());
    let stderr = trim(lossy_text(output.stderr.as_slice()).as_str());
    printed_transcript(output.success, stdout.as_str(), stderr.as_str(), "whisper-cli failed: ")
}

/// A transcript from a server has no white space at its ends.
pub proof fn server_transcript_has_clean_ends(member: Option<Seq<char>>)
    ensures
        ({
            let text = transcript_of(member);
            text.len() > 0 ==> !is_white(text[0]) && !is_white(text.last())
        }),
{
    if let Some(text) = member {
        trimmed_has_clean_ends(text);
    }
}

/// Of the text in a member no character that is not white space is lost: the text is white space,
/// then the transcript, then white space. Without a text there the transcript is empty.
pub proof fn transcript_is_the_whole_text(member: Option<String>, text: String) -> (ends: (
    Seq<char>,
    Seq<char>,
))
    requires
        call_ensures(transcript, (&member,), text),
    ensures
        forall|i: int| 0 <= i < ends.0.len() ==> is_white(#[trigger] ends.0[i]),
        forall|i: int| 0 <= i < ends.1.len() ==> is_white(#[trigger] ends.1[i]),
        match member {
            Some(m) => m@ == ends.0 + text@ + ends.1 && (text@.len() > 0 ==> !is_white(text@[0])
                && !is_white(text@.last())),
            None => text@.len() == 0,
        },
{
    match member {
        Some(m) => trimmed_loses_white_space_alone(m@),
        None => (Seq::empty(), Seq::empty()),
    }
}

/// What the whisper server answered is told whole, but for white space at its ends, and why it gave
/// no transcript is told in full.
pub proof fn whisper_server_is_understood(reply: HttpReply, result: Result<String, String>) -> (ends: (
    Seq<char>,
    Seq<char>,
))
    requires
        call_ensures(whisper_server_transcript, (&reply,), result),
    ensures
        forall|i: int| 0 <= i < ends.0.len() ==> is_white(#[trigger] ends.0[i]),
        forall|i: int| 0 <= i < ends.1.len() ==> is_white(#[trigger] ends.1[i]),
        match reply {
            HttpReply::Success { body } => match json_text_member(body@, "text"@) {
                Some(Some(text)) => {
                    &&& result is Ok
                    &&& text == ends.0 + result->Ok_0@ + ends.1
                    &&& result->Ok_0@.len() > 0 ==> !is_white(result->Ok_0@[0]) && !is_white(
                        result->Ok_0@.last(),
                    )
                },
                Some(None) => result is Ok && result->Ok_0@.len() == 0,
                None => result is Err && "Failed to parse Whisper server response: "@.is_prefix_of(result->Err_0@),
            },
            HttpReply::Failure { status, detail } => result is Err && result->Err_0@
                == "Whisper server error"@ + " ("@ + status@ + "): "@ + detail@,
            HttpReply::Unsent { detail } => result is Err && result->Err_0@
                == "Whisper server request failed: "@ + detail@,
            HttpReply::Unread { detail } => result is Err && result->Err_0@
                == "Failed to read Whisper server response: "@ + detail@,
        },
{
    match reply {
        HttpReply::Success { body } => {
            if result is Err {
                let words = "Failed to parse Whisper server response: "@;
                let said = result->Err_0@;
                if json_text_member(body@, "text"@) is None {
                    assert(said.subrange(0, words.len() as int) =~= words);
                }
            }
            match json_text_member(body@, "text"@) {
                Some(Some(text)) => trimmed_loses_white_space_alone(text),
                _ => (Seq::empty(), Seq::empty()),
            }
        },
        _ => (Seq::empty(), Seq::empty()),
    }
}

/// What a cloud service answered is told whole, but for white space at its ends, and why it gave no
/// transcript is told in full.
pub proof fn cloud_service_is_understood(reply: HttpReply, result: Result<String, String>) -> (ends: (
    Seq<char>,
    Seq<char>,
))
    requires
        call_ensures(cloud_transcript, (&reply,), result),
    ensures
        forall|i: int| 0 <= i < ends.0.len() ==> is_white(#[trigger] ends.0[i]),
        forall|i: int| 0 <= i < ends.1.len() ==> is_white(#[trigger] ends.1[i]),
        match reply {
            HttpReply::Success { body } => match json_text_member(body@, "text"@) {
                Some(Some(text)) => {
                    &&& result is Ok
                    &&& text == ends.0 + result->Ok_0@ + ends.1
                    &&& result->Ok_0@.len() > 0 ==> !is_white(result->Ok_0@[0]) && !is_white(
                        result->Ok_0@.last(),
                    )
                },
                Some(None) => result is Ok && result->Ok_0@.len() == 0,
                None => result is Err && result->Err_0@ == "Failed to parse cloud response: "@ + "error decoding response body"@,
            },
            HttpReply::Failure { status, detail } => result is Err && result->Err_0@
                == "Cloud API error"@ + " ("@ + status@ + "): "@ + detail@,
            HttpReply::Unsent { detail } => result is Err && result->Err_0@
                == "Cloud API request failed: "@ + detail@,
            HttpReply::Unread { detail } => result is Err && result->Err_0@
                == "Failed to parse cloud response: "@ + detail@,
        },
{
    match reply {
        HttpReply::Success { body } => {
            match json_text_member(body@, "text"@) {
                Some(Some(text)) => trimmed_loses_white_space_alone(text),
                _ => (Seq::empty(), Seq::empty()),
            }
        },
        _ => (Seq::empty(), Seq::empty()),
    }
}

/// What the Granite server answered is told whole, but for white space at its ends, unless it names
/// an error, and why it gave no transcript is told in full.
pub proof fn granite_server_is_understood(reply: HttpReply, result: Result<String, String>) -> (ends: (
    Seq<char>,
    Seq<char>,
))
    requires
        call_ensures(granite_transcript, (&reply,), result),
    ensures
        forall|i: int| 0 <= i < ends.0.len() ==> is_white(#[trigger] ends.0[i]),
        forall|i: int| 0 <= i < ends.1.len() ==> is_white(#[trigger] ends.1[i]),
        match reply {
            HttpReply::Success { body } => match json_text_member(body@, "error"@) {
                Some(Some(error)) => result is Err && result->Err_0@ == "Granite inference error: "@
                    + error,
                _ => match json_text_member(body@, "text"@) {
                Some(Some(text)) => {
                    &&& result is Ok
                    &&& text == ends.0 + result->Ok_0@ + ends.1
                    &&& result->Ok_0@.len() > 0 ==> !is_white(result->Ok_0@[0]) && !is_white(
                        result->Ok_0@.last(),
                    )
                },
                Some(None) => result is Ok && result->Ok_0@.len() == 0,
                None => result is Err && result->Err_0@ == "Failed to parse Granite response: "@ + "error decoding response body"@,
            },
            },
            HttpReply::Failure { status, detail } => result is Err && result->Err_0@
                == "Granite server error"@ + " ("@ + status@ + "): "@ + detail@,
            HttpReply::Unsent { detail } => result is Err && result->Err_0@
                == "Granite server request failed: "@ + detail@,
            HttpReply::Unread { detail } => result is Err && result->Err_0@
                == "Failed to parse Granite response: "@ + detail@,
        },
{
    match reply {
        HttpReply::Success { body } => {
            match json_text_member(body@, "text"@) {
                Some(Some(text)) => trimmed_loses_white_space_alone(text),
                _ => (Seq::empty(), Seq::empty()),
            }
        },
        _ => (Seq::empty(), Seq::empty()),
    }
}

/// What the whisper command printed is told whole, but for white space at its ends; where it ended
/// badly, its complaint is.
pub proof fn whisper_output_is_told_whole(output: ProgramOutput, result: Result<String, String>) -> (ends: (
    Seq<char>,
    Seq<char>,
))
    requires
        call_ensures(whisper_cli_transcript, (&output,), result),
    ensures
        forall|i: int| 0 <= i < ends.0.len() ==> is_white(#[trigger] ends.0[i]),
        forall|i: int| 0 <= i < ends.1.len() ==> is_white(#[trigger] ends.1[i]),
        output.success == (result is Ok),
        match result {
            Ok(text) => utf8_lossy(output.stdout@) == ends.0 + text@ + ends.1 && (text@.len() > 0
                ==> !is_white(text@[0]) && !is_white(text@.last())),
            Err(e) => e@ == "whisper-cli failed: "@ + utf8_lossy(output.stderr@),
        },
{
    trimmed_loses_white_space_alone(utf8_lossy(output.stdout@))
}

/// What the whisper command printed is told whole, but for white space at its ends; where it ended
/// badly, its complaint is, without white space at the complaint's ends.
pub proof fn partial_whisper_output_is_told_whole(output: ProgramOutput, result: Result<String, String>) -> (ends: (
    Seq<char>,
    Seq<char>,
))
    requires
        call_ensures(whisper_cli_partial_transcript, (&output,), result),
    ensures
        forall|i: int| 0 <= i < ends.0.len() ==> is_white(#[trigger] ends.0[i]),
        forall|i: int| 0 <= i < ends.1.len() ==> is_white(#[trigger] ends.1[i]),
        output.success == (result is Ok),
        match result {
            Ok(text) => utf8_lossy(output.stdout@) == ends.0 + text@ + ends.1 && (text@.len() > 0
                ==> !is_white(text@[0]) && !is_white(text@.last())),
            Err(e) => "whisper-cli failed: "@.is_prefix_of(e@) && utf8_lossy(output.stderr@) == ends.0
                + e@.skip("whisper-cli failed: "@.len() as int) + ends.1 && (e@.len()
                > "whisper-cli failed: "@.len() ==> !is_white(e@["whisper-cli failed: "@.len() as int])
                && !is_white(e@.last())),
        },
{
    if output.success {
        trimmed_loses_white_space_alone(utf8_lossy(output.stdout@))
    } else {
        let heading = "whisper-cli failed: "@;
        let e = result->Err_0@;
        assert(e.subrange(0, heading.len() as int) =~= heading);
        assert(e.skip(heading.len() as int) =~= trimmed(utf8_lossy(output.stderr@)));
        trimmed_loses_white_space_alone(utf8_lossy(output.stderr@))
    }
}

/// The Granite server runs just where it answered that it is ready.
pub proof fn granite_runs_once_it_says_so(answer: Option<Vec<u8>>, running: bool)
    requires
        call_ensures(is_granite_server_running, (&answer,), running),
    ensures
        match answer {
            Some(body) => running == (json_text_member(body@, "status"@) == Some(Some("ready"@))),
            None => !running,
        },
{
}

} // verus!
