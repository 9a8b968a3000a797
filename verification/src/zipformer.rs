//! The Zipformer model for Vietnamese, run by the sherpa-onnx command.

use vstd::prelude::*;
use vstd::string::*;
use crate::paths::{DataPath, Inventory};
use crate::reply::{lossy_text, utf8_lossy, ProgramOutput};
use crate::request::{Arg, ArgView, Args, Command};
use crate::settings::{zipformer_file, zipformer_path};
use crate::text::{
    contains, ends_with, is_white, join, joined, lines, lines_of, occurs_in,
    part_stands_between_two_texts, starts_with, texts, trim, trim_start, trim_start_of, trimmed,
    trimmed_loses_white_space_alone,
};

verus! {

/// The path of the sherpa-onnx command.
pub open spec fn sherpa_file() -> Seq<Seq<char>> {
    seq!["bin"@, "sherpa-onnx-offline.exe"@]
}

/// The path of the sherpa-onnx command.
pub fn sherpa_cli_path() -> (path: DataPath)
    ensures
        path@ == sherpa_file(),
{
    DataPath::of("bin", "sherpa-onnx-offline.exe")
}

/// The directory of the Zipformer files.
pub fn zipformer_model_dir() -> (path: DataPath)
    ensures
        path@ == seq!["models"@, "zipformer-vi"@],
{
    DataPath::of("models", "zipformer-vi")
}

/// Whether a text is a list of tokens: more than ten lines, and no JSON object.
pub open spec fn is_token_list(contents: Seq<char>) -> bool {
    &&& !"{"@.is_prefix_of(trim_start_of(contents))
    &&& lines_of(contents).len() > 10
}

/// Whether the tokens file, if it can be read, holds a list of tokens.
pub fn valid_zipformer_tokens(contents: &Option<String>) -> (valid: bool)
    ensures
        valid <==> (*contents matches Some(c) && is_token_list(c@)),
{
    match contents {
        Some(c) => {
            let start = trim_start(c.as_str());
            let list = lines(c.as_str());
            assert(texts(list@).len() == list@.len());
            !starts_with(start.as_str(), "{") && list.len() > 10
        },
        None => false,
    }
}

/// Whether the command, the model and a good list of tokens are there.
pub open spec fn zipformer_usable(
    files: Set<Seq<Seq<char>>>,
    tokens: Option<String>,
) -> bool {
    &&& files.contains(sherpa_file())
    &&& files.contains(zipformer_file("encoder.int8.onnx"@))
    &&& files.contains(zipformer_file("decoder.int8.onnx"@))
    &&& files.contains(zipformer_file("joiner.int8.onnx"@))
    &&& tokens matches Some(c) && is_token_list(c@)
}

/// Whether the command, the model and a good list of tokens are there; `tokens` is what the tokens
/// file holds, if it can be read.
pub fn is_zipformer_ready(files: &Inventory, tokens: &Option<String>) -> (ready: bool)
    ensures
        ready == zipformer_usable(files@, *tokens),
{
    files.has(&sherpa_cli_path()) && files.has(&zipformer_path("encoder.int8.onnx")) && files.has(
        &zipformer_path("decoder.int8.onnx"),
    ) && files.has(&zipformer_path("joiner.int8.onnx")) && valid_zipformer_tokens(tokens)
}

/// The arguments of a run of sherpa-onnx.
pub open spec fn sherpa_args() -> Seq<ArgView> {
    seq![
        ArgView::Text("--transducer-encoder"@),
        ArgView::Data(zipformer_file("encoder.int8.onnx"@)),
        ArgView::Text("--transducer-decoder"@),
        ArgView::Data(zipformer_file("decoder.int8.onnx"@)),
        ArgView::Text("--transducer-joiner"@),
        ArgView::Data(zipformer_file("joiner.int8.onnx"@)),
        ArgView::Text("--tokens"@),
        ArgView::Data(zipformer_file("tokens.txt"@)),
        ArgView::Temp("v-voice-zipformer.wav"@),
    ]
}

/// The run of sherpa-onnx that transcribes a recording.
pub fn transcribe_zipformer(files: &Inventory, tokens: &Option<String>) -> (command: Result<
    Command,
    String,
>)
    ensures
        match command {
            Ok(run) => {
                &&& zipformer_usable(files@, *tokens)
                &&& run.program@ == ArgView::Data(sherpa_file())
                &&& run.args@ == sherpa_args()
            },
            Err(e) => !zipformer_usable(files@, *tokens) && e@
                == "Zipformer model or sherpa-onnx not ready"@,
        },
{
    if !is_zipformer_ready(files, tokens) {
        return Err("Zipformer model or sherpa-onnx not ready".to_string());
    }
    let mut args = Args::new();
    args.text("--transducer-encoder");
    args.data(zipformer_path("encoder.int8.onnx"));
    args.text("--transducer-decoder");
    args.data(zipformer_path("decoder.int8.onnx"));
    args.text("--transducer-joiner");
    args.data(zipformer_path("joiner.int8.onnx"));
    args.text("--tokens");
    args.data(zipformer_path("tokens.txt"));
    args.temp("v-voice-zipformer.wav");
    assert(args@ =~= sherpa_args());
    Ok(Command { program: Arg::Data(sherpa_cli_path()), args })
}

/// Whether a line that sherpa-onnx printed is speech: it is not empty, names no file and is none of
/// the figures that come with a transcript.
pub open spec fn is_speech(line: Seq<char>) -> bool {
    let t = trimmed(line);
    &&& t.len() > 0
    &&& !".wav"@.is_suffix_of(t)
    &&& !"/"@.is_prefix_of(t)
    &&& !"----"@.is_prefix_of(t)
    &&& !occurs_in(t, "v-voice-zipformer"@)
    &&& !occurs_in(t, ":\\"@)
    &&& !"Duration"@.is_prefix_of(t)
    &&& !"Wave duration"@.is_prefix_of(t)
    &&& !"Elapsed"@.is_prefix_of(t)
    &&& !"Real time factor"@.is_prefix_of(t)
    &&& !"NumThreads"@.is_prefix_of(t)
    &&& !"num_threads"@.is_prefix_of(t)
}

/// The lines of `list` that are speech, in order.
pub open spec fn speech_lines(list: Seq<Seq<char>>) -> Seq<Seq<char>>
    decreases list.len(),
{
    if list.len() == 0 {
        Seq::empty()
    } else {
        let earlier = speech_lines(list.drop_last());
        if is_speech(list.last()) {
            earlier.push(list.last())
        } else {
            earlier
        }
    }
}

/// The speech in what sherpa-onnx printed: the lines that are speech, with blanks between them and
/// no white space at the ends.
pub open spec fn spoken_in(printed: Seq<char>) -> Seq<char> {
    trimmed(joined(speech_lines(lines_of(printed)), " "@))
}

/// Whether a line that sherpa-onnx printed is speech.
pub fn is_speech_line(line: &str) -> (speech: bool)
    ensures
        speech == is_speech(line@),
{
    let trimmed_line = trim(line);
    let t = trimmed_line.as_str();
    !t.is_empty() && !ends_with(t, ".wav") && !starts_with(t, "/") && !starts_with(t, "----")
        && !contains(t, "v-voice-zipformer") && !contains(t, ":\\") && !starts_with(t, "Duration")
        && !starts_with(t, "Wave duration") && !starts_with(t, "Elapsed") && !starts_with(
        t,
        "Real time factor",
    ) && !starts_with(t, "NumThreads") && !starts_with(t, "num_threads")
}

/// The speech in what sherpa-onnx printed.
pub fn spoken_text(printed: &str) -> (text: String)
    ensures
        text@ == spoken_in(printed@),
        forall|line: Seq<char>|
            #![trigger lines_of(printed@).contains(line)]
            lines_of(printed@).contains(line) && ({
                let t = trimmed(line);
                t.len() > 0 && !".wav"@.is_suffix_of(t) && !"/"@.is_prefix_of(t) && !"----"@.is_prefix_of(t)
                    && !occurs_in(t, "v-voice-zipformer"@) && !occurs_in(t, ":\\"@) && !"Duration"@.is_prefix_of(t)
                    && !"Wave duration"@.is_prefix_of(t) && !"Elapsed"@.is_prefix_of(t)
                    && !"Real time factor"@.is_prefix_of(t) && !"NumThreads"@.is_prefix_of(t)
                    && !"num_threads"@.is_prefix_of(t)
            }) ==> occurs_in(text@, trimmed(line)),
{
    let list = lines(printed);
    let mut speech: Vec<String> = Vec::new();
    let mut i: usize = 0;
    assert(texts(speech@) =~= Seq::<Seq<char>>::empty());
    while i < list.len()
        invariant
            i <= list@.len(),
            texts(speech@) == speech_lines(texts(list@).take(i as int)),
        decreases list@.len() - i,
    {
        let ghost shown = texts(list@).take(i + 1);
        let ghost before = texts(speech@);
        assert(shown.drop_last() == texts(list@).take(i as int));
        assert(shown.last() == list@[i as int]@);
        if is_speech_line(list[i].as_str()) {
            let line = list[i].clone();
            speech.push(line);
            assert(texts(speech@) == before.push(line@));
        }
        i = i + 1;
    }
    assert(texts(list@).take(list@.len() as int) == texts(list@));
    let all = join(&speech, " ");
    proof {
        assert forall|line: Seq<char>|
            #![trigger lines_of(printed@).contains(line)]
            lines_of(printed@).contains(line) && is_speech(line) implies occurs_in(
            spoken_in(printed@),
            trimmed(line),
        ) by {
            speech_stands_in_the_transcript(printed@, line);
        }
    }
    trim(all.as_str())
}

/// The transcript that sherpa-onnx printed. Where it ended badly, what it said of that is the
/// error.
pub fn zipformer_transcript(output: &ProgramOutput) -> (result: Result<String, String>)
    ensures
        output.success ==> result is Ok && result->Ok_0@ == spoken_in(utf8_lossy(output.stdout@)),
        output.success ==> forall|line: Seq<char>|
            #![trigger lines_of(utf8_lossy(output.stdout@)).contains(line)]
            lines_of(utf8_lossy(output.stdout@)).contains(line) && ({
                let t = trimmed(line);
                t.len() > 0 && !".wav"@.is_suffix_of(t) && !"/"@.is_prefix_of(t) && !"----"@.is_prefix_of(t)
                    && !occurs_in(t, "v-voice-zipformer"@) && !occurs_in(t, ":\\"@) && !"Duration"@.is_prefix_of(t)
                    && !"Wave duration"@.is_prefix_of(t) && !"Elapsed"@.is_prefix_of(t)
                    && !"Real time factor"@.is_prefix_of(t) && !"NumThreads"@.is_prefix_of(t)
                    && !"num_threads"@.is_prefix_of(t)
            }) ==> occurs_in(result->Ok_0@, trimmed(line)),
        !output.success ==> result is Err && result->Err_0@ == "sherpa-onnx failed: "@ + utf8_lossy(
            output.stderr@,
        ),
{
    if !output.success {
        let stderr = lossy_text(output.stderr.as_slice());
        return Err("sherpa-onnx failed: ".to_string().concat(stderr.as_str()));
    }
    let printed = lossy_text(output.stdout.as_slice());
    Ok(spoken_text(printed.as_str()))
}

/// What is taken for speech are lines that were printed and are speech, and every such line is
/// taken.
pub proof fn speech_is_all_speech(list: Seq<Seq<char>>, line: Seq<char>)
    ensures
        speech_lines(list).contains(line) <==> list.contains(line) && is_speech(line),
    decreases list.len(),
{
    if list.len() > 0 {
        let front = list.drop_last();
        let earlier = speech_lines(front);
        let all = speech_lines(list);
        speech_is_all_speech(front, line);
        if all.contains(line) {
            let k = choose|k: int| 0 <= k < all.len() && all[k] == line;
            if k < earlier.len() {
                assert(earlier[k] == line);
                let j = choose|j: int| 0 <= j < front.len() && front[j] == line;
                assert(list[j] == line);
            } else {
                assert(list[list.len() - 1] == line);
            }
        }
        if list.contains(line) && is_speech(line) {
            let j = choose|j: int| 0 <= j < list.len() && list[j] == line;
            if j < front.len() {
                assert(front[j] == line);
                let k = choose|k: int| 0 <= k < earlier.len() && earlier[k] == line;
                assert(all[k] == line);
            } else {
                assert(all[all.len() - 1] == line);
            }
        }
    }
}

/// What has no white space at its ends and stands in a text is not cut into by trimming the text.
proof fn trimming_keeps_what_stands_inside(
    before: Seq<char>,
    core: Seq<char>,
    after: Seq<char>,
)
    requires
        core.len() > 0,
        !is_white(core[0]),
        !is_white(core.last()),
    ensures
        occurs_in(trimmed(before + core + after), core),
{
    let s = before + core + after;
    let t = trimmed(s);
    let (front, back) = trimmed_loses_white_space_alone(s);
    assert(s[before.len() as int] == core[0]);
    assert(s[before.len() + core.len() - 1] == core.last());
    if front.len() > before.len() {
        assert(s[before.len() as int] == front[before.len() as int]);
    }
    if back.len() > after.len() {
        let i = before.len() + core.len() - 1;
        assert(s[i] == back[i - front.len() - t.len()]);
    }
    let head = before.skip(front.len() as int);
    let tail = after.take(after.len() - back.len());
    assert(t =~= head + core + tail) by {
        assert forall|i: int| 0 <= i < t.len() implies t[i] == (head + core + tail)[i] by {
            assert(t[i] == s[front.len() + i]);
        }
    }
    part_stands_between_two_texts(head, core, tail);
}

/// A line stands in what its list is joined to.
proof fn joined_holds_each_line(list: Seq<Seq<char>>, k: int, sep: Seq<char>) -> (around: (
    Seq<char>,
    Seq<char>,
))
    requires
        0 <= k < list.len(),
    ensures
        joined(list, sep) == around.0 + list[k] + around.1,
    decreases list.len(),
{
    if list.len() == 1 {
        assert(joined(list, sep) =~= Seq::<char>::empty() + list[k] + Seq::<char>::empty());
        (Seq::empty(), Seq::empty())
    } else if k == list.len() - 1 {
        let before = joined(list.drop_last(), sep) + sep;
        assert(joined(list, sep) =~= before + list[k] + Seq::<char>::empty());
        (before, Seq::empty())
    } else {
        let (before, after) = joined_holds_each_line(list.drop_last(), k, sep);
        let more = after + sep + list.last();
        assert(joined(list, sep) =~= before + list[k] + more);
        (before, more)
    }
}

/// A line that is speech stands in the speech, but for white space at the line's ends.
proof fn speech_stands_in_the_transcript(printed: Seq<char>, line: Seq<char>)
    requires
        lines_of(printed).contains(line),
        is_speech(line),
    ensures
        occurs_in(spoken_in(printed), trimmed(line)),
{
    let list = speech_lines(lines_of(printed));
    speech_is_all_speech(lines_of(printed), line);
    let k = choose|k: int| 0 <= k < list.len() && list[k] == line;
    let (before, after) = joined_holds_each_line(list, k, " "@);
    let (front, back) = trimmed_loses_white_space_alone(line);
    let core = trimmed(line);
    assert(joined(list, " "@) =~= (before + front) + core + (back + after));
    trimming_keeps_what_stands_inside(before + front, core, back + after);
}

/// Which lines are speech is told by these words alone: a line that is not empty is speech unless it
/// ends as a recording does, begins as a path or a rule does, names the recording or a drive, or
/// begins with the name of one of six figures.
pub proof fn speech_is_told_by_these_words(line: &str, speech: bool)
    requires
        call_ensures(is_speech_line, (line,), speech),
    ensures
        speech == {
            let t = trimmed(line@);
            t.len() > 0 && !".wav"@.is_suffix_of(t) && !"/"@.is_prefix_of(t) && !"----"@.is_prefix_of(t)
            && !occurs_in(t, "v-voice-zipformer"@) && !occurs_in(t, ":\\"@) && !"Duration"@.is_prefix_of(t)
            && !"Wave duration"@.is_prefix_of(t) && !"Elapsed"@.is_prefix_of(t)
            && !"Real time factor"@.is_prefix_of(t) && !"NumThreads"@.is_prefix_of(t)
            && !"num_threads"@.is_prefix_of(t)
        },
{
}

/// No line of speech is lost: each printed line that is none of the figures and names no file stands
/// in the transcript, but for white space at its ends.
pub proof fn no_speech_is_lost(printed: &str, text: String, line: Seq<char>)
    requires
        call_ensures(spoken_text, (printed,), text),
        lines_of(printed@).contains(line),
        ({
            let t = trimmed(line);
            t.len() > 0 && !".wav"@.is_suffix_of(t) && !"/"@.is_prefix_of(t) && !"----"@.is_prefix_of(t)
            && !occurs_in(t, "v-voice-zipformer"@) && !occurs_in(t, ":\\"@) && !"Duration"@.is_prefix_of(t)
            && !"Wave duration"@.is_prefix_of(t) && !"Elapsed"@.is_prefix_of(t)
            && !"Real time factor"@.is_prefix_of(t) && !"NumThreads"@.is_prefix_of(t)
            && !"num_threads"@.is_prefix_of(t)
        }),
    ensures
        occurs_in(text@, trimmed(line)),
{
    speech_stands_in_the_transcript(printed@, line);
}

/// The lines of two lists are judged one by one, and what is speech keeps its order: nothing else
/// decides whether a line is taken.
pub proof fn lines_are_judged_one_by_one(
    first: Seq<Seq<char>>,
    second: Seq<Seq<char>>,
    line: Seq<char>,
)
    ensures
        speech_lines(first + second) == speech_lines(first) + speech_lines(second),
        speech_lines(seq![line]) == if ({
            let t = trimmed(line);
            t.len() > 0 && !".wav"@.is_suffix_of(t) && !"/"@.is_prefix_of(t) && !"----"@.is_prefix_of(t)
            && !occurs_in(t, "v-voice-zipformer"@) && !occurs_in(t, ":\\"@) && !"Duration"@.is_prefix_of(t)
            && !"Wave duration"@.is_prefix_of(t) && !"Elapsed"@.is_prefix_of(t)
            && !"Real time factor"@.is_prefix_of(t) && !"NumThreads"@.is_prefix_of(t)
            && !"num_threads"@.is_prefix_of(t)
        }) {
            seq![line]
        } else {
            Seq::empty()
        },
    decreases second.len(),
{
    let one = seq![line];
    assert(one.drop_last() =~= Seq::<Seq<char>>::empty());
    assert(speech_lines(one.drop_last()) =~= Seq::<Seq<char>>::empty());
    assert(one.last() == line);
    assert(speech_lines(one) =~= if is_speech(line) {
        seq![line]
    } else {
        Seq::empty()
    });
    let all = first + second;
    if second.len() == 0 {
        assert(all =~= first);
        assert(speech_lines(all) =~= speech_lines(first) + speech_lines(second));
    } else {
        let fewer = second.drop_last();
        lines_are_judged_one_by_one(first, fewer, line);
        assert(all.drop_last() =~= first + fewer);
        assert(all.last() == second.last());
        assert(speech_lines(all) =~= speech_lines(first) + speech_lines(second));
    }
}

/// The transcript is the lines of speech with one blank between each two, and nothing else but that
/// white space at its ends is gone.
pub proof fn transcript_is_the_speech(output: ProgramOutput, result: Result<String, String>) -> (ends:
    (Seq<char>, Seq<char>))
    requires
        call_ensures(zipformer_transcript, (&output,), result),
    ensures
        forall|i: int| 0 <= i < ends.0.len() ==> is_white(#[trigger] ends.0[i]),
        forall|i: int| 0 <= i < ends.1.len() ==> is_white(#[trigger] ends.1[i]),
        output.success == (result is Ok),
        match result {
            Ok(text) => {
                &&& joined(speech_lines(lines_of(utf8_lossy(output.stdout@))), " "@) == ends.0 + text@
                    + ends.1
                &&& text@.len() > 0 ==> !is_white(text@[0]) && !is_white(text@.last())
            },
            Err(e) => e@ == "sherpa-onnx failed: "@ + utf8_lossy(output.stderr@),
        },
{
    trimmed_loses_white_space_alone(
        joined(speech_lines(lines_of(utf8_lossy(output.stdout@))), " "@),
    )
}

/// A tokens file is good just where it can be read, has more than ten lines, and does not begin as a
/// JSON object does.
pub proof fn tokens_are_told_by_their_lines(contents: Option<String>, valid: bool)
    requires
        call_ensures(valid_zipformer_tokens, (&contents,), valid),
    ensures
        match contents {
            Some(c) => valid == (lines_of(c@).len() > 10 && (trim_start_of(c@).len() == 0
                || trim_start_of(c@)[0] != '{')),
            None => !valid,
        },
{
    if let Some(c) = contents {
        reveal_strlit("{");
        let start = trim_start_of(c@);
        if start.len() > 0 && start[0] == '{' {
            assert(start.subrange(0, 1) =~= "{"@);
        }
        if "{"@.is_prefix_of(start) {
            assert(start[0] == "{"@[0]);
        }
    }
}

/// Zipformer is ready just where the command and the three parts of the model are there and the
/// tokens are good.
pub proof fn zipformer_needs_four_files_and_tokens(
    files: Inventory,
    tokens: Option<String>,
    ready: bool,
    valid: bool,
)
    requires
        call_ensures(is_zipformer_ready, (&files, &tokens), ready),
        call_ensures(valid_zipformer_tokens, (&tokens,), valid),
    ensures
        ready == (valid && files@.contains(seq!["bin"@, "sherpa-onnx-offline.exe"@])
            && files@.contains(seq!["models"@, "zipformer-vi"@, "encoder.int8.onnx"@])
            && files@.contains(seq!["models"@, "zipformer-vi"@, "decoder.int8.onnx"@])
            && files@.contains(seq!["models"@, "zipformer-vi"@, "joiner.int8.onnx"@])),
{
}

/// A recording is given to sherpa-onnx just where Zipformer is ready, with each part of the model
/// behind the option that names it.
pub proof fn sherpa_gets_the_model_and_the_recording(
    files: Inventory,
    tokens: Option<String>,
    ready: bool,
    command: Result<Command, String>,
)
    requires
        call_ensures(is_zipformer_ready, (&files, &tokens), ready),
        call_ensures(transcribe_zipformer, (&files, &tokens), command),
    ensures
        ready == (command is Ok),
        match command {
            Ok(run) => {
                let dir = seq!["models"@, "zipformer-vi"@];
                &&& run.program@ == ArgView::Data(seq!["bin"@, "sherpa-onnx-offline.exe"@])
                &&& run.args@.len() == 9
                &&& run.args@[0] == ArgView::Text("--transducer-encoder"@)
                &&& run.args@[1] == ArgView::Data(dir.push("encoder.int8.onnx"@))
                &&& run.args@[2] == ArgView::Text("--transducer-decoder"@)
                &&& run.args@[3] == ArgView::Data(dir.push("decoder.int8.onnx"@))
                &&& run.args@[4] == ArgView::Text("--transducer-joiner"@)
                &&& run.args@[5] == ArgView::Data(dir.push("joiner.int8.onnx"@))
                &&& run.args@[6] == ArgView::Text("--tokens"@)
                &&& run.args@[7] == ArgView::Data(dir.push("tokens.txt"@))
                &&& run.args@[8] == ArgView::Temp("v-voice-zipformer.wav"@)
            },
            Err(e) => e@ == "Zipformer model or sherpa-onnx not ready"@,
        },
{
    if command is Ok {
        let dir = seq!["models"@, "zipformer-vi"@];
        let args = command->Ok_0.args@;
        assert(dir.push("encoder.int8.onnx"@) =~= zipformer_file("encoder.int8.onnx"@));
        assert(dir.push("decoder.int8.onnx"@) =~= zipformer_file("decoder.int8.onnx"@));
        assert(dir.push("joiner.int8.onnx"@) =~= zipformer_file("joiner.int8.onnx"@));
        assert(dir.push("tokens.txt"@) =~= zipformer_file("tokens.txt"@));
    }
}

} // verus!
