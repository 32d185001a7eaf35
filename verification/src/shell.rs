//! The shell tool: what of a command's output is shown, what is saved, and
//! what the tool answers.

use crate::text::{
    decimal, decimal_injective, decimal_text, join_from, joined, joined_concat, pieces,
    pieces_join, pieces_of_joined, signed_decimal, signed_decimal_text, split_text, trim_text,
    trimmed, views,
};
use vstd::prelude::*;
use vstd::utf8::encode_utf8;

verus! {

pub const OUTPUT_LIMIT_LINES: usize = 2000;

pub const OUTPUT_LIMIT_BYTES: usize = 50_000;

pub const OUTPUT_PREVIEW_LINES: usize = 50;

pub const OUTPUT_SLOTS: usize = 8;

// ---------------------------------------------------------------------------
// Types
// ---------------------------------------------------------------------------

/// What the caller of the tool asks for.
#[derive(Debug, PartialEq)]
pub struct ShellParams {
    pub command: String,
    pub timeout_secs: Option<u64>,
}

/// What the tool reports of a command in structured form.
#[derive(Debug, PartialEq)]
pub struct ShellOutput {
    pub stdout: String,
    pub stderr: String,
    /// Process exit code. 0 indicates success, non-zero indicates failure.
    /// Absent if the process was killed (e.g. timeout).
    pub exit_code: Option<i32>,
    /// True if the command was killed because it exceeded the timeout.
    pub timed_out: bool,
    /// True if output collection was cut short after the shell exited.
    pub output_truncated: bool,
    /// Error reported by output collection after process exit.
    pub output_collection_error: Option<String>,
}

/// How a command ran.
#[derive(Debug, PartialEq)]
pub struct ExecutionOutput {
    /// Lines in arrival order, tagged by source: (is_stderr, text)
    pub lines: Vec<(bool, String)>,
    pub exit_code: Option<i32>,
    pub timed_out: bool,
    pub output_truncated: bool,
    pub output_collection_error: Option<String>,
}

/// The answer of the tool: one text, with the structured report beside it.
#[derive(Debug, PartialEq)]
pub struct ShellResult {
    pub text: String,
    pub structured: ShellOutput,
    pub is_error: bool,
}

// ---------------------------------------------------------------------------
// The two streams
// ---------------------------------------------------------------------------

/// The texts of all lines, in arrival order.
pub open spec fn line_texts(lines: Seq<(bool, String)>) -> Seq<Seq<char>> {
    lines.map_values(|l: (bool, String)| l.1@)
}

/// The texts of the lines of one stream, in arrival order.
pub open spec fn stream_texts(lines: Seq<(bool, String)>, is_stderr: bool) -> Seq<Seq<char>>
    decreases lines.len(),
{
    if lines.len() == 0 {
        Seq::empty()
    } else {
        let before = stream_texts(lines.drop_last(), is_stderr);
        if lines.last().0 == is_stderr {
            before.push(lines.last().1@)
        } else {
            before
        }
    }
}

/// No line is lost or made up: the lines of the two streams together are all
/// lines.
pub proof fn streams_hold_every_line(lines: Seq<(bool, String)>)
    ensures
        stream_texts(lines, false).to_multiset().add(stream_texts(lines, true).to_multiset())
            == line_texts(lines).to_multiset(),
    decreases lines.len(),
{
    broadcast use vstd::seq_lib::group_to_multiset_ensures;

    let out = stream_texts(lines, false).to_multiset();
    let err = stream_texts(lines, true).to_multiset();
    if lines.len() > 0 {
        let front = lines.drop_last();
        let text = lines.last().1@;
        streams_hold_every_line(front);
        assert(line_texts(lines) == line_texts(front).push(text));
        assert(out.add(err) =~= line_texts(lines).to_multiset());
    } else {
        assert(line_texts(lines) == Seq::<Seq<char>>::empty());
        assert(out.add(err) =~= line_texts(lines).to_multiset());
    }
}

/// Appends a line to the text of a stream.
fn add_line(target: &mut String, started: bool, text: &str, Ghost(before): Ghost<Seq<Seq<char>>>)
    requires
        old(target)@ == joined(before, "\n"@),
        started == (before.len() > 0),
    ensures
        final(target)@ == joined(before.push(text@), "\n"@),
{
    let ghost grown = before.push(text@);
    assert(grown.drop_last() == before);
    if started {
        target.append("\n");
    }
    target.append(text);
    assert(target@ == joined(grown, "\n"@));
}

/// Split tagged lines into (stdout, stderr, interleaved) strings.
pub fn split_lines(lines: &[(bool, String)]) -> (r: (String, String, String))
    ensures
        r.0@ == joined(stream_texts(lines@, false), "\n"@),
        r.1@ == joined(stream_texts(lines@, true), "\n"@),
        r.2@ == joined(line_texts(lines@), "\n"@),
{
    let mut stdout = String::new();
    let mut stderr = String::new();
    let mut interleaved = String::new();
    let mut stdout_started = false;
    let mut stderr_started = false;
    assert(lines@.take(0) == Seq::<(bool, String)>::empty());
    assert(line_texts(lines@.take(0)) == Seq::<Seq<char>>::empty());
    for i in 0..lines.len()
        invariant
            stdout@ == joined(stream_texts(lines@.take(i as int), false), "\n"@),
            stderr@ == joined(stream_texts(lines@.take(i as int), true), "\n"@),
            interleaved@ == joined(line_texts(lines@.take(i as int)), "\n"@),
            stdout_started == (stream_texts(lines@.take(i as int), false).len() > 0),
            stderr_started == (stream_texts(lines@.take(i as int), true).len() > 0),
    {
        let ghost seen = lines@.take(i as int);
        let ghost grown = lines@.take(i + 1);
        assert(grown.drop_last() == seen);
        assert(grown.last() == lines@[i as int]);
        assert(line_texts(grown) == line_texts(seen).push(lines@[i as int].1@));
        let is_stderr = lines[i].0;
        let text = lines[i].1.as_str();
        add_line(&mut interleaved, i > 0, text, Ghost(line_texts(seen)));
        if is_stderr {
            add_line(&mut stderr, stderr_started, text, Ghost(stream_texts(seen, true)));
            stderr_started = true;
        } else {
            add_line(&mut stdout, stdout_started, text, Ghost(stream_texts(seen, false)));
            stdout_started = true;
        }
    }
    assert(lines@.take(lines@.len() as int) == lines@);
    (stdout, stderr, interleaved)
}

// ---------------------------------------------------------------------------
// Output that is too long
// ---------------------------------------------------------------------------

pub open spec fn line_count(output: Seq<char>) -> nat {
    pieces(output, '\n').len()
}

pub open spec fn byte_count(output: Seq<char>) -> nat {
    encode_utf8(output).len()
}

/// Whether an output is too long to be shown whole.
pub open spec fn over_limit(output: Seq<char>) -> bool {
    line_count(output) > OUTPUT_LIMIT_LINES || byte_count(output) > OUTPUT_LIMIT_BYTES
}

/// The last lines of an output.
pub open spec fn preview(output: Seq<char>) -> Seq<char> {
    let lines = pieces(output, '\n');
    let start = if lines.len() > OUTPUT_PREVIEW_LINES {
        lines.len() - OUTPUT_PREVIEW_LINES
    } else {
        0
    };
    joined(lines.skip(start), "\n"@)
}

/// Which limit an output exceeds, and by what.
pub open spec fn limit_reason(output: Seq<char>) -> Seq<char> {
    if line_count(output) > OUTPUT_LIMIT_LINES {
        "Output exceeded "@ + decimal(OUTPUT_LIMIT_LINES as nat) + " line limit ("@ + decimal(
            line_count(output),
        ) + " lines total)."@
    } else {
        "Output exceeded "@ + decimal(OUTPUT_LIMIT_BYTES as nat) + " byte limit ("@ + decimal(
            byte_count(output),
        ) + " bytes total)."@
    }
}

/// What is shown of an output that is too long, when the whole of it was saved
/// under the given path.
pub open spec fn shortened(output: Seq<char>, path: Seq<char>) -> Seq<char> {
    preview(output) + "\n\n["@ + limit_reason(output) + " Full output saved to "@ + path
        + ". Read it with shell commands like `head`, `tail`, or `sed -n '100,200p'` up to 2000 lines at a time.]"@
}

/// The path or the error of a save.
pub open spec fn saved_view(saved: Result<String, String>) -> Result<Seq<char>, Seq<char>> {
    match saved {
        Ok(path) => Ok(path@),
        Err(error) => Err(error@),
    }
}

/// What is shown of an output, by how saving the whole of it went.
pub open spec fn truncated(
    output: Seq<char>,
    saved: Result<Seq<char>, Seq<char>>,
) -> Result<Seq<char>, Seq<char>> {
    if !over_limit(output) {
        Ok(output)
    } else {
        match saved {
            Ok(path) => Ok(shortened(output, path)),
            Err(error) => Err("Failed to write output buffer: "@ + error),
        }
    }
}

/// What is shown of an output, or a notice that there is none.
pub open spec fn rendered(
    output: Seq<char>,
    saved: Result<Seq<char>, Seq<char>>,
) -> Result<Seq<char>, Seq<char>> {
    if output.len() == 0 {
        Ok("(no output)"@)
    } else {
        truncated(output, saved)
    }
}

/// What is shown of an output that is too long is its end, and holds its last
/// `OUTPUT_PREVIEW_LINES` lines, or all of them where it has fewer.
pub proof fn preview_is_the_end(output: Seq<char>)
    ensures
        line_count(preview(output)) == if line_count(output) > OUTPUT_PREVIEW_LINES {
            OUTPUT_PREVIEW_LINES as nat
        } else {
            line_count(output)
        },
        preview(output).len() <= output.len(),
        output.skip(output.len() - preview(output).len()) == preview(output),
{
    reveal_strlit("\n");
    assert("\n"@ == seq!['\n']);
    let lines = pieces(output, '\n');
    pieces_join(output, '\n');
    let start = if lines.len() > OUTPUT_PREVIEW_LINES {
        lines.len() - OUTPUT_PREVIEW_LINES
    } else {
        0
    };
    let tail = lines.skip(start);
    assert forall|i: int| 0 <= i < tail.len() implies !#[trigger] tail[i].contains('\n') by {
        assert(tail[i] == lines[i + start]);
    }
    pieces_of_joined(tail, '\n');
    if start > 0 {
        joined_concat(lines.take(start), tail, seq!['\n']);
        assert(lines.take(start) + tail == lines);
    } else {
        assert(tail == lines);
    }
}

/// An output without a character is never saved: a stream without output is
/// reported as the empty text, and where there is no output at all a notice
/// says so.
pub proof fn no_output_shown(saved: Result<Seq<char>, Seq<char>>)
    ensures
        !over_limit(Seq::empty()),
        truncated(Seq::empty(), saved) == Ok::<Seq<char>, Seq<char>>(Seq::empty()),
        rendered(Seq::empty(), saved) == Ok::<Seq<char>, Seq<char>>("(no output)"@),
{
    assert(encode_utf8(Seq::<char>::empty()).len() == 0);
}

/// Whether an output is too long to be shown whole: the whole of it has to be
/// saved before a part is shown.
pub fn needs_saving(full_output: &str) -> (r: bool)
    ensures
        r == over_limit(full_output@),
{
    let lines = split_text(full_output, '\n');
    let bytes = full_output.as_bytes();
    assert(lines@.len() == views(lines@).len());
    lines.len() > OUTPUT_LIMIT_LINES || bytes.len() > OUTPUT_LIMIT_BYTES
}

/// What is shown of an output. Where it is too long, `saved` tells under which
/// path the whole of it was saved, or why it was not.
pub fn truncate_output(full_output: &str, saved: &Result<String, String>) -> (r: Result<
    String,
    String,
>)
    ensures
        saved_view(r) == truncated(full_output@, saved_view(*saved)),
{
    let lines = split_text(full_output, '\n');
    let total_lines = lines.len();
    let total_bytes = full_output.as_bytes().len();
    assert(lines@.len() == views(lines@).len());
    let exceeded_lines = total_lines > OUTPUT_LIMIT_LINES;
    let exceeded_bytes = total_bytes > OUTPUT_LIMIT_BYTES;
    if !exceeded_lines && !exceeded_bytes {
        return Ok(full_output.to_owned());
    }
    match saved {
        Err(error) => {
            let mut message = "Failed to write output buffer: ".to_owned();
            message.append(error.as_str());
            Err(message)
        },
        Ok(path) => {
            let preview_start: usize = if total_lines > OUTPUT_PREVIEW_LINES {
                total_lines - OUTPUT_PREVIEW_LINES
            } else {
                0
            };
            let mut shown = join_from(&lines, preview_start, "\n");
            assert(shown@ == preview(full_output@));
            let mut reason = "Output exceeded ".to_owned();
            if exceeded_lines {
                reason.append(decimal_text(OUTPUT_LIMIT_LINES as u64).as_str());
                reason.append(" line limit (");
                reason.append(decimal_text(total_lines as u64).as_str());
                reason.append(" lines total).");
            } else {
                reason.append(decimal_text(OUTPUT_LIMIT_BYTES as u64).as_str());
                reason.append(" byte limit (");
                reason.append(decimal_text(total_bytes as u64).as_str());
                reason.append(" bytes total).");
            }
            assert(reason@ == limit_reason(full_output@));
            shown.append("\n\n[");
            shown.append(reason.as_str());
            shown.append(" Full output saved to ");
            shown.append(path.as_str());
            shown.append(
                ". Read it with shell commands like `head`, `tail`, or `sed -n '100,200p'` up to 2000 lines at a time.]",
            );
            Ok(shown)
        },
    }
}

/// What is shown of an output, or a notice that there is none.
pub fn render_output(full_output: &str, saved: &Result<String, String>) -> (r: Result<
    String,
    String,
>)
    ensures
        saved_view(r) == rendered(full_output@, saved_view(*saved)),
{
    if full_output.is_empty() {
        return Ok("(no output)".to_owned());
    }
    truncate_output(full_output, saved)
}

// ---------------------------------------------------------------------------
// Slots and labels
// ---------------------------------------------------------------------------

/// The shell tool: how many calls it has counted, and the search path of the
/// user's login shell.
#[derive(Debug, PartialEq)]
pub struct ShellTool {
    pub call_index: usize,
    pub login_path: Option<String>,
}

/// The count after `calls` more calls, wrapping round at the end of the range.
pub open spec fn index_after(start: usize, calls: nat) -> usize
    decreases calls,
{
    if calls == 0 {
        start
    } else {
        let before = index_after(start, (calls - 1) as nat);
        if before == usize::MAX {
            0
        } else {
            (before + 1) as usize
        }
    }
}

/// The slot that a count stands for.
pub open spec fn slot_of(index: usize) -> nat {
    index as nat % OUTPUT_SLOTS as nat
}

/// The calls of a tool take the slots in turn.
pub proof fn slots_cycle(start: usize, calls: nat)
    ensures
        slot_of(index_after(start, calls)) == (start as nat + calls) % (OUTPUT_SLOTS as nat),
    decreases calls,
{
    if calls > 0 {
        slots_cycle(start, (calls - 1) as nat);
        assert((usize::MAX as nat + 1) % 8 == 0);
    }
}

/// Calls that are fewer than `OUTPUT_SLOTS` apart have different slots.
pub proof fn nearby_slots_differ(start: usize, a: nat, b: nat)
    requires
        a < b < a + OUTPUT_SLOTS,
    ensures
        slot_of(index_after(start, a)) != slot_of(index_after(start, b)),
{
    slots_cycle(start, a);
    slots_cycle(start, b);
}

/// The three outputs of a command that may have to be saved.
#[derive(Debug, Clone, Copy, PartialEq, Eq, Structural)]
pub enum OutputKind {
    Stdout,
    Stderr,
    Combined,
}

pub open spec fn kind_prefix(kind: OutputKind) -> Seq<char> {
    match kind {
        OutputKind::Stdout => "stdout-"@,
        OutputKind::Stderr => "stderr-"@,
        OutputKind::Combined => "output-"@,
    }
}

/// The name of the file that holds an output.
pub open spec fn label(kind: OutputKind, slot: nat) -> Seq<char> {
    kind_prefix(kind) + decimal(slot)
}

/// Different outputs and different slots have different labels.
pub proof fn labels_differ(kind_a: OutputKind, slot_a: nat, kind_b: OutputKind, slot_b: nat)
    requires
        kind_a != kind_b || slot_a != slot_b,
    ensures
        label(kind_a, slot_a) != label(kind_b, slot_b),
{
    reveal_strlit("stdout-");
    reveal_strlit("stderr-");
    reveal_strlit("output-");
    let a = label(kind_a, slot_a);
    let b = label(kind_b, slot_b);
    if a == b {
        assert(a.take(7) == kind_prefix(kind_a));
        assert(b.take(7) == kind_prefix(kind_b));
        assert(a.skip(7) == decimal(slot_a));
        assert(b.skip(7) == decimal(slot_b));
        decimal_injective(slot_a, slot_b);
        assert(kind_prefix(kind_a)[0] == kind_prefix(kind_b)[0]);
        assert(kind_prefix(kind_a)[3] == kind_prefix(kind_b)[3]);
    }
}

/// The name of the file that holds an output.
pub fn output_label(kind: OutputKind, slot: usize) -> (r: String)
    ensures
        r@ == label(kind, slot as nat),
{
    let mut r = match kind {
        OutputKind::Stdout => "stdout-".to_owned(),
        OutputKind::Stderr => "stderr-".to_owned(),
        OutputKind::Combined => "output-".to_owned(),
    };
    r.append(decimal_text(slot as u64).as_str());
    r
}

// ---------------------------------------------------------------------------
// A call of the tool
// ---------------------------------------------------------------------------

/// The outputs of a command that ran, and the slot of its call.
#[derive(Debug, PartialEq)]
pub struct ShellPlan {
    pub slot: usize,
    pub stdout: String,
    pub stderr: String,
    pub combined: String,
}

/// A file to write: the output goes under the label.
#[derive(Debug, PartialEq)]
pub struct SaveRequest {
    pub label: String,
    pub content: String,
}

/// The label and the content of a save.
pub open spec fn save_view(request: SaveRequest) -> (Seq<char>, Seq<char>) {
    (request.label@, request.content@)
}

pub open spec fn save_views(requests: Seq<SaveRequest>) -> Seq<(Seq<char>, Seq<char>)> {
    requests.map_values(|r: SaveRequest| save_view(r))
}

/// The save that an output asks for, if it is too long.
pub open spec fn save_of(kind: OutputKind, slot: nat, output: Seq<char>) -> Seq<
    (Seq<char>, Seq<char>),
> {
    if over_limit(output) {
        seq![(label(kind, slot), output)]
    } else {
        Seq::empty()
    }
}

impl ShellPlan {
    /// The saves that the outputs ask for: stdout, then stderr, then both.
    pub open spec fn saves_view(self) -> Seq<(Seq<char>, Seq<char>)> {
        save_of(OutputKind::Stdout, self.slot as nat, self.stdout@) + save_of(
            OutputKind::Stderr,
            self.slot as nat,
            self.stderr@,
        ) + save_of(OutputKind::Combined, self.slot as nat, self.combined@)
    }

    /// Whether the replies are those of a run that makes the saves in order
    /// and stops at the first that fails.
    pub open spec fn answered_by(self, replies: Seq<Result<String, String>>) -> bool {
        &&& replies.len() <= self.saves_view().len()
        &&& forall|i: int| 0 <= i < replies.len() - 1 ==> (#[trigger] replies[i]) is Ok
        &&& replies.len() < self.saves_view().len() ==> replies.len() > 0 && replies.last() is Err
    }

    /// How many saves come before those of an output.
    pub open spec fn saves_before(self, kind: OutputKind) -> nat {
        match kind {
            OutputKind::Stdout => 0,
            OutputKind::Stderr => save_of(
                OutputKind::Stdout,
                self.slot as nat,
                self.stdout@,
            ).len(),
            OutputKind::Combined => save_of(
                OutputKind::Stdout,
                self.slot as nat,
                self.stdout@,
            ).len() + save_of(OutputKind::Stderr, self.slot as nat, self.stderr@).len(),
        }
    }

    /// What is shown of an output, by the reply to its save.
    pub open spec fn shown(self, kind: OutputKind, replies: Seq<Result<String, String>>) -> Result<
        Seq<char>,
        Seq<char>,
    > {
        let saved = saved_view(replies[self.saves_before(kind) as int]);
        match kind {
            OutputKind::Stdout => truncated(self.stdout@, saved),
            OutputKind::Stderr => truncated(self.stderr@, saved),
            OutputKind::Combined => rendered(self.combined@, saved),
        }
    }
}

impl ShellPlan {
    /// A call is answered with the outputs of the command where every save
    /// succeeded, and else with the error of the save that did not.
    pub proof fn answered_unless_save_failed(self, replies: Seq<Result<String, String>>)
        requires
            self.answered_by(replies),
        ensures
            if replies.len() > 0 && replies.last() is Err {
                let error = "Failed to write output buffer: "@ + replies.last()->Err_0@;
                ||| self.shown(OutputKind::Stdout, replies) == Err::<Seq<char>, Seq<char>>(error)
                ||| self.shown(OutputKind::Stdout, replies) is Ok && self.shown(
                    OutputKind::Stderr,
                    replies,
                ) == Err::<Seq<char>, Seq<char>>(error)
                ||| self.shown(OutputKind::Stdout, replies) is Ok && self.shown(
                    OutputKind::Stderr,
                    replies,
                ) is Ok && self.shown(OutputKind::Combined, replies) == Err::<
                    Seq<char>,
                    Seq<char>,
                >(error)
            } else {
                &&& self.shown(OutputKind::Stdout, replies) is Ok
                &&& self.shown(OutputKind::Stderr, replies) is Ok
                &&& self.shown(OutputKind::Combined, replies) is Ok
            },
    {
        no_output_shown(Ok(Seq::empty()));
        if self.combined@.len() == 0 {
            assert(self.combined@ == Seq::<char>::empty());
        }
    }
}

/// Whether a command that ran counts as failed: it was killed on timeout, or
/// did not exit with code 0, or its output could not be collected.
pub open spec fn failed(execution: ExecutionOutput) -> bool {
    ||| execution.timed_out
    ||| execution.exit_code != Some(0i32)
    ||| execution.output_collection_error is Some
}

pub open spec fn timeout_notice(timed_out: bool, timeout_secs: Option<u64>) -> Seq<char> {
    if !timed_out {
        Seq::empty()
    } else {
        match timeout_secs {
            Some(secs) => "\n\nCommand timed out after "@ + decimal(secs as nat) + " seconds"@,
            None => "\n\nCommand timed out"@,
        }
    }
}

pub open spec fn truncation_notice(output_truncated: bool) -> Seq<char> {
    if output_truncated {
        "\n\nOutput may be incomplete because stream draining timed out after process exit."@
    } else {
        Seq::empty()
    }
}

pub open spec fn collection_notice(error: Option<String>) -> Seq<char> {
    match error {
        Some(error) => "\n\nOutput collection error occurred; output may be incomplete: "@ + error@,
        None => Seq::empty(),
    }
}

pub open spec fn exit_notice(is_error: bool, exit_code: Option<i32>) -> Seq<char> {
    match exit_code {
        Some(code) => if is_error && code != 0 {
            "\n\nCommand exited with code "@ + signed_decimal(code as int)
        } else {
            Seq::empty()
        },
        None => Seq::empty(),
    }
}

/// What is shown of the output, and below it how the command ran.
pub open spec fn with_notices(
    shown: Seq<char>,
    execution: ExecutionOutput,
    timeout_secs: Option<u64>,
) -> Seq<char> {
    shown + timeout_notice(execution.timed_out, timeout_secs) + truncation_notice(
        execution.output_truncated,
    ) + collection_notice(execution.output_collection_error) + exit_notice(
        failed(execution),
        execution.exit_code,
    )
}

/// Whether a result is the error with the given message and exit code.
pub open spec fn is_error_result(
    result: ShellResult,
    message: Seq<char>,
    exit_code: Option<i32>,
) -> bool {
    &&& result.is_error
    &&& result.text@ == message
    &&& result.structured.stdout@ == Seq::<char>::empty()
    &&& result.structured.stderr@ == message
    &&& result.structured.exit_code == exit_code
    &&& !result.structured.timed_out
    &&& !result.structured.output_truncated
    &&& result.structured.output_collection_error is None
}

/// Whether a result is that of a command that ran, with the given texts shown
/// of its outputs.
pub open spec fn is_run_result(
    result: ShellResult,
    execution: ExecutionOutput,
    timeout_secs: Option<u64>,
    stdout: Seq<char>,
    stderr: Seq<char>,
    combined: Seq<char>,
) -> bool {
    &&& result.is_error == failed(execution)
    &&& result.text@ == with_notices(combined, execution, timeout_secs)
    &&& result.structured.stdout@ == stdout
    &&& result.structured.stderr@ == stderr
    &&& result.structured.exit_code == execution.exit_code
    &&& result.structured.timed_out == execution.timed_out
    &&& result.structured.output_truncated == execution.output_truncated
    &&& result.structured.output_collection_error == execution.output_collection_error
}

/// Whether a result answers a command that ran, by the replies to its saves.
pub open spec fn answers(
    result: ShellResult,
    execution: ExecutionOutput,
    timeout_secs: Option<u64>,
    plan: ShellPlan,
    replies: Seq<Result<String, String>>,
) -> bool {
    match plan.shown(OutputKind::Stdout, replies) {
        Err(error) => is_error_result(result, error, None),
        Ok(stdout) => match plan.shown(OutputKind::Stderr, replies) {
            Err(error) => is_error_result(result, error, None),
            Ok(stderr) => match plan.shown(OutputKind::Combined, replies) {
                Err(error) => is_error_result(result, error, None),
                Ok(combined) => is_run_result(
                    result,
                    execution,
                    timeout_secs,
                    stdout,
                    stderr,
                    combined,
                ),
            },
        },
    }
}

impl ShellTool {
    /// A tool that has counted no call.
    pub fn new(login_path: Option<String>) -> (r: ShellTool)
        ensures
            r.call_index == 0,
            r.login_path == login_path,
    {
        ShellTool { call_index: 0, login_path }
    }

    /// A tool that leaves the search path as it is.
    pub fn new_for_test() -> (r: ShellTool)
        ensures
            r.call_index == 0,
            r.login_path is None,
    {
        ShellTool::new(None)
    }

    /// Counts a call and gives it its slot.
    pub fn next_slot(&mut self) -> (r: usize)
        ensures
            r == slot_of(old(self).call_index),
            final(self).call_index == index_after(old(self).call_index, 1),
            final(self).login_path == old(self).login_path,
    {
        let index = self.call_index;
        self.call_index = index.wrapping_add(1);
        proof {
            reveal_with_fuel(index_after, 2);
        }
        index % OUTPUT_SLOTS
    }

    /// The answer to a command that cannot be run, if it cannot: one without
    /// anything but white space.
    pub fn refuse_empty(params: &ShellParams) -> (r: Option<ShellResult>)
        ensures
            r is Some <==> trimmed(params.command@).len() == 0,
            r matches Some(result) ==> is_error_result(result, "Command cannot be empty."@, None),
    {
        let command = trim_text(params.command.as_str());
        if command.as_str().is_empty() {
            Some(ShellTool::error_result("Command cannot be empty.", None))
        } else {
            None
        }
    }

    /// The outputs of a command that ran, under the next slot.
    pub fn plan_output(&mut self, lines: &[(bool, String)]) -> (r: ShellPlan)
        ensures
            r.slot == slot_of(old(self).call_index),
            r.stdout@ == joined(stream_texts(lines@, false), "\n"@),
            r.stderr@ == joined(stream_texts(lines@, true), "\n"@),
            r.combined@ == joined(line_texts(lines@), "\n"@),
            final(self).call_index == index_after(old(self).call_index, 1),
            final(self).login_path == old(self).login_path,
    {
        let (stdout, stderr, combined) = split_lines(lines);
        let slot = self.next_slot();
        ShellPlan { slot, stdout, stderr, combined }
    }

    /// The answer that consists of an error message.
    pub fn error_result(message: &str, exit_code: Option<i32>) -> (r: ShellResult)
        ensures
            is_error_result(r, message@, exit_code),
    {
        ShellResult {
            text: message.to_owned(),
            structured: ShellOutput {
                stdout: String::new(),
                stderr: message.to_owned(),
                exit_code,
                timed_out: false,
                output_truncated: false,
                output_collection_error: None,
            },
            is_error: true,
        }
    }
}

/// Appends the save that an output asks for, if it is too long.
fn push_save(requests: &mut Vec<SaveRequest>, kind: OutputKind, slot: usize, output: &String)
    ensures
        save_views(final(requests)@) == save_views(old(requests)@) + save_of(
            kind,
            slot as nat,
            output@,
        ),
{
    let ghost before = requests@;
    if needs_saving(output.as_str()) {
        let request = SaveRequest { label: output_label(kind, slot), content: output.clone() };
        requests.push(request);
        assert(save_views(requests@) == save_views(before).push(save_view(request)));
    }
    assert(save_views(requests@) == save_views(before) + save_of(kind, slot as nat, output@));
}

fn timeout_text(timed_out: bool, timeout_secs: Option<u64>) -> (r: String)
    ensures
        r@ == timeout_notice(timed_out, timeout_secs),
{
    if !timed_out {
        return String::new();
    }
    match timeout_secs {
        Some(secs) => {
            let mut r = "\n\nCommand timed out after ".to_owned();
            r.append(decimal_text(secs).as_str());
            r.append(" seconds");
            r
        },
        None => "\n\nCommand timed out".to_owned(),
    }
}

fn truncation_text(output_truncated: bool) -> (r: &'static str)
    ensures
        r@ == truncation_notice(output_truncated),
{
    if output_truncated {
        "\n\nOutput may be incomplete because stream draining timed out after process exit."
    } else {
        proof {
            reveal_strlit("");
        }
        assert(""@ == Seq::<char>::empty());
        ""
    }
}

fn collection_text(error: &Option<String>) -> (r: String)
    ensures
        r@ == collection_notice(*error),
{
    match error {
        Some(error) => {
            let mut r = "\n\nOutput collection error occurred; output may be incomplete: ".to_owned();
            r.append(error.as_str());
            r
        },
        None => String::new(),
    }
}

fn exit_text(is_error: bool, exit_code: Option<i32>) -> (r: String)
    ensures
        r@ == exit_notice(is_error, exit_code),
{
    match exit_code {
        Some(code) => if is_error && code != 0 {
            let mut r = "\n\nCommand exited with code ".to_owned();
            r.append(signed_decimal_text(code).as_str());
            r
        } else {
            String::new()
        },
        None => String::new(),
    }
}

/// The answer to a command that ran, with the given texts shown of its
/// outputs.
pub fn run_result(
    execution: &ExecutionOutput,
    timeout_secs: Option<u64>,
    stdout: String,
    stderr: String,
    combined: String,
) -> (r: ShellResult)
    ensures
        is_run_result(r, *execution, timeout_secs, stdout@, stderr@, combined@),
        !r.is_error <==> execution.exit_code == Some(0i32) && !execution.timed_out
            && execution.output_collection_error is None,
        execution.exit_code matches Some(code) ==> code != 0 ==> {
            let notice = "\n\nCommand exited with code "@ + signed_decimal(code as int);
            notice.len() <= r.text@.len() && r.text@.skip(r.text@.len() - notice.len()) == notice
        },
{
    let exit_failed = match execution.exit_code {
        Some(code) => code != 0,
        None => true,
    };
    let is_error = execution.timed_out || exit_failed
        || execution.output_collection_error.is_some();
    let mut text = combined;
    text.append(timeout_text(execution.timed_out, timeout_secs).as_str());
    text.append(truncation_text(execution.output_truncated));
    text.append(collection_text(&execution.output_collection_error).as_str());
    let ghost before_exit = text@;
    text.append(exit_text(is_error, execution.exit_code).as_str());
    assert(text@.skip(before_exit.len() as int) == exit_notice(is_error, execution.exit_code));
    let output_collection_error = match &execution.output_collection_error {
        Some(error) => Some(error.clone()),
        None => None,
    };
    ShellResult {
        text,
        structured: ShellOutput {
            stdout,
            stderr,
            exit_code: execution.exit_code,
            timed_out: execution.timed_out,
            output_truncated: execution.output_truncated,
            output_collection_error,
        },
        is_error,
    }
}

impl ShellPlan {
    /// The files to write before anything is shown, in order.
    pub fn saves(&self) -> (r: Vec<SaveRequest>)
        ensures
            save_views(r@) == self.saves_view(),
    {
        let mut requests: Vec<SaveRequest> = Vec::new();
        assert(save_views(requests@) == Seq::<(Seq<char>, Seq<char>)>::empty());
        push_save(&mut requests, OutputKind::Stdout, self.slot, &self.stdout);
        push_save(&mut requests, OutputKind::Stderr, self.slot, &self.stderr);
        push_save(&mut requests, OutputKind::Combined, self.slot, &self.combined);
        assert(save_views(requests@) == self.saves_view());
        requests
    }

    /// The answer of the tool, by the replies to the saves. The first save that
    /// failed is the answer; else the command's outputs are.
    pub fn finish(
        &self,
        execution: &ExecutionOutput,
        timeout_secs: Option<u64>,
        replies: &Vec<Result<String, String>>,
    ) -> (r: ShellResult)
        requires
            self.answered_by(replies@),
        ensures
            answers(r, *execution, timeout_secs, *self, replies@),
    {
        let unused: Result<String, String> = Ok(String::new());
        let mut next: usize = 0;
        let stdout_saved = if needs_saving(self.stdout.as_str()) {
            next = next + 1;
            &replies[0]
        } else {
            &unused
        };
        let stdout = match truncate_output(self.stdout.as_str(), stdout_saved) {
            Ok(text) => text,
            Err(error) => {
                return ShellTool::error_result(error.as_str(), None);
            },
        };
        let stderr_saved = if needs_saving(self.stderr.as_str()) {
            next = next + 1;
            &replies[next - 1]
        } else {
            &unused
        };
        let stderr = match truncate_output(self.stderr.as_str(), stderr_saved) {
            Ok(text) => text,
            Err(error) => {
                return ShellTool::error_result(error.as_str(), None);
            },
        };
        let combined_saved = if needs_saving(self.combined.as_str()) {
            &replies[next]
        } else {
            &unused
        };
        let text = match render_output(self.combined.as_str(), combined_saved) {
            Ok(text) => text,
            Err(error) => {
                return ShellTool::error_result(error.as_str(), None);
            },
        };
        run_result(execution, timeout_secs, stdout, stderr, text)
    }
}

} // verus!
