//! Laws of the shell tool.

use crate::laws::text::{
    begins_with, blank, ends_with, part_between, part_of, pieces_by_separators,
    trimmed_of_white_space,
};
use crate::shell::{
    answers, collection_notice, exit_notice, index_after, is_error_result, is_run_result, label,
    limit_reason, line_texts, no_output_shown, over_limit,
    preview, preview_is_the_end, rendered, save_views, shortened, slot_of, stream_texts,
    timeout_notice, truncated, truncation_notice, with_notices, ExecutionOutput, OutputKind,
    SaveRequest, ShellParams, ShellPlan, ShellResult, ShellTool,
};
use crate::shell_call::{
    call_invariant, call_started, call_step, expects, goes_on, plans_lines, ShellAction,
    ShellEvent, ShellPhase,
};
use crate::text::{
    decimal, joined, joined_concat, pieces, pieces_join, signed_decimal,
};
use vstd::prelude::*;
use vstd::utf8::encode_utf8;

verus! {

// ---------------------------------------------------------------------------
// Outputs
// ---------------------------------------------------------------------------

/// A stream has the texts of exactly its own lines, in the order of arrival,
/// and the interleaved output has those of all lines.
pub proof fn streams_are_the_lines_of_their_tag(lines: Seq<(bool, String)>)
    ensures
        stream_texts(lines, false) == lines.filter_map(
            |l: (bool, String)|
                if l.0 {
                    None
                } else {
                    Some(l.1@)
                },
        ),
        stream_texts(lines, true) == lines.filter_map(
            |l: (bool, String)|
                if l.0 {
                    Some(l.1@)
                } else {
                    None
                },
        ),
        line_texts(lines).len() == lines.len(),
        forall|i: int| 0 <= i < lines.len() ==> #[trigger] line_texts(lines)[i] == lines[i].1@,
    decreases lines.len(),
{
    if lines.len() > 0 {
        streams_are_the_lines_of_their_tag(lines.drop_last());
    }
}

/// An output is too long where it has more than 1999 line feeds or more than
/// 50000 bytes.
pub proof fn too_long_by_lines_or_bytes(output: Seq<char>)
    ensures
        over_limit(output) <==> output.filter(|c: char| c == '\n').len() > 1999 || encode_utf8(
            output,
        ).len() > 50000,
{
    pieces_by_separators(output, '\n');
}

/// What is shown of a long output are whole lines from its end: either all of
/// it, or it comes right after a line feed.
pub proof fn preview_has_whole_lines(output: Seq<char>)
    ensures
        ends_with(output, preview(output)),
        preview(output).len() == output.len() || output[output.len() - preview(output).len() - 1]
            == '\n',
        output.filter(|c: char| c == '\n').len() < 50 ==> preview(output) == output,
        output.filter(|c: char| c == '\n').len() >= 50 ==> preview(output).filter(
            |c: char| c == '\n',
        ).len() == 49,
{
    reveal_strlit("\n");
    assert("\n"@ == seq!['\n']);
    let lines = pieces(output, '\n');
    pieces_join(output, '\n');
    pieces_by_separators(output, '\n');
    pieces_by_separators(preview(output), '\n');
    preview_is_the_end(output);
    let start = if lines.len() > 50 {
        lines.len() - 50
    } else {
        0
    };
    let tail = lines.skip(start);
    assert(preview(output) == joined(tail, seq!['\n']));
    if start > 0 {
        joined_concat(lines.take(start), tail, seq!['\n']);
        assert(lines.take(start) + tail == lines);
        let front = joined(lines.take(start), seq!['\n']);
        assert(output == front + seq!['\n'] + preview(output));
        assert(output[front.len() as int] == '\n');
    } else {
        assert(tail == lines);
        assert(output.skip(0) == output);
    }
}

/// What is shown of a long output: first its end, then which limit it exceeds
/// and by how much, by its line feeds or its bytes, then where the whole of it
/// is and how to read it; and nothing else.
pub proof fn long_output_is_told_of(output: Seq<char>, path: Seq<char>)
    ensures
        ({
            let lines = output.filter(|c: char| c == '\n').len() + 1;
            let reason = if lines > 2000 {
                "Output exceeded 2000 line limit ("@ + decimal(lines) + " lines total)."@
            } else {
                "Output exceeded 50000 byte limit ("@ + decimal(encode_utf8(output).len())
                    + " bytes total)."@
            };
            let place = " Full output saved to "@ + path
                + ". Read it with shell commands like `head`, `tail`, or `sed -n '100,200p'` up to 2000 lines at a time.]"@;
            &&& begins_with(shortened(output, path), preview(output) + "\n\n["@)
            &&& part_of(reason, shortened(output, path))
            &&& ends_with(shortened(output, path), place)
            &&& shortened(output, path).len() == preview(output).len() + "\n\n["@.len()
                + reason.len() + place.len()
        }),
{
    pieces_by_separators(output, '\n');
    let text = shortened(output, path);
    let head = preview(output) + "\n\n["@;
    let place = " Full output saved to "@ + path
        + ". Read it with shell commands like `head`, `tail`, or `sed -n '100,200p'` up to 2000 lines at a time.]"@;
    let reason = limit_reason(output);
    assert(text == head + reason + place);
    assert(text.take(head.len() as int) == head);
    assert(text.skip(text.len() - place.len()) == place);
    part_between(head, reason, place);
    decimal_of_limits();
    reveal_strlit("Output exceeded ");
    reveal_strlit(" line limit (");
    reveal_strlit(" byte limit (");
    reveal_strlit("Output exceeded 2000 line limit (");
    reveal_strlit("Output exceeded 50000 byte limit (");
    assert("Output exceeded 2000 line limit ("@ == "Output exceeded "@ + seq!['2', '0', '0', '0']
        + " line limit ("@);
    assert("Output exceeded 50000 byte limit ("@ == "Output exceeded "@ + seq![
        '5',
        '0',
        '0',
        '0',
        '0',
    ] + " byte limit ("@);
}

proof fn decimal_of_limits()
    ensures
        decimal(2000) == seq!['2', '0', '0', '0'],
        decimal(50000) == seq!['5', '0', '0', '0', '0'],
{
    reveal_with_fuel(decimal, 6);
    assert(decimal(2000) == seq!['2', '0', '0', '0']);
    assert(decimal(50000) == seq!['5', '0', '0', '0', '0']);
}

/// An output that is not too long is shown whole, whatever became of any save;
/// one that is too long is shown by its end where it was saved, and else the
/// error of the save is told. No output at all is told of.
pub proof fn outputs_are_shown(output: Seq<char>, saved: Result<Seq<char>, Seq<char>>)
    ensures
        !over_limit(output) ==> truncated(output, saved) == Ok::<Seq<char>, Seq<char>>(output),
        over_limit(output) ==> (truncated(output, saved) is Ok <==> saved is Ok),
        over_limit(output) && saved is Ok ==> truncated(output, saved) == Ok::<
            Seq<char>,
            Seq<char>,
        >(shortened(output, saved->Ok_0)),
        over_limit(output) && saved is Err ==> truncated(output, saved) == Err::<
            Seq<char>,
            Seq<char>,
        >("Failed to write output buffer: "@ + saved->Err_0),
        output.len() > 0 ==> rendered(output, saved) == truncated(output, saved),
        output.len() == 0 ==> rendered(output, saved) == Ok::<Seq<char>, Seq<char>>(
            "(no output)"@,
        ) && !over_limit(output),
{
    if output.len() == 0 {
        assert(output == Seq::<char>::empty());
        no_output_shown(saved);
    }
}

// ---------------------------------------------------------------------------
// Slots and saves
// ---------------------------------------------------------------------------

/// A call takes the slot of its count modulo eight, and the count goes up by
/// one, wrapping round.
pub proof fn slot_of_call(count: usize)
    ensures
        slot_of(count) == count % 8,
        count < usize::MAX ==> index_after(count, 1) == count + 1,
        count == usize::MAX ==> index_after(count, 1) == 0,
{
    reveal_with_fuel(index_after, 2);
}

/// The file of an output is named by the output and the slot.
pub proof fn files_named_by_output_and_slot(slot: nat)
    ensures
        label(OutputKind::Stdout, slot) == "stdout-"@ + decimal(slot),
        label(OutputKind::Stderr, slot) == "stderr-"@ + decimal(slot),
        label(OutputKind::Combined, slot) == "output-"@ + decimal(slot),
{
}

/// The output of a kind.
pub open spec fn output_of(plan: ShellPlan, kind: OutputKind) -> Seq<char> {
    match kind {
        OutputKind::Stdout => plan.stdout@,
        OutputKind::Stderr => plan.stderr@,
        OutputKind::Combined => plan.combined@,
    }
}

/// Exactly the outputs that are too long are saved, each whole, under its own
/// label, and what is shown of it hangs on the reply to its own save.
pub proof fn long_outputs_are_saved(
    plan: ShellPlan,
    kind: OutputKind,
    replies: Seq<Result<String, String>>,
)
    requires
        over_limit(output_of(plan, kind)),
    ensures
        ({
            let place = plan.saves_before(kind) as int;
            &&& 0 <= place < plan.saves_view().len()
            &&& plan.saves_view()[place] == (
                label(kind, plan.slot as nat),
                output_of(plan, kind),
            )
            &&& replies[place] matches Ok(path) ==> plan.shown(kind, replies) == Ok::<
                Seq<char>,
                Seq<char>,
            >(shortened(output_of(plan, kind), path@))
            &&& replies[place] matches Err(error) ==> plan.shown(kind, replies) == Err::<
                Seq<char>,
                Seq<char>,
            >("Failed to write output buffer: "@ + error@)
        }),
{
    if plan.combined@.len() == 0 {
        assert(plan.combined@ == Seq::<char>::empty());
        no_output_shown(Ok(Seq::empty()));
    }
}

/// Every save is that of an output that is too long, and there are as many as
/// there are such outputs; an output that is not too long is shown whole.
pub proof fn nothing_else_is_saved(plan: ShellPlan, replies: Seq<Result<String, String>>)
    ensures
        forall|i: int|
            0 <= i < plan.saves_view().len() ==> over_limit((#[trigger] plan.saves_view()[i]).1)
                && exists|kind: OutputKind|
                plan.saves_view()[i] == (
                    label(kind, plan.slot as nat),
                    #[trigger] output_of(plan, kind),
                ),
        plan.saves_view().len() == (if over_limit(plan.stdout@) {
            1int
        } else {
            0
        }) + (if over_limit(plan.stderr@) {
            1int
        } else {
            0
        }) + (if over_limit(plan.combined@) {
            1int
        } else {
            0
        }),
        !over_limit(plan.stdout@) ==> plan.shown(OutputKind::Stdout, replies) == Ok::<
            Seq<char>,
            Seq<char>,
        >(plan.stdout@),
        !over_limit(plan.stderr@) ==> plan.shown(OutputKind::Stderr, replies) == Ok::<
            Seq<char>,
            Seq<char>,
        >(plan.stderr@),
        !over_limit(plan.combined@) ==> plan.shown(OutputKind::Combined, replies) == Ok::<
            Seq<char>,
            Seq<char>,
        >(
            if plan.combined@.len() == 0 {
                "(no output)"@
            } else {
                plan.combined@
            },
        ),
{
    let (a, b, c) = (
        output_of(plan, OutputKind::Stdout),
        output_of(plan, OutputKind::Stderr),
        output_of(plan, OutputKind::Combined),
    );
}

/// The saves are those asked for, one by one.
pub proof fn saves_one_by_one(requests: Seq<SaveRequest>)
    ensures
        save_views(requests).len() == requests.len(),
        forall|i: int|
            0 <= i < requests.len() ==> #[trigger] save_views(requests)[i] == (
                requests[i].label@,
                requests[i].content@,
            ),
{
}

// ---------------------------------------------------------------------------
// Answers
// ---------------------------------------------------------------------------

/// An error is told in the text and on the error stream, and nothing else is
/// told.
pub proof fn errors_are_told(result: ShellResult, message: Seq<char>, exit_code: Option<i32>)
    requires
        is_error_result(result, message, exit_code),
    ensures
        result.is_error,
        result.text@ == message,
        result.structured.stderr@ == message,
        result.structured.stdout@.len() == 0,
        result.structured.exit_code == exit_code,
        !result.structured.timed_out && !result.structured.output_truncated,
        result.structured.output_collection_error is None,
{
}

/// What the text of a command that ran tells: first its output, then each thing
/// that went wrong, and nothing else.
pub open spec fn tells_how_it_ran(
    text: Seq<char>,
    shown: Seq<char>,
    execution: ExecutionOutput,
    timeout_secs: Option<u64>,
) -> bool {
    &&& begins_with(text, shown)
    &&& execution.exit_code matches Some(code) ==> code != 0 ==> ends_with(
        text,
        "\n\nCommand exited with code "@ + signed_decimal(code as int),
    )
    &&& execution.timed_out ==> match timeout_secs {
        Some(secs) => begins_with(
            text,
            shown + "\n\nCommand timed out after "@ + decimal(secs as nat) + " seconds"@,
        ),
        None => begins_with(text, shown + "\n\nCommand timed out"@),
    }
    &&& execution.output_truncated ==> part_of(
        "\n\nOutput may be incomplete because stream draining timed out after process exit."@,
        text,
    )
    &&& execution.output_collection_error matches Some(error) ==> part_of(
        "\n\nOutput collection error occurred; output may be incomplete: "@ + error@,
        text,
    )
    &&& text.len() == shown.len() + (if execution.timed_out {
        match timeout_secs {
            Some(secs) => "\n\nCommand timed out after "@.len() + decimal(secs as nat).len()
                + " seconds"@.len(),
            None => "\n\nCommand timed out"@.len(),
        }
    } else {
        0
    }) + (if execution.output_truncated {
        "\n\nOutput may be incomplete because stream draining timed out after process exit."@.len()
    } else {
        0
    }) + (match execution.output_collection_error {
        Some(error) => "\n\nOutput collection error occurred; output may be incomplete: "@.len()
            + error@.len(),
        None => 0,
    }) + (match execution.exit_code {
        Some(code) => if code != 0 {
            "\n\nCommand exited with code "@.len() + signed_decimal(code as int).len()
        } else {
            0
        },
        None => 0,
    })
}

/// A command is reported as a success exactly where it exited with 0 in time
/// and its output was collected, and its text tells how it ran; the rest is
/// reported as it was.
pub proof fn runs_are_reported(
    result: ShellResult,
    execution: ExecutionOutput,
    timeout_secs: Option<u64>,
    stdout: Seq<char>,
    stderr: Seq<char>,
    combined: Seq<char>,
)
    requires
        is_run_result(result, execution, timeout_secs, stdout, stderr, combined),
    ensures
        !result.is_error <==> execution.exit_code == Some(0i32) && !execution.timed_out
            && execution.output_collection_error is None,
        tells_how_it_ran(result.text@, combined, execution, timeout_secs),
        result.structured.stdout@ == stdout,
        result.structured.stderr@ == stderr,
        result.structured.exit_code == execution.exit_code,
        result.structured.timed_out == execution.timed_out,
        result.structured.output_truncated == execution.output_truncated,
        result.structured.output_collection_error == execution.output_collection_error,
{
    let text = with_notices(combined, execution, timeout_secs);
    let timeout = timeout_notice(execution.timed_out, timeout_secs);
    let cut = truncation_notice(execution.output_truncated);
    let uncollected = collection_notice(execution.output_collection_error);
    let exited = exit_notice(result.is_error, execution.exit_code);
    assert(text == combined + timeout + cut + uncollected + exited);
    assert(text.take(combined.len() as int) == combined);
    assert(text.take((combined + timeout).len() as int) == combined + timeout);
    assert(text == (combined + timeout + cut + uncollected) + exited);
    assert(text.skip(text.len() - exited.len()) == exited);
    assert(text == (combined + timeout) + cut + (uncollected + exited));
    part_between(combined + timeout, cut, uncollected + exited);
    part_between(combined + timeout + cut, uncollected, exited);
    if execution.timed_out {
        match timeout_secs {
            Some(secs) => {
                assert(combined + timeout == combined + "\n\nCommand timed out after "@ + decimal(
                    secs as nat,
                ) + " seconds"@);
            },
            None => {},
        }
    }
}

/// Where every save succeeded a call is answered with what the command did: as
/// a success exactly where it exited with 0 in time and its output was
/// collected, with the outputs and with how it ran.
pub proof fn calls_report_the_command(
    result: ShellResult,
    execution: ExecutionOutput,
    timeout_secs: Option<u64>,
    plan: ShellPlan,
    replies: Seq<Result<String, String>>,
)
    requires
        answers(result, execution, timeout_secs, plan, replies),
        plan.answered_by(replies),
        replies.len() > 0 ==> replies.last() is Ok,
    ensures
        !result.is_error <==> execution.exit_code == Some(0i32) && !execution.timed_out
            && execution.output_collection_error is None,
        plan.shown(OutputKind::Combined, replies) matches Ok(shown) && tells_how_it_ran(
            result.text@,
            shown,
            execution,
            timeout_secs,
        ),
        plan.shown(OutputKind::Stdout, replies) == Ok::<Seq<char>, Seq<char>>(
            result.structured.stdout@,
        ),
        plan.shown(OutputKind::Stderr, replies) == Ok::<Seq<char>, Seq<char>>(
            result.structured.stderr@,
        ),
        result.structured.exit_code == execution.exit_code,
        result.structured.timed_out == execution.timed_out,
        result.structured.output_truncated == execution.output_truncated,
        result.structured.output_collection_error == execution.output_collection_error,
{
    plan.answered_unless_save_failed(replies);
    runs_are_reported(
        result,
        execution,
        timeout_secs,
        plan.shown(OutputKind::Stdout, replies)->Ok_0,
        plan.shown(OutputKind::Stderr, replies)->Ok_0,
        plan.shown(OutputKind::Combined, replies)->Ok_0,
    );
}

// ---------------------------------------------------------------------------
// Calls
// ---------------------------------------------------------------------------

/// A command that is not blank is run as it was given, in the directory given
/// and with the search path of the tool; a blank one is refused.
pub proof fn commands_are_run_as_given<P>(
    tool: ShellTool,
    params: ShellParams,
    dir: Option<P>,
    phase: ShellPhase,
    action: ShellAction<P>,
)
    requires
        call_started(tool, params, dir, phase, action),
    ensures
        action is Answer <==> blank(params.command@),
        action is Answer || action is Run,
        action matches ShellAction::Run(request) ==> request.command == params.command
            && request.timeout_secs == params.timeout_secs && request.working_dir == dir
            && request.login_path == tool.login_path && phase == (ShellPhase::Running {
            timeout_secs: params.timeout_secs,
        }),
        action matches ShellAction::Answer(result) ==> result.is_error && result.text@
            == "Command cannot be empty."@ && phase == ShellPhase::Done,
{
    trimmed_of_white_space(params.command@);
}

/// While outputs are being saved nothing of the call is forgotten, and each
/// reply is kept behind those before it.
pub proof fn calls_forget_nothing<P>(
    before: ShellTool,
    phase: ShellPhase,
    event: ShellEvent,
    after: ShellTool,
    next: ShellPhase,
    action: ShellAction<P>,
)
    requires
        call_step(before, phase, event, after, next, action),
    ensures
        after.login_path == before.login_path,
        event is Ran ==> after.call_index == index_after(before.call_index, 1),
        !(event is Ran) ==> after == before,
        next matches ShellPhase::Saving { execution, timeout_secs, plan, replies } ==> {
            &&& event matches ShellEvent::Ran(ran) ==> execution == ran && replies@.len() == 0
                && plan.slot == slot_of(before.call_index) && plans_lines(plan, ran.lines@) && phase
                == (ShellPhase::Running { timeout_secs })
            &&& event matches ShellEvent::Saved(path) ==> {
                &&& phase matches ShellPhase::Saving {
                    execution: execution0,
                    timeout_secs: timeout0,
                    plan: plan0,
                    replies: replies0,
                } && execution0 == execution && timeout0 == timeout_secs && plan0 == plan
                    && replies@ == replies0@.push(Ok(path))
            }
            &&& event is Ran || event is Saved
            &&& action matches ShellAction::Save(request) && (request.label@, request.content@)
                == plan.saves_view()[replies@.len() as int]
        },
        event matches ShellEvent::RunFailed(error) ==> (action matches ShellAction::Answer(result)
            && result.is_error && result.text@ == error@),
{
}

/// The outputs of a call are the lines of the command: each stream its own, the
/// combined output all of them.
pub proof fn outputs_are_the_lines(plan: ShellPlan, lines: Seq<(bool, String)>)
    requires
        plans_lines(plan, lines),
    ensures
        plan.stdout@ == joined(
            lines.filter_map(
                |l: (bool, String)|
                    if l.0 {
                        None
                    } else {
                        Some(l.1@)
                    },
            ),
            "\n"@,
        ),
        plan.stderr@ == joined(
            lines.filter_map(
                |l: (bool, String)|
                    if l.0 {
                        Some(l.1@)
                    } else {
                        None
                    },
            ),
            "\n"@,
        ),
        plan.combined@ == joined(lines.map_values(|l: (bool, String)| l.1@), "\n"@),
{
    streams_are_the_lines_of_their_tag(lines);
    assert(line_texts(lines) == lines.map_values(|l: (bool, String)| l.1@));
}

/// A command whose outputs are all short is answered at once, with the outputs
/// whole; and a save that failed is the answer.
pub proof fn short_calls_are_answered_at_once<P>(
    before: ShellTool,
    timeout_secs: Option<u64>,
    execution: ExecutionOutput,
    after: ShellTool,
    next: ShellPhase,
    action: ShellAction<P>,
)
    requires
        call_step(
            before,
            ShellPhase::Running { timeout_secs },
            ShellEvent::Ran(execution),
            after,
            next,
            action,
        ),
        !over_limit(joined(stream_texts(execution.lines@, false), "\n"@)),
        !over_limit(joined(stream_texts(execution.lines@, true), "\n"@)),
        !over_limit(joined(line_texts(execution.lines@), "\n"@)),
    ensures
        next == ShellPhase::Done,
        action matches ShellAction::Answer(result) && {
            let combined = joined(line_texts(execution.lines@), "\n"@);
            &&& !result.is_error <==> execution.exit_code == Some(0i32) && !execution.timed_out
                && execution.output_collection_error is None
            &&& tells_how_it_ran(
                result.text@,
                if combined.len() == 0 {
                    "(no output)"@
                } else {
                    combined
                },
                execution,
                timeout_secs,
            )
            &&& result.structured.stdout@ == joined(stream_texts(execution.lines@, false), "\n"@)
            &&& result.structured.stderr@ == joined(stream_texts(execution.lines@, true), "\n"@)
            &&& result.structured.exit_code == execution.exit_code
        },
{
    let plan = choose|plan: ShellPlan| #[trigger]
        plans_lines(plan, execution.lines@) && plan.slot == slot_of(before.call_index)
            && goes_on(
            next,
            action,
            execution,
            timeout_secs,
            plan,
            Seq::empty(),
        );
    let replies = Seq::<Result<String, String>>::empty();
    nothing_else_is_saved(plan, replies);
    if let ShellAction::Answer(result) = action {
        calls_report_the_command(result, execution, timeout_secs, plan, replies);
    }
}

/// When the last save succeeded the call is answered with what the command did;
/// before that it goes on with the next save.
pub proof fn saved_calls_are_answered<P>(
    before: ShellTool,
    execution: ExecutionOutput,
    timeout_secs: Option<u64>,
    plan: ShellPlan,
    replies: Vec<Result<String, String>>,
    path: String,
    after: ShellTool,
    next: ShellPhase,
    action: ShellAction<P>,
)
    requires
        call_invariant(ShellPhase::Saving { execution, timeout_secs, plan, replies }),
        call_step(
            before,
            ShellPhase::Saving { execution, timeout_secs, plan, replies },
            ShellEvent::Saved(path),
            after,
            next,
            action,
        ),
    ensures
        replies@.len() + 1 < plan.saves_view().len() ==> action is Save && next is Saving,
        replies@.len() + 1 == plan.saves_view().len() ==> next == ShellPhase::Done && (
        action matches ShellAction::Answer(result) && {
            let all = replies@.push(Ok(path));
            &&& !result.is_error <==> execution.exit_code == Some(0i32) && !execution.timed_out
                && execution.output_collection_error is None
            &&& plan.shown(OutputKind::Combined, all) matches Ok(shown) && tells_how_it_ran(
                result.text@,
                shown,
                execution,
                timeout_secs,
            )
            &&& plan.shown(OutputKind::Stdout, all) == Ok::<Seq<char>, Seq<char>>(
                result.structured.stdout@,
            )
            &&& plan.shown(OutputKind::Stderr, all) == Ok::<Seq<char>, Seq<char>>(
                result.structured.stderr@,
            )
            &&& result.structured.exit_code == execution.exit_code
        }),
{
    let all = replies@.push(Ok(path));
    assert forall|i: int| 0 <= i < all.len() implies (#[trigger] all[i]) is Ok by {
        if i < replies@.len() {
            assert(all[i] == replies@[i]);
        }
    }
    if replies@.len() + 1 == plan.saves_view().len() {
        if let ShellAction::Answer(result) = action {
            calls_report_the_command(result, execution, timeout_secs, plan, all);
        }
    }
}

/// A save that failed is the answer, as an error that tells why.
pub proof fn failed_saves_are_the_answer<P>(
    before: ShellTool,
    phase: ShellPhase,
    error: String,
    after: ShellTool,
    next: ShellPhase,
    action: ShellAction<P>,
)
    requires
        call_invariant(phase),
        call_step(before, phase, ShellEvent::SaveFailed(error), after, next, action),
    ensures
        next == ShellPhase::Done,
        action matches ShellAction::Answer(result) && result.is_error && result.text@
            == "Failed to write output buffer: "@ + error@,
{
    if let ShellPhase::Saving { execution, timeout_secs, plan, replies } = phase {
        let all = replies@.push(Err(error));
        assert forall|i: int| 0 <= i < all.len() - 1 implies (#[trigger] all[i]) is Ok by {
            assert(all[i] == replies@[i]);
        }
        plan.answered_unless_save_failed(all);
    }
}

/// A call that runs can run or fail, and one that saves can save or fail.
pub proof fn calls_expect(phase: ShellPhase, execution: ExecutionOutput, text: String)
    ensures
        phase is Running ==> expects(phase, ShellEvent::Ran(execution)) && expects(
            phase,
            ShellEvent::RunFailed(text),
        ),
        phase is Saving ==> expects(phase, ShellEvent::Saved(text)) && expects(
            phase,
            ShellEvent::SaveFailed(text),
        ),
{
}

} // verus!
