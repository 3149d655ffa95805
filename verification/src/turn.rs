//! One turn of the orchestration loop: interpreting a model response and
//! committing a dispatched batch's results to the log. The surrounding
//! application performs the network call and runs the commands; every
//! decision in between stands here.

use vstd::prelude::*;

use crate::context::{Context, Message, ToolCallRef, is_assistant_tool_message, is_tool_message};
use crate::exec::{ExecRequest, decode_exec_args, exec_args_of};

verus! {

/// One choice of a model response, reduced to what the loop reads: optional
/// final text and an optional ordered batch of tool calls.
#[derive(Debug, PartialEq)]
pub struct ChatChoice {
    pub content: Option<String>,
    pub tool_calls: Option<Vec<ToolCallRef>>,
}

/// A fatal failure of one turn. The session surfaces it to the user and then
/// awaits new input; the process itself goes on.
#[derive(Debug, PartialEq)]
pub enum TurnError {
    /// The service answered with zero choices.
    EmptyChoices,
    /// The chosen message carried neither tool calls nor text.
    NoContent,
    /// A tool call named a function other than exec; carries that name.
    UnknownFunction(String),
    /// A tool call's arguments did not decode; carries the argument text.
    BadArguments(String),
}

/// What the loop does next after one model response: hand the final text to
/// the caller, or dispatch the batch of decoded exec requests and ask again.
#[derive(Debug)]
pub enum ModelStep {
    Final(String),
    ToolBatch { calls: Vec<ToolCallRef>, requests: Vec<ExecRequest> },
}

/// A call the dispatcher accepts: it names the exec function and its
/// arguments decode.
pub open spec fn call_ok(c: ToolCallRef) -> bool {
    c.function_name@ == "exec"@ && exec_args_of(c.arguments_json@) is Some
}

/// Every call of the batch is acceptable.
pub open spec fn batch_ok(calls: Seq<ToolCallRef>) -> bool {
    forall|i: int| 0 <= i < calls.len() ==> call_ok(calls[i])
}

/// The position of the first unacceptable call, or the batch's length where
/// every call is acceptable.
pub open spec fn first_fault(calls: Seq<ToolCallRef>) -> int
    decreases calls.len(),
{
    if calls.len() == 0 {
        0
    } else if !call_ok(calls[0]) {
        0
    } else {
        1 + first_fault(calls.drop_first())
    }
}

/// A position that is unacceptable, while all before it are acceptable, is
/// the first fault.
proof fn lemma_first_fault_at(calls: Seq<ToolCallRef>, j: int)
    requires
        0 <= j < calls.len(),
        !call_ok(calls[j]),
        forall|k: int| 0 <= k < j ==> call_ok(calls[k]),
    ensures
        first_fault(calls) == j,
        !batch_ok(calls),
    decreases j,
{
    if j == 0 {
    } else {
        assert(call_ok(calls[0]));
        assert(calls.drop_first()[j - 1] == calls[j]);
        assert forall|k: int| 0 <= k < j - 1 implies call_ok(calls.drop_first()[k]) by {
            assert(calls.drop_first()[k] == calls[k + 1]);
        }
        lemma_first_fault_at(calls.drop_first(), j - 1);
    }
}

/// The decoded request carries exactly the argument fields.
pub open spec fn request_matches(req: ExecRequest, t: (Seq<char>, Option<u64>, bool)) -> bool {
    req.command@ == t.0 && req.timeout_secs == t.1 && req.dangerous == t.2
}

/// Interpret one model response against the log.
///
/// With zero choices, or a first choice carrying neither tool calls nor text,
/// the turn fails and the log is untouched. With tool calls, the whole batch
/// is examined first: a call naming a function other than exec, or with
/// arguments that do not decode, aborts the turn before anything is appended.
/// Only a fully acceptable batch appends the assistant message (carrying the
/// calls verbatim) and hands out the decoded requests for dispatch. With
/// final text and no tool calls, the text is the turn's result and the log is
/// untouched: no dispatch happens.
#[verifier::loop_isolation(false)]
pub fn on_model_response(ctx: &mut Context, choices: &Vec<ChatChoice>) -> (r: Result<
    ModelStep,
    TurnError,
>)
    ensures
        choices@.len() == 0 ==> (r matches Err(e) && e is EmptyChoices
            && final(ctx)@ == old(ctx)@),
        (choices@.len() > 0 && choices@[0].tool_calls is None && choices@[0].content is Some) ==> (
        r matches Ok(s) && s matches ModelStep::Final(t) && t@ == choices@[0].content->0@
            && final(ctx)@ == old(ctx)@),
        (choices@.len() > 0 && choices@[0].tool_calls is None && choices@[0].content is None) ==> (
        r matches Err(e) && e is NoContent && final(ctx)@ == old(ctx)@),
        (choices@.len() > 0 && choices@[0].tool_calls is Some && batch_ok(
            choices@[0].tool_calls->0@,
        )) ==> (r matches Ok(s) && s matches ModelStep::ToolBatch { calls, requests }
            && calls@ == choices@[0].tool_calls->0@ && requests@.len() == calls@.len() && (
        forall|i: int|
            0 <= i < calls@.len() ==> request_matches(
                requests@[i],
                exec_args_of(calls@[i].arguments_json@)->0,
            )) && final(ctx)@.len() == old(ctx)@.len() + 1 && final(ctx)@.drop_last() == old(ctx)@
            && is_assistant_tool_message(final(ctx)@.last(), calls@)),
        (choices@.len() > 0 && choices@[0].tool_calls is Some && !batch_ok(
            choices@[0].tool_calls->0@,
        )) ==> (final(ctx)@ == old(ctx)@ && ({
            let calls = choices@[0].tool_calls->0@;
            let j = first_fault(calls);
            if calls[j].function_name@ != "exec"@ {
                r matches Err(e) && e matches TurnError::UnknownFunction(n) && n@
                    == calls[j].function_name@
            } else {
                r matches Err(e) && e matches TurnError::BadArguments(a) && a@
                    == calls[j].arguments_json@
            }
        })),
{
    if choices.len() == 0 {
        return Err(TurnError::EmptyChoices);
    }
    let choice = &choices[0];
    match &choice.tool_calls {
        Some(calls) => {
            let exec_name: String = "exec".to_owned();
            let mut requests: Vec<ExecRequest> = Vec::new();
            let mut log_calls: Vec<ToolCallRef> = Vec::new();
            let mut step_calls: Vec<ToolCallRef> = Vec::new();
            let mut i: usize = 0;
            while i < calls.len()
                invariant
                    i <= calls@.len(),
                    exec_name@ == "exec"@,
                    requests@.len() == i,
                    log_calls@ == calls@.subrange(0, i as int),
                    step_calls@ == calls@.subrange(0, i as int),
                    forall|k: int| 0 <= k < i ==> call_ok(calls@[k]),
                    forall|k: int|
                        0 <= k < i ==> request_matches(
                            requests@[k],
                            exec_args_of(calls@[k].arguments_json@)->0,
                        ),
                decreases calls@.len() - i,
            {
                let call = &calls[i];
                if !call.function_name.eq(&exec_name) {
                    proof {
                        lemma_first_fault_at(calls@, i as int);
                    }
                    return Err(TurnError::UnknownFunction(call.function_name.clone()));
                }
                match decode_exec_args(call.arguments_json.as_str()) {
                    Some(req) => {
                        requests.push(req);
                    },
                    None => {
                        proof {
                            lemma_first_fault_at(calls@, i as int);
                        }
                        return Err(TurnError::BadArguments(call.arguments_json.clone()));
                    },
                }
                log_calls.push(call.clone());
                step_calls.push(call.clone());
                proof {
                    assert(log_calls@ =~= calls@.subrange(0, i as int + 1));
                    assert(step_calls@ =~= calls@.subrange(0, i as int + 1));
                }
                i += 1;
            }
            proof {
                assert(log_calls@ =~= calls@);
                assert(step_calls@ =~= calls@);
            }
            ctx.append_assistant_tool_calls(log_calls);
            Ok(ModelStep::ToolBatch { calls: step_calls, requests })
        },
        None => {
            match &choice.content {
                Some(t) => Ok(ModelStep::Final(t.clone())),
                None => Err(TurnError::NoContent),
            }
        },
    }
}

/// Commit one dispatched batch: append, in the calls' issuance order, one
/// tool message per call, carrying the call's id and its rendered result.
/// Nothing already in the log moves; exactly one tool message is gained per
/// call, whatever order the underlying commands finished in.
pub fn append_batch_results(ctx: &mut Context, calls: &Vec<ToolCallRef>, contents: &Vec<String>)
    requires
        calls@.len() == contents@.len(),
    ensures
        final(ctx)@.len() == old(ctx)@.len() + calls@.len(),
        final(ctx)@.subrange(0, old(ctx)@.len() as int) == old(ctx)@,
        forall|i: int|
            0 <= i < calls@.len() ==> is_tool_message(
                final(ctx)@[old(ctx)@.len() + i],
                calls@[i].id@,
                contents@[i]@,
            ),
{
    let mut i: usize = 0;
    while i < calls.len()
        invariant
            i <= calls@.len(),
            calls@.len() == contents@.len(),
            ctx@.len() == old(ctx)@.len() + i,
            ctx@.subrange(0, old(ctx)@.len() as int) == old(ctx)@,
            forall|k: int|
                0 <= k < i ==> is_tool_message(
                    ctx@[old(ctx)@.len() + k],
                    calls@[k].id@,
                    contents@[k]@,
                ),
        decreases calls@.len() - i,
    {
        let ghost prev = ctx@;
        ctx.append_tool_result(calls[i].id.clone(), contents[i].clone());
        proof {
            assert(ctx@.drop_last() == prev);
            assert(ctx@.subrange(0, old(ctx)@.len() as int) =~= prev.subrange(
                0,
                old(ctx)@.len() as int,
            ));
            assert forall|k: int| 0 <= k < i + 1 implies is_tool_message(
                #[trigger] ctx@[old(ctx)@.len() + k],
                calls@[k].id@,
                contents@[k]@,
            ) by {
                if k < i {
                    assert(ctx@[old(ctx)@.len() + k] == prev[old(ctx)@.len() + k]);
                }
            }
        }
        i += 1;
    }
}

/// One committed batch round changes the log in exactly one way: after the
/// round, the log holds everything it held before, then the assistant message
/// carrying the batch's calls, then exactly one tool message per call, each
/// carrying the id of the call at its own position — the calls' issuance
/// order, independent of the order the underlying commands finished in.
///
/// The premises are what `on_model_response` ensures of a committed batch
/// (`before` to `mid`) and what `append_batch_results` ensures of the results
/// (`mid` to `after`).
pub proof fn lemma_batch_commit_shape(
    before: Seq<Message>,
    mid: Seq<Message>,
    after: Seq<Message>,
    calls: Seq<ToolCallRef>,
    contents: Seq<String>,
)
    requires
        mid.len() == before.len() + 1,
        mid.drop_last() == before,
        is_assistant_tool_message(mid.last(), calls),
        after.len() == mid.len() + calls.len(),
        after.subrange(0, mid.len() as int) == mid,
        forall|i: int|
            0 <= i < calls.len() ==> is_tool_message(
                after[mid.len() + i],
                calls[i].id@,
                contents[i]@,
            ),
    ensures
        after.len() == before.len() + 1 + calls.len(),
        after.subrange(0, before.len() as int) == before,
        is_assistant_tool_message(after[before.len() as int], calls),
        forall|i: int|
            0 <= i < calls.len() ==> is_tool_message(
                after[before.len() + 1 + i],
                calls[i].id@,
                contents[i]@,
            ),
{
    assert(after[before.len() as int] == mid[before.len() as int]);
    assert(mid[before.len() as int] == mid.last());
    assert(after.subrange(0, before.len() as int) =~= before) by {
        assert forall|k: int| 0 <= k < before.len() implies after[k] == before[k] by {
            assert(after[k] == mid[k]);
            assert(mid[k] == mid.drop_last()[k]);
        }
    }
}

/// The text a turn error surfaces to the user.
pub open spec fn turn_error_text(e: TurnError) -> Seq<char> {
    match e {
        TurnError::EmptyChoices => "empty response (`choices` is empty)"@,
        TurnError::NoContent => "no content in response message"@,
        TurnError::UnknownFunction(n) => "unknown function "@ + n@,
        TurnError::BadArguments(a) => "could not decode exec arguments "@ + a@,
    }
}

impl TurnError {
    /// Render the error for the user.
    pub fn message(&self) -> (r: String)
        ensures
            r@ == turn_error_text(*self),
    {
        match self {
            TurnError::EmptyChoices => "empty response (`choices` is empty)".to_owned(),
            TurnError::NoContent => "no content in response message".to_owned(),
            TurnError::UnknownFunction(n) => "unknown function ".to_owned().concat(n.as_str()),
            TurnError::BadArguments(a) => "could not decode exec arguments ".to_owned().concat(
                a.as_str(),
            ),
        }
    }
}

} // verus!

