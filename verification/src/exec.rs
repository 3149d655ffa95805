//! The exec tool: argument decoding, the execution policy, and the rendering
//! of each call's result into the text stored in the conversation log.

use vstd::prelude::*;

verus! {

/// One decoded request to run a shell command, as carried by a tool call's
/// JSON arguments: the command itself, an advisory timeout in whole seconds
/// (accepted but not enforced), and whether the model flagged the command as
/// dangerous.
#[derive(Debug, PartialEq)]
pub struct ExecRequest {
    pub command: String,
    pub timeout_secs: Option<u64>,
    pub dangerous: bool,
}

/// What a completed child process produced: its raw exit status and its
/// captured output streams.
#[derive(Debug, PartialEq)]
pub struct ExecResult {
    pub exit_code: i32,
    pub stdout: String,
    pub stderr: String,
}

/// How one command run ended: the process ran to completion (with any exit
/// status), or it could not be spawned or awaited, with the I/O failure
/// rendered as text. Such a failure stays local to its own call.
#[derive(Debug, PartialEq)]
pub enum ExecOutcome {
    Completed(ExecResult),
    Failed(String),
}

/// The fields of a well-formed exec argument object in the text `s`: the
/// command, the timeout's whole-second value where one is given and integral,
/// and the dangerous flag (absent meaning false); `None` where `s` is not
/// such an object.
pub uninterp spec fn exec_args_of(s: Seq<char>) -> Option<(Seq<char>, Option<u64>, bool)>;

/// Relies on serde_json::from_str and serde_json::Value's accessors `get`,
/// `as_str`, `is_number`, `as_u64` and `as_bool`: the decoded fields are a
/// function of the argument text alone.
#[verifier::external_body]
pub(crate) fn decode_exec_args(s: &str) -> (r: Option<ExecRequest>)
    ensures
        (match r {
            Some(req) => exec_args_of(s@) matches Some(t) && req.command@ == t.0
                && req.timeout_secs == t.1 && req.dangerous == t.2,
            None => exec_args_of(s@) is None,
        }),
{
    let v: serde_json::Value = serde_json::from_str(s).ok()?;
    let command = v.get("command")?.as_str()?.to_owned();
    let timeout_secs = match v.get("timeout") {
        None => None,
        Some(t) if t.is_number() => t.as_u64(),
        Some(_) => return None,
    };
    let dangerous = match v.get("dangerous") {
        None => false,
        Some(b) => b.as_bool()?,
    };
    Some(ExecRequest { command, timeout_secs, dangerous })
}

/// The JSON rendering of an exec result: one object with the fields
/// exit_code, stdout and stderr.
pub uninterp spec fn exec_result_json(exit_code: int, stdout: Seq<char>, stderr: Seq<char>) -> Seq<char>;

/// Relies on serde_json::Map::insert and serde_json::Value's Display
/// rendering (`to_string`), which cannot fail and depends on the three field
/// values alone.
#[verifier::external_body]
fn encode_exec_result(exit_code: i32, stdout: &str, stderr: &str) -> (r: String)
    ensures
        r@ == exec_result_json(exit_code as int, stdout@, stderr@),
{
    let mut m = serde_json::Map::new();
    m.insert("exit_code".to_owned(), serde_json::Value::from(exit_code));
    m.insert("stdout".to_owned(), serde_json::Value::from(stdout));
    m.insert("stderr".to_owned(), serde_json::Value::from(stderr));
    serde_json::Value::Object(m).to_string()
}

/// The std Debug rendering of a string: the text in double quotes, with
/// escapes.
pub uninterp spec fn str_debug(s: Seq<char>) -> Seq<char>;

/// Relies on std's Debug formatting for str: the rendering is a function of
/// the characters alone.
#[verifier::external_body]
fn quote_str(s: &str) -> (r: String)
    ensures
        r@ == str_debug(s@),
{
    format!("{s:?}")
}

/// The text stored for a command the policy refused: the rejection, rendered
/// as the error text the executor surfaces for it.
pub open spec fn policy_rejection_content(command: Seq<char>) -> Seq<char> {
    "error: not executing dangerous command "@ + str_debug(command)
}

/// The text stored in the log for one call: the policy rejection for a
/// dangerous request, the JSON rendering of a completed run, or the error
/// text of a run that failed to start.
pub open spec fn tool_content_spec(req: ExecRequest, outcome: Option<ExecOutcome>) -> Seq<char> {
    match outcome {
        None => policy_rejection_content(req.command@),
        Some(ExecOutcome::Completed(res)) => exec_result_json(
            res.exit_code as int,
            res.stdout@,
            res.stderr@,
        ),
        Some(ExecOutcome::Failed(e)) => "error: "@ + e@,
    }
}

/// Decide whether the policy lets one request reach the executor: the command
/// is handed out exactly when the request is not flagged dangerous. A
/// dangerous request yields no command, so no process is ever spawned for it.
pub fn plan_run(req: &ExecRequest) -> (r: Option<String>)
    ensures
        req.dangerous ==> r is None,
        !req.dangerous ==> (r matches Some(c) && c@ == req.command@),
{
    if req.dangerous {
        None
    } else {
        Some(req.command.clone())
    }
}

/// Decide a whole batch, position by position: the command to run for each
/// request that the policy admits, and nothing for a dangerous one.
pub fn plan_batch(requests: &Vec<ExecRequest>) -> (r: Vec<Option<String>>)
    ensures
        r@.len() == requests@.len(),
        forall|i: int|
            0 <= i < r@.len() ==> (requests@[i].dangerous ==> r@[i] is None),
        forall|i: int|
            0 <= i < r@.len() ==> (!requests@[i].dangerous ==> (r@[i] matches Some(c)
                && c@ == requests@[i].command@)),
{
    let mut plans: Vec<Option<String>> = Vec::new();
    let mut i: usize = 0;
    while i < requests.len()
        invariant
            i <= requests@.len(),
            plans@.len() == i,
            forall|k: int|
                0 <= k < i ==> (requests@[k].dangerous ==> plans@[k] is None),
            forall|k: int|
                0 <= k < i ==> (!requests@[k].dangerous ==> (plans@[k] matches Some(c)
                    && c@ == requests@[k].command@)),
        decreases requests@.len() - i,
    {
        plans.push(plan_run(&requests[i]));
        i += 1;
    }
    plans
}

/// The tool-result text for one call. The caller hands an outcome exactly for
/// the requests it ran, that is, for those the policy admitted.
pub fn tool_content(req: &ExecRequest, outcome: &Option<ExecOutcome>) -> (r: String)
    requires
        (outcome is None) == req.dangerous,
    ensures
        r@ == tool_content_spec(*req, *outcome),
{
    match outcome {
        None => {
            let quoted = quote_str(req.command.as_str());
            "error: not executing dangerous command ".to_owned().concat(quoted.as_str())
        },
        Some(ExecOutcome::Completed(res)) => encode_exec_result(
            res.exit_code,
            res.stdout.as_str(),
            res.stderr.as_str(),
        ),
        Some(ExecOutcome::Failed(e)) => "error: ".to_owned().concat(e.as_str()),
    }
}

/// The tool-result texts of a whole batch, in the calls' issuance order.
pub fn batch_contents(requests: &Vec<ExecRequest>, outcomes: &Vec<Option<ExecOutcome>>) -> (r: Vec<
    String,
>)
    requires
        outcomes@.len() == requests@.len(),
        forall|i: int|
            0 <= i < requests@.len() ==> ((outcomes@[i] is None) == requests@[i].dangerous),
    ensures
        r@.len() == requests@.len(),
        forall|i: int|
            0 <= i < r@.len() ==> r@[i]@ == tool_content_spec(requests@[i], outcomes@[i]),
{
    let mut contents: Vec<String> = Vec::new();
    let mut i: usize = 0;
    while i < requests.len()
        invariant
            i <= requests@.len(),
            outcomes@.len() == requests@.len(),
            contents@.len() == i,
            forall|k: int|
                0 <= k < requests@.len() ==> ((outcomes@[k] is None) == requests@[k].dangerous),
            forall|k: int|
                0 <= k < i ==> contents@[k]@ == tool_content_spec(requests@[k], outcomes@[k]),
        decreases requests@.len() - i,
    {
        contents.push(tool_content(&requests[i], &outcomes[i]));
        i += 1;
    }
    contents
}

/// A dangerous request never reaches the executor, and its stored tool result
/// is always the policy rejection text for its command.
pub proof fn lemma_dangerous_rejected(req: ExecRequest, outcome: Option<ExecOutcome>)
    requires
        req.dangerous,
        (outcome is None) == req.dangerous,
    ensures
        tool_content_spec(req, outcome) == policy_rejection_content(req.command@),
{
}

} // verus!
