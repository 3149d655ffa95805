//! The fixed request parameters every chat turn carries: the model, the
//! completion budget, and the one tool schema offered to the model.

use vstd::prelude::*;

verus! {

/// The model the service is asked for.
pub const MODEL_NAME: &'static str = "gpt-4.1-mini";

/// The completion-token budget of one chat turn.
pub const MAX_COMPLETION_TOKENS: u32 = 4096;

/// The name of the one supported tool function.
pub const EXEC_TOOL_NAME: &'static str = "exec";

/// What the exec function is described as to the model.
pub const EXEC_TOOL_DESCRIPTION: &'static str = "execute a bash command";

/// The JSON schema of the exec function's parameters: a command (required),
/// an advisory timeout in seconds, and the dangerous flag.
pub const EXEC_TOOL_PARAMETERS_JSON: &'static str = "{\"type\":\"object\",\"properties\":{\"command\":{\"type\":\"string\",\"description\":\"The bash command to execute, e.g. `ping 127.0.0.1`\"},\"timeout\":{\"type\":\"number\",\"description\":\"Timeout in seconds for this bash command (default: 10 seconds)\"},\"dangerous\":{\"type\":\"boolean\",\"description\":\"Is this command potentially dangerous? This will require the user to manually accept the command before it will be executed.\"}},\"required\":[\"command\"]}";

/// The one tool offered to the model on every request: the exec function, its
/// description, and its parameter schema as JSON text.
pub struct ToolSchema {
    pub name: String,
    pub description: String,
    pub parameters_json: String,
}

/// The fixed request configuration sent with every chat turn.
pub struct ModelConfig {
    pub model: String,
    pub max_completion_tokens: u32,
}

/// The exec tool schema, the same on every request.
pub fn exec_tool_schema() -> (r: ToolSchema)
    ensures
        r.name@ == EXEC_TOOL_NAME@,
        r.description@ == EXEC_TOOL_DESCRIPTION@,
        r.parameters_json@ == EXEC_TOOL_PARAMETERS_JSON@,
{
    ToolSchema {
        name: EXEC_TOOL_NAME.to_owned(),
        description: EXEC_TOOL_DESCRIPTION.to_owned(),
        parameters_json: EXEC_TOOL_PARAMETERS_JSON.to_owned(),
    }
}

/// The model and budget, the same on every request.
pub fn model_config() -> (r: ModelConfig)
    ensures
        r.model@ == MODEL_NAME@,
        r.max_completion_tokens == MAX_COMPLETION_TOKENS,
{
    ModelConfig { model: MODEL_NAME.to_owned(), max_completion_tokens: MAX_COMPLETION_TOKENS }
}

} // verus!
