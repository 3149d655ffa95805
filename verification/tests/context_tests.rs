use aishell::context::{Context, Role, SYSTEM_PROMPT};

#[test]
fn new_context_holds_exactly_one_system_message() {
    let ctx = Context::new();
    assert_eq!(ctx.len(), 1);
    let m = ctx.message_at(0);
    assert_eq!(m.role, Role::System);
    assert_eq!(m.content.as_deref(), Some(SYSTEM_PROMPT));
    assert!(m.tool_calls.is_none());
    assert!(m.tool_call_id.is_none());
}

#[test]
fn reset_always_yields_one_system_message() {
    let mut ctx = Context::new();
    ctx.append_user("first prompt");
    ctx.append_user("second prompt");
    ctx.append_tool_result("call_1".to_string(), "{}".to_string());
    assert_eq!(ctx.len(), 4);
    ctx.reset();
    assert_eq!(ctx.len(), 1);
    assert_eq!(ctx.message_at(0).role, Role::System);
    assert_eq!(ctx.message_at(0).content.as_deref(), Some(SYSTEM_PROMPT));
}

#[test]
fn append_user_keeps_order() {
    let mut ctx = Context::new();
    ctx.append_user("hello");
    assert_eq!(ctx.len(), 2);
    let m = ctx.message_at(1);
    assert_eq!(m.role, Role::User);
    assert_eq!(m.content.as_deref(), Some("hello"));
}

#[test]
fn append_tool_result_carries_id_and_content() {
    let mut ctx = Context::new();
    ctx.append_tool_result("call_7".to_string(), "output".to_string());
    let m = ctx.message_at(1);
    assert_eq!(m.role, Role::Tool);
    assert_eq!(m.tool_call_id.as_deref(), Some("call_7"));
    assert_eq!(m.content.as_deref(), Some("output"));
}
