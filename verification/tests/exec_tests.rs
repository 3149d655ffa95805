use aishell::exec::{batch_contents, plan_batch, plan_run, tool_content, ExecOutcome, ExecRequest,
    ExecResult};

fn req(command: &str, dangerous: bool) -> ExecRequest {
    ExecRequest { command: command.to_string(), timeout_secs: None, dangerous }
}

#[test]
fn dangerous_request_is_never_handed_to_the_executor() {
    assert_eq!(plan_run(&req("rm -rf /", true)), None);
    assert_eq!(plan_run(&req("echo hi", false)), Some("echo hi".to_string()));
}

#[test]
fn plan_batch_decides_position_by_position() {
    let requests = vec![req("echo a", false), req("shutdown now", true), req("echo b", false)];
    let plans = plan_batch(&requests);
    assert_eq!(
        plans,
        vec![Some("echo a".to_string()), None, Some("echo b".to_string())]
    );
}

#[test]
fn dangerous_request_yields_policy_rejection_content() {
    let content = tool_content(&req("rm -rf /", true), &None);
    assert_eq!(content, "error: not executing dangerous command \"rm -rf /\"");
}

#[test]
fn completed_run_is_rendered_as_json() {
    let outcome = Some(ExecOutcome::Completed(ExecResult {
        exit_code: 0,
        stdout: "hello\n".to_string(),
        stderr: String::new(),
    }));
    let content = tool_content(&req("echo hello", false), &outcome);
    assert_eq!(content, "{\"exit_code\":0,\"stderr\":\"\",\"stdout\":\"hello\\n\"}");
}

#[test]
fn failed_run_is_rendered_as_error_text() {
    let outcome = Some(ExecOutcome::Failed("spawn failed".to_string()));
    let content = tool_content(&req("echo hi", false), &outcome);
    assert_eq!(content, "error: spawn failed");
}

#[test]
fn batch_contents_follow_the_requests() {
    let requests = vec![req("echo hi", false), req("rm -rf /", true)];
    let outcomes = vec![
        Some(ExecOutcome::Completed(ExecResult {
            exit_code: 2,
            stdout: String::new(),
            stderr: "boom".to_string(),
        })),
        None,
    ];
    let contents = batch_contents(&requests, &outcomes);
    assert_eq!(contents.len(), 2);
    assert_eq!(contents[0], "{\"exit_code\":2,\"stderr\":\"boom\",\"stdout\":\"\"}");
    assert_eq!(contents[1], "error: not executing dangerous command \"rm -rf /\"");
}

#[test]
fn echo_hello_runs_to_a_clean_exec_result() {
    // the same spawn the surrounding application performs for a planned command
    let command = plan_run(&req("echo hello", false)).unwrap();
    let runtime = tokio::runtime::Builder::new_current_thread().enable_all().build().unwrap();
    let output = runtime
        .block_on(async {
            tokio::process::Command::new("/usr/bin/env")
                .arg("bash")
                .arg("-c")
                .arg(command)
                .output()
                .await
        })
        .unwrap();
    let result = ExecResult {
        exit_code: output.status.code().unwrap_or(-1),
        stdout: String::from_utf8_lossy(&output.stdout).into_owned(),
        stderr: String::from_utf8_lossy(&output.stderr).into_owned(),
    };
    assert_eq!(
        result,
        ExecResult { exit_code: 0, stdout: "hello\n".to_string(), stderr: String::new() }
    );
}
