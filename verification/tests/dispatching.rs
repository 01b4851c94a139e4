use junior::action::{Action, ActionType};
use junior::chat::{FunctionCall, ToolCall};
use junior::dispatch::{plan_actions, Effect, StepPlan};
use junior::tools::{plan_tool_call, DispatchError};

fn action(ty: ActionType, path: &str, content: Option<&str>) -> Action {
    Action {
        action_type: ty,
        path: path.to_string(),
        content: content.map(|c| c.to_string()),
    }
}

fn call(name: &str, arguments: &str) -> ToolCall {
    ToolCall {
        id: "call-1".to_string(),
        tool_type: "function".to_string(),
        function: FunctionCall { name: name.to_string(), arguments: arguments.to_string() },
    }
}

#[test]
fn create_then_write_is_planned_in_order() {
    let actions = vec![
        action(ActionType::CreateFile, "a.txt", None),
        action(ActionType::WriteFile, "a.txt", Some("hello")),
    ];
    let plan = plan_actions("/work", &actions);
    assert_eq!(plan.abort_at, None);
    assert_eq!(
        plan.steps,
        vec![
            StepPlan::Perform(Effect::CreateFile { path: "/work/a.txt".to_string(), content: None }),
            StepPlan::Perform(Effect::WriteFile {
                path: "/work/a.txt".to_string(),
                content: "hello".to_string(),
            }),
        ]
    );
}

#[test]
fn unsafe_path_aborts_the_rest_of_the_batch() {
    let actions = vec![
        action(ActionType::CreateFile, "safe.txt", None),
        action(ActionType::WriteFile, "../../etc/passwd", Some("x")),
        action(ActionType::CreateFile, "never.txt", None),
    ];
    let plan = plan_actions("/work", &actions);
    assert_eq!(plan.abort_at, Some(1));
    assert_eq!(plan.steps.len(), 1);
    assert_eq!(
        plan.steps[0],
        StepPlan::Perform(Effect::CreateFile { path: "/work/safe.txt".to_string(), content: None })
    );
}

#[test]
fn missing_content_is_skipped_and_the_batch_goes_on() {
    let actions = vec![
        action(ActionType::WriteFile, "a.txt", None),
        action(ActionType::CreateFile, "b.txt", None),
    ];
    let plan = plan_actions("/work", &actions);
    assert_eq!(plan.abort_at, None);
    assert_eq!(plan.steps.len(), 2);
    assert_eq!(plan.steps[0], StepPlan::SkipMissingContent);
    assert_eq!(
        plan.steps[1],
        StepPlan::Perform(Effect::CreateFile { path: "/work/b.txt".to_string(), content: None })
    );
}

#[test]
fn read_and_delete_are_planned_on_resolved_paths() {
    let actions = vec![
        action(ActionType::ReadFile, "r.txt", None),
        action(ActionType::DeleteFile, "d.txt", None),
    ];
    let plan = plan_actions("/work", &actions);
    assert_eq!(
        plan.steps,
        vec![
            StepPlan::Perform(Effect::ReadFile { path: "/work/r.txt".to_string() }),
            StepPlan::Perform(Effect::DeleteFile { path: "/work/d.txt".to_string() }),
        ]
    );
}

#[test]
fn tool_call_create_file_is_planned_with_resolved_path() {
    let c = call("create_file", "{\"path\":\"sub/a.txt\",\"contents\":\"hi\"}");
    assert_eq!(
        plan_tool_call("/work", &c),
        Ok(Effect::CreateFile {
            path: "/work/sub/a.txt".to_string(),
            content: Some("hi".to_string()),
        })
    );
}

#[test]
fn tool_call_move_file_resolves_both_paths() {
    let c = call("move_file", "{\"from_path\":\"a.txt\",\"to_path\":\"b/c.txt\"}");
    assert_eq!(
        plan_tool_call("/work", &c),
        Ok(Effect::MoveFile {
            from_path: "/work/a.txt".to_string(),
            to_path: "/work/b/c.txt".to_string(),
        })
    );
}

#[test]
fn tool_call_with_unknown_name_is_unknown_action() {
    let c = call("format_disk", "{\"path\":\"a\"}");
    assert_eq!(plan_tool_call("/work", &c), Err(DispatchError::UnknownAction));
}

#[test]
fn tool_call_with_bad_json_arguments_is_malformed() {
    let c = call("create_file", "not json at all");
    assert_eq!(plan_tool_call("/work", &c), Err(DispatchError::MalformedArguments));
}

#[test]
fn tool_call_with_escaping_path_is_unsafe() {
    let c = call("write_file", "{\"path\":\"../../etc/passwd\",\"contents\":\"x\"}");
    assert_eq!(plan_tool_call("/work", &c), Err(DispatchError::UnsafePath));
    let m = call("move_file", "{\"from_path\":\"ok.txt\",\"to_path\":\"../out.txt\"}");
    assert_eq!(plan_tool_call("/work", &m), Err(DispatchError::UnsafePath));
}

#[test]
fn tool_call_missing_required_field_is_schema_error() {
    let c = call("write_file", "{\"path\":\"a.txt\"}");
    assert_eq!(plan_tool_call("/work", &c), Err(DispatchError::SchemaError));
    let d = call("append_file", "{\"contents\":\"x\"}");
    assert_eq!(plan_tool_call("/work", &d), Err(DispatchError::SchemaError));
}

#[test]
fn unsafe_path_wins_over_missing_content() {
    let c = call("write_file", "{\"path\":\"../../x\"}");
    assert_eq!(plan_tool_call("/work", &c), Err(DispatchError::UnsafePath));
}

#[test]
fn unknown_name_wins_over_unsafe_path() {
    let c = call("format_disk", "{\"path\":\"../../x\"}");
    assert_eq!(plan_tool_call("/work", &c), Err(DispatchError::UnknownAction));
}
