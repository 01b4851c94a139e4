use junior::catalogue::definitions_to_json;
use junior::chat::{record_assistant_text, record_tool_calls, record_user_message, FunctionCall, ToolCall};
use junior::chat::{initialize_log, Role};
use junior::json::{json_to_string, str_to_chars, JsonValue};
use junior::parse::parse_text;
use junior::tools::{tool_definitions, tools_registry};

fn member<'a>(v: &'a JsonValue, key: &str) -> &'a JsonValue {
    match v {
        JsonValue::Object(members) => {
            for (k, val) in members {
                if k == key {
                    return val;
                }
            }
            panic!("no member named {}", key);
        },
        other => panic!("expected an object, got {:?}", other),
    }
}

fn text(v: &JsonValue) -> &str {
    match v {
        JsonValue::Text(t) => t,
        other => panic!("expected a string, got {:?}", other),
    }
}

#[test]
fn registry_lists_the_six_tools_in_order() {
    let registry = tools_registry();
    let names: Vec<&str> = registry.iter().map(|t| t.name()).collect();
    assert_eq!(
        names,
        vec!["create_file", "delete_file", "append_file", "create_dir", "move_file", "write_file"]
    );
}

#[test]
fn definitions_carry_names_and_required_fields() {
    let defs = tool_definitions();
    assert_eq!(defs.len(), 6);
    assert_eq!(defs[0].function.name, "create_file");
    assert_eq!(defs[0].function.parameters.required, vec!["path".to_string()]);
    assert_eq!(defs[5].function.name, "write_file");
    assert_eq!(
        defs[5].function.parameters.required,
        vec!["path".to_string(), "contents".to_string()]
    );
    assert_eq!(
        defs[4].function.parameters.required,
        vec!["from_path".to_string(), "to_path".to_string()]
    );
    for d in &defs {
        assert_eq!(d.function.parameters.schema_type, "object");
        for (_, field) in &d.function.parameters.properties {
            assert_eq!(field.field_type, "string");
            assert!(field.description.is_some());
            assert!(field.enum_values.is_none());
        }
    }
}

#[test]
fn catalogue_round_trips_through_its_json_text() {
    let defs = tool_definitions();
    let wire = definitions_to_json(&defs);
    let rendered = json_to_string(&wire);
    let parsed = parse_text(&str_to_chars(rendered.as_str())).unwrap();
    assert_eq!(parsed, wire);
    match &parsed {
        JsonValue::Array(entries) => {
            assert_eq!(entries.len(), 6);
            let first = &entries[0];
            assert_eq!(text(member(first, "type")), "function");
            let function = member(first, "function");
            assert_eq!(text(member(function, "name")), "create_file");
            let parameters = member(function, "parameters");
            assert_eq!(text(member(parameters, "type")), "object");
            match member(parameters, "required") {
                JsonValue::Array(req) => {
                    assert_eq!(req.len(), 1);
                    assert_eq!(text(&req[0]), "path");
                },
                other => panic!("expected an array, got {:?}", other),
            }
        },
        other => panic!("expected an array, got {:?}", other),
    }
}

#[test]
fn initialize_log_starts_with_the_system_prompt() {
    let defs = tool_definitions();
    let log = initialize_log("be helpful".to_string(), "some-model".to_string(), defs, None);
    assert_eq!(log.model, "some-model");
    assert_eq!(log.messages.len(), 1);
    assert_eq!(log.messages[0].role, Role::System);
    assert_eq!(log.messages[0].content.as_deref(), Some("be helpful"));
}

#[test]
fn initialize_log_quotes_context_after_the_preamble() {
    let log = initialize_log(
        "be helpful".to_string(),
        "some-model".to_string(),
        tool_definitions(),
        Some("fn main() {}".to_string()),
    );
    assert_eq!(log.messages.len(), 2);
    assert_eq!(log.messages[1].role, Role::User);
    assert_eq!(
        log.messages[1].content.as_deref(),
        Some("Let's take a look at this together:\n\nfn main() {}")
    );
}

#[test]
fn recording_turns_appends_in_order() {
    let mut log = initialize_log("sys".to_string(), "m".to_string(), tool_definitions(), None);
    record_user_message(&mut log, "make a file".to_string());
    record_assistant_text(&mut log, "working on it".to_string());
    record_tool_calls(
        &mut log,
        vec![ToolCall {
            id: "1".to_string(),
            tool_type: "function".to_string(),
            function: FunctionCall {
                name: "create_file".to_string(),
                arguments: "{\"path\":\"a\"}".to_string(),
            },
        }],
    );
    assert_eq!(log.messages.len(), 4);
    assert_eq!(log.messages[1].role, Role::User);
    assert_eq!(log.messages[1].content.as_deref(), Some("make a file"));
    assert_eq!(log.messages[2].role, Role::Assistant);
    assert_eq!(log.messages[3].content, None);
    assert_eq!(log.messages[3].tool_calls.as_ref().unwrap()[0].function.name, "create_file");
}
