use junior::action::{extract_action_set, ActionType};
use junior::extract::{extract_json, ExtractionError};
use junior::json::JsonValue;

#[test]
fn fenced_json_block_is_extracted_exactly() {
    let output = "Sure, here is the plan:\n\
        ```json\n\
        {\"explanation\":\"create a note\",\"actions\":[{\"action_type\":\"create_file\",\"path\":\"a.txt\"}]}\n\
        ```\n\
        Let me know if you need more.";
    let set = extract_action_set(output).unwrap();
    assert_eq!(set.explanation, "create a note");
    assert_eq!(set.actions.len(), 1);
    assert_eq!(set.actions[0].action_type, ActionType::CreateFile);
    assert_eq!(set.actions[0].path, "a.txt");
    assert_eq!(set.actions[0].content, None);
}

#[test]
fn fence_without_json_tag_is_extracted() {
    let output = "```\n{\"explanation\":\"e\",\"actions\":[]}\n```";
    let set = extract_action_set(output).unwrap();
    assert_eq!(set.explanation, "e");
    assert_eq!(set.actions.len(), 0);
}

#[test]
fn embedded_object_is_isolated_by_depth_counting() {
    let output = "I will do the following {\"explanation\":\"braces { and } inside\",\
        \"actions\":[{\"action_type\":\"write_file\",\"path\":\"b.txt\",\"content\":\"x{y}z\"}]} and that is all.";
    let set = extract_action_set(output).unwrap();
    assert_eq!(set.explanation, "braces { and } inside");
    assert_eq!(set.actions.len(), 1);
    assert_eq!(set.actions[0].action_type, ActionType::WriteFile);
    assert_eq!(set.actions[0].content.as_deref(), Some("x{y}z"));
}

#[test]
fn nested_objects_are_not_cut_at_the_first_closing_brace() {
    let output = "{\"a\":{\"b\":{\"c\":1}},\"d\":2}";
    let v = extract_json(output).unwrap();
    match v {
        JsonValue::Object(members) => {
            assert_eq!(members.len(), 2);
            assert_eq!(members[0].0, "a");
            assert_eq!(members[1].0, "d");
        },
        other => panic!("expected an object, got {:?}", other),
    }
}

#[test]
fn no_json_at_all_is_no_json_found() {
    assert_eq!(
        extract_action_set("there is nothing structured here"),
        Err(ExtractionError::NoJsonFound)
    );
}

#[test]
fn unbalanced_brace_is_no_json_found() {
    assert_eq!(
        extract_action_set("an opening { without a close"),
        Err(ExtractionError::NoJsonFound)
    );
}

#[test]
fn balanced_but_invalid_json_is_malformed() {
    assert_eq!(
        extract_action_set("text { not json } text"),
        Err(ExtractionError::MalformedJson)
    );
}

#[test]
fn valid_json_of_the_wrong_shape_is_invalid_shape() {
    assert_eq!(
        extract_action_set("```json\n{\"explanation\":7,\"actions\":[]}\n```"),
        Err(ExtractionError::InvalidShape)
    );
    assert_eq!(
        extract_action_set("{\"explanation\":\"e\",\"actions\":[{\"action_type\":\"explode\",\"path\":\"x\"}]}"),
        Err(ExtractionError::InvalidShape)
    );
}

#[test]
fn content_null_parses_as_absent() {
    let output = "{\"explanation\":\"e\",\"actions\":[{\"action_type\":\"write_file\",\"path\":\"a\",\"content\":null}]}";
    let set = extract_action_set(output).unwrap();
    assert_eq!(set.actions[0].content, None);
}

#[test]
fn later_json_fence_wins_over_earlier_plain_fence() {
    let output = "```\nsome shell commands\n```\nand then\n```json\n{\"explanation\":\"second\",\"actions\":[]}\n```";
    let set = extract_action_set(output).unwrap();
    assert_eq!(set.explanation, "second");
}

#[test]
fn empty_input_is_no_json_found() {
    assert_eq!(extract_action_set(""), Err(ExtractionError::NoJsonFound));
}
