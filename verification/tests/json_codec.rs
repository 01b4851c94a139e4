use junior::json::{json_to_string, str_to_chars, JsonValue};
use junior::parse::parse_text;

fn parse(text: &str) -> Option<JsonValue> {
    parse_text(&str_to_chars(text))
}

#[test]
fn scalars_parse() {
    assert_eq!(parse("null"), Some(JsonValue::Null));
    assert_eq!(parse(" true "), Some(JsonValue::Bool(true)));
    assert_eq!(parse("false"), Some(JsonValue::Bool(false)));
    assert_eq!(parse("-12.5e3"), Some(JsonValue::Number("-12.5e3".to_string())));
    assert_eq!(parse("\"hi\""), Some(JsonValue::Text("hi".to_string())));
}

#[test]
fn escapes_parse_and_render() {
    assert_eq!(parse("\"a\\n\\t\\\\\\\"b\""), Some(JsonValue::Text("a\n\t\\\"b".to_string())));
    let v = JsonValue::Text("quote \" slash \\ newline \n".to_string());
    let rendered = json_to_string(&v);
    assert_eq!(rendered, "\"quote \\\" slash \\\\ newline \\n\"");
    assert_eq!(parse(rendered.as_str()), Some(v));
}

#[test]
fn arrays_and_objects_round_trip() {
    let text = "{\"a\":[1,true,null,\"x\"],\"b\":{\"c\":\"d\"}}";
    let v = parse(text).unwrap();
    assert_eq!(json_to_string(&v), text);
}

#[test]
fn whitespace_is_tolerated_and_not_reprinted() {
    let v = parse(" { \"a\" : [ 1 , 2 ] } ").unwrap();
    assert_eq!(json_to_string(&v), "{\"a\":[1,2]}");
}

#[test]
fn malformed_texts_are_rejected() {
    assert_eq!(parse("{"), None);
    assert_eq!(parse("{\"a\":}"), None);
    assert_eq!(parse("[1,]"), None);
    assert_eq!(parse("\"unterminated"), None);
    assert_eq!(parse("{\"a\":1} trailing"), None);
    assert_eq!(parse("\"bad \\u0041 escape\""), None);
}

#[test]
fn number_lexemes_are_kept_verbatim() {
    let v = parse("[0.5000, 1e9]").unwrap();
    assert_eq!(
        v,
        JsonValue::Array(vec![
            JsonValue::Number("0.5000".to_string()),
            JsonValue::Number("1e9".to_string()),
        ])
    );
    assert_eq!(json_to_string(&v), "[0.5000,1e9]");
}

#[test]
fn duplicate_keys_are_kept_in_order() {
    let v = parse("{\"a\":1,\"a\":2}").unwrap();
    match &v {
        JsonValue::Object(members) => {
            assert_eq!(members.len(), 2);
            assert_eq!(members[0].1, JsonValue::Number("1".to_string()));
            assert_eq!(members[1].1, JsonValue::Number("2".to_string()));
        },
        other => panic!("expected an object, got {:?}", other),
    }
}

#[test]
fn empty_containers_round_trip() {
    assert_eq!(json_to_string(&parse("{ }").unwrap()), "{}");
    assert_eq!(json_to_string(&parse("[ ]").unwrap()), "[]");
    assert_eq!(json_to_string(&parse("\"\"").unwrap()), "\"\"");
}
