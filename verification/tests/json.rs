use sherlock_desktop::llm::json::{
    extract_first_json_object, is_white_space, object_only, parse_json_response, trimmed_range,
};

fn chars(text: &str) -> Vec<char> {
    text.chars().collect()
}

#[test]
fn extract_first_json_object_valid() {
    let input = r#"{"media_type":"anime","confidence":0.9}"#;
    let result = extract_first_json_object(input).unwrap();
    assert_eq!(result["media_type"], "anime");
}

#[test]
fn extract_first_json_object_garbage_prefix() {
    let input = r#"Here is my answer: {"media_type":"photo","confidence":0.5} done"#;
    let result = extract_first_json_object(input).unwrap();
    assert_eq!(result["media_type"], "photo");
}

#[test]
fn extract_first_json_object_nested_braces() {
    let input = r#"{"a":{"b":1},"c":2}"#;
    let result = extract_first_json_object(input).unwrap();
    assert_eq!(result["c"], 2);
}

#[test]
fn extract_first_json_object_empty() {
    assert!(extract_first_json_object("").is_none());
}

#[test]
fn extract_first_json_object_no_json() {
    assert!(extract_first_json_object("just some text").is_none());
}

#[test]
fn an_object_is_found_in_prose() {
    let result = extract_first_json_object("say \u{e9}\u{1f600} {\"a\":{\"b\":1}} and {\"c\":2}");
    let result = result.unwrap();
    assert_eq!(result["a"]["b"], 1);
    assert!(result.get("c").is_none());
}

#[test]
fn candidates_that_do_not_parse_are_passed_over() {
    let result = extract_first_json_object("{oops} {not: json} {\"ok\":true}").unwrap();
    assert_eq!(result["ok"], true);
    // The outer candidate is no JSON, the inner one is.
    let result = extract_first_json_object("{ see {\"inner\":1} }").unwrap();
    assert_eq!(result["inner"], 1);
    // An unclosed brace does not hide what follows.
    let result = extract_first_json_object("{ {\"later\":1}").unwrap();
    assert_eq!(result["later"], 1);
}

#[test]
fn braces_in_strings_do_not_count() {
    let found = extract_first_json_object("x {\"a\":\"}\"} y").unwrap();
    assert_eq!(found["a"], "}");
    let found = extract_first_json_object("{\"a\":\"}\"} {\"b\":1}").unwrap();
    assert_eq!(found["a"], "}");
    let text = "so: {\"a\":\"{{\",\"b\":{\"c\":\"\\\"}\"}} ok }";
    let found = extract_first_json_object(text).unwrap();
    assert_eq!(found["b"]["c"], "\"}");
    let whole = extract_first_json_object(" {\"a\":\"}\"} ").unwrap();
    assert_eq!(whole["a"], "}");
}

#[test]
fn only_objects_are_found() {
    assert!(extract_first_json_object("[1,2]").is_none());
    assert!(extract_first_json_object("\"{\"").is_none());
    assert_eq!(extract_first_json_object("[{\"a\":1}]").unwrap()["a"], 1);
    assert!(extract_first_json_object("{").is_none());
    assert!(extract_first_json_object("}{").is_none());
}

#[test]
fn white_space_around_the_whole_text_is_trimmed() {
    let found = extract_first_json_object("\u{3000}\n{\"a\":\"{\"}\t\u{a0}").unwrap();
    assert_eq!(found["a"], "{");
}

#[test]
fn white_space_is_that_of_unicode() {
    for c in '\0'..=char::MAX {
        assert_eq!(is_white_space(c), c.is_whitespace(), "{c:?}");
    }
}

#[test]
fn trimming_keeps_the_middle() {
    for text in ["", "  ", " a b ", "a", "\u{2003}{x}\n", "no space"] {
        let all = chars(text);
        let (from, to) = trimmed_range(&all);
        let kept: String = all[from..to].iter().collect();
        assert_eq!(kept, text.trim());
        assert!(from < to || from == all.len());
    }
}

#[test]
fn object_only_drops_other_values() {
    assert!(object_only(None).is_none());
    assert!(object_only(Some(serde_json::Value::Null)).is_none());
    assert!(object_only(Some(serde_json::Value::Bool(true))).is_none());
    let empty = serde_json::Value::Object(serde_json::Map::new());
    assert_eq!(object_only(Some(empty.clone())), Some(empty));
}

#[test]
fn a_response_is_parsed_like_a_text() {
    assert!(parse_json_response("").is_none());
    assert!(parse_json_response("nothing here").is_none());
    assert_eq!(parse_json_response("ok: {\"a\":[1]}").unwrap()["a"][0], 1);
}

#[test]
fn a_printed_object_is_found_again() {
    for text in [
        "{}",
        "{\"a\":\"}\"}",
        "{\"{\":\"{{\",\"b\":[1,-2,{\"c\":null}],\"d\":{\"e\":\"}}{\"}}",
    ] {
        let object: serde_json::Value = serde_json::from_str(text).unwrap();
        let printed = serde_json::to_string(&object).unwrap();
        for (before, after) in [("", ""), (" \n", "\t"), ("\u{2003}", "\u{a0} ")] {
            let found = extract_first_json_object(&format!("{before}{printed}{after}"));
            assert_eq!(found, Some(object.clone()));
        }
    }
}
