use postil_reviewer::json::{parse_json, write_json, Json};
use postil_reviewer::review::{read_finding, FindingKind};
use postil_reviewer::config::Severity;

#[test]
fn document_becomes_plain_values() {
    let doc = parse_json(" {\"a\":[null,true,7,-1,1.5,\"\\u00e9\"],\"b\":{}} ").unwrap();
    let items = doc.get("a").unwrap().as_array().unwrap();
    assert_eq!(items.len(), 6);
    assert!(matches!(items[0], Json::Null));
    assert!(matches!(items[1], Json::Bool(true)));
    assert!(matches!(items[2], Json::Number(Some(7))));
    assert!(matches!(items[3], Json::Number(None)));
    assert!(matches!(items[4], Json::Number(None)));
    assert_eq!(items[5].as_str(), Some("é"));
    assert!(matches!(doc.get("b"), Some(Json::Object(fields)) if fields.is_empty()));
    assert!(doc.get("c").is_none());
    assert!(doc.as_str().is_none());
    assert!(doc.as_array().is_none());
    assert!(items[0].get("a").is_none());
}

#[test]
fn text_that_is_no_document_is_refused() {
    for text in ["", "{", "{} {}", "{'a':1}", "nul", "[1,]"] {
        assert!(parse_json(text).is_none(), "{text}");
    }
    assert!(parse_json("null").is_some());
}

#[test]
fn finding_is_read_from_a_plain_value() {
    let value = parse_json(
        "{\"path\":\"p\",\"line\":4,\"severity\":\"info\",\"kind\":{\"risk\":null},\"body\":\"b\"}",
    )
    .unwrap();
    let finding = read_finding(&value).unwrap();
    assert_eq!(finding.path, "p");
    assert_eq!(finding.line, 4);
    assert_eq!(finding.severity, Severity::Info);
    assert_eq!(finding.kind, Some(FindingKind::Risk));
    assert_eq!(finding.body, "b");
    assert!(read_finding(&Json::Null).is_none());
}

#[test]
fn values_are_written_in_order() {
    let value = Json::Object(vec![
        ("z".to_string(), Json::Null),
        ("a".to_string(), Json::Array(vec![Json::Bool(false), Json::Number(Some(u64::MAX))])),
        ("e".to_string(), Json::Object(Vec::new())),
        ("t".to_string(), Json::Text("\u{8}\"".to_string())),
    ]);
    let text: String = write_json(value);
    assert_eq!(
        text,
        "{\n  \"z\": null,\n  \"a\": [\n    false,\n    18446744073709551615\n  ],\n  \"e\": {},\n  \"t\": \"\\b\\\"\"\n}"
    );
    match parse_json(&text) {
        Some(Json::Object(fields)) => {
            let names: Vec<&str> = fields.iter().map(|(name, _)| name.as_str()).collect();
            assert_eq!(names, vec!["z", "a", "e", "t"]);
        }
        other => panic!("{other:?}"),
    }
}

#[test]
fn deepest_value_is_written_and_read_back() {
    let nested = |levels: usize| -> Json {
        let mut value = Json::Null;
        for _ in 0..levels {
            value = Json::Array(vec![value]);
        }
        value
    };
    assert!(parse_json(&write_json(nested(127))).is_some());
    assert!(parse_json(&"[".repeat(128)).is_none());
    let deeper: String = format!("{}{}", "[".repeat(128), "]".repeat(128));
    assert!(parse_json(&deeper).is_none());
}
