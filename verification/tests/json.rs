use storage_router::json::{read_object, string_member, write_array, write_string_array};

#[test]
fn write_array_puts_commas_between_parts() {
    assert_eq!(write_array(&Vec::new()), "[]");
    assert_eq!(write_array(&vec!["1".to_string()]), "[1]");
    assert_eq!(write_array(&vec!["1".to_string(), "{}".to_string(), "null".to_string()]), "[1,{},null]");
}

#[test]
fn write_string_array_quotes_and_escapes() {
    assert_eq!(write_string_array(&Vec::new()), "[]");
    assert_eq!(write_string_array(&vec!["a".to_string(), "b/c".to_string()]), "[\"a\",\"b/c\"]");
    assert_eq!(
        write_string_array(&vec!["say \"hi\"".to_string(), "back\\slash".to_string(), "line\nbreak".to_string()]),
        "[\"say \\\"hi\\\"\",\"back\\\\slash\",\"line\\nbreak\"]"
    );
}

#[test]
fn write_string_array_agrees_with_serde_json() {
    let items = vec!["upload/a b.txt".to_string(), "tab\there".to_string(), "é\u{1}".to_string(), String::new()];
    let expected = serde_json::to_string(&items).unwrap();
    assert_eq!(write_string_array(&items), expected);
    let back: Vec<String> = serde_json::from_str(&write_string_array(&items)).unwrap();
    assert_eq!(back, items);
}

#[test]
fn read_object_keeps_the_text_of_string_members() {
    let members = read_object(b"{\"part\":\"p\",\"n\":1,\"idx\":\"i\",\"deep\":{\"part\":\"x\"},\"none\":null}").unwrap();
    assert_eq!(string_member(&members, "part"), Some("p".to_string()));
    assert_eq!(string_member(&members, "idx"), Some("i".to_string()));
    assert_eq!(string_member(&members, "n"), None);
    assert_eq!(string_member(&members, "deep"), None);
    assert_eq!(string_member(&members, "none"), None);
    assert_eq!(string_member(&members, "missing"), None);
    assert_eq!(members.len(), 5);
}

#[test]
fn read_object_decodes_escapes_in_names_and_values() {
    let members = read_object(b"{\"va\\u006cue\":\"a\\nb \\u00e9\"}").unwrap();
    assert_eq!(string_member(&members, "value"), Some("a\nb é".to_string()));
}

#[test]
fn read_object_refuses_what_is_no_object() {
    assert_eq!(read_object(b""), None);
    assert_eq!(read_object(b"not json"), None);
    assert_eq!(read_object(b"{\"part\":"), None);
    assert_eq!(read_object(b"[\"p\",\"i\",\"v\"]"), None);
    assert_eq!(read_object(b"\"text\""), None);
    assert_eq!(read_object(b"{} trailing"), None);
    assert_eq!(read_object(&[0xff, 0xfe]), None);
}

#[test]
fn read_object_of_an_empty_object_has_no_members() {
    assert_eq!(read_object(b" { } "), Some(Vec::new()));
}

#[test]
fn string_member_takes_the_first_of_a_name() {
    let members = vec![
        ("a".to_string(), None),
        ("a".to_string(), Some("late".to_string())),
        ("b".to_string(), Some("x".to_string())),
    ];
    assert_eq!(string_member(&members, "a"), None);
    assert_eq!(string_member(&members, "b"), Some("x".to_string()));
}
