use storage_router::dynamodb::{
    delete_by_id, delete_item, entities_from_items, find_attribute, find_string, get_item_query,
    get_item_value, put_item, query_by_id, scan_all, upsert, write_entities, AttributeValue,
    Entity, Item,
};

fn s(name: &str, value: &str) -> (String, AttributeValue) {
    (name.to_string(), AttributeValue::S(value.to_string()))
}

#[test]
fn get_item_query_asks_for_part_and_idx() {
    let query = get_item_query("p".to_string(), "i".to_string());
    assert_eq!(query.table_name, "blog_deepria_master");
    assert_eq!(query.key_condition_expression, "part = :part AND idx = :idx");
    assert_eq!(query.expression_attribute_values, vec![s(":part", "p"), s(":idx", "i")]);
    assert_eq!(query.key, vec![s("part", "p"), s("idx", "i")]);
}

#[test]
fn get_item_value_reads_the_first_item() {
    let first: Item = vec![s("part", "p"), s("idx", "i"), s("value", "one")];
    let second: Item = vec![s("part", "p"), s("idx", "i"), s("value", "two")];
    assert_eq!(get_item_value(Some(vec![first, second])), Some("one".to_string()));
}

#[test]
fn get_item_value_is_none_without_items() {
    assert_eq!(get_item_value(None), None);
    assert_eq!(get_item_value(Some(Vec::new())), None);
}

#[test]
fn get_item_value_is_none_without_a_string_value() {
    let no_value: Item = vec![s("part", "p"), s("idx", "i")];
    assert_eq!(get_item_value(Some(vec![no_value])), None);
    let not_text: Item = vec![s("part", "p"), ("value".to_string(), AttributeValue::Other)];
    assert_eq!(get_item_value(Some(vec![not_text])), None);
}

#[test]
fn find_attribute_takes_the_first_of_a_name() {
    let item: Item = vec![s("a", "1"), ("b".to_string(), AttributeValue::Other), s("a", "2")];
    assert_eq!(find_attribute(&item, "a"), Some(&AttributeValue::S("1".to_string())));
    assert_eq!(find_attribute(&item, "b"), Some(&AttributeValue::Other));
    assert_eq!(find_attribute(&item, "c"), None);
    assert_eq!(find_string(&item, "a"), Some("1".to_string()));
    assert_eq!(find_string(&item, "b"), None);
}

#[test]
fn put_item_writes_part_idx_and_value() {
    let input = put_item("p".to_string(), "i".to_string(), "v".to_string(), None);
    assert_eq!(input.table_name, "blog_deepria_master");
    assert_eq!(input.item, vec![s("part", "p"), s("idx", "i"), s("value", "v")]);
}

#[test]
fn put_item_stores_pk_beside_the_value() {
    let input = put_item("p".to_string(), "i".to_string(), String::new(), Some("k".to_string()));
    assert_eq!(input.item, vec![s("part", "p"), s("idx", "i"), s("pk", "k"), s("value", "")]);
}

#[test]
fn delete_item_names_the_key() {
    let input = delete_item("p".to_string(), "i".to_string());
    assert_eq!(input.table_name, "blog_deepria_master");
    assert_eq!(input.key, vec![s("part", "p"), s("idx", "i")]);
}

#[test]
fn entity_requests_address_the_entity_table() {
    assert_eq!(scan_all().table_name, "test_table");
    let query = query_by_id("x".to_string());
    assert_eq!(query.table_name, "test_table");
    assert_eq!(query.key_condition_expression, "id = :id");
    assert_eq!(query.expression_attribute_values, vec![s(":id", "x")]);
    assert_eq!(query.key, vec![s("id", "x")]);
    let delete = delete_by_id("x".to_string());
    assert_eq!(delete.table_name, "test_table");
    assert_eq!(delete.key, vec![s("id", "x")]);
}

#[test]
fn upsert_with_a_value_sets_it() {
    let input = upsert("x".to_string(), Some("y".to_string()));
    assert_eq!(input.table_name, "test_table");
    assert_eq!(input.key, vec![s("id", "x")]);
    assert_eq!(input.set, vec![s("value", "y")]);
    assert_eq!(input.update_expression, Some("SET #value = :value".to_string()));
    assert_eq!(input.expression_attribute_names, vec![("#value".to_string(), "value".to_string())]);
    assert_eq!(input.expression_attribute_values, vec![s(":value", "y")]);
}

#[test]
fn upsert_without_a_value_sets_nothing() {
    for omitted in [None, Some(String::new())] {
        let input = upsert("x".to_string(), omitted);
        assert_eq!(input.key, vec![s("id", "x")]);
        assert_eq!(input.set, Vec::new());
        assert_eq!(input.update_expression, None);
        assert_eq!(input.expression_attribute_names, Vec::new());
        assert_eq!(input.expression_attribute_values, Vec::new());
    }
}

#[test]
fn entities_from_items_skips_items_without_a_string_id() {
    let items: Vec<Item> = vec![
        vec![s("id", "a"), s("value", "1")],
        vec![s("value", "orphan")],
        vec![("id".to_string(), AttributeValue::Other), s("value", "2")],
        vec![s("id", "b")],
        vec![s("id", "c"), ("value".to_string(), AttributeValue::Other)],
    ];
    assert_eq!(
        entities_from_items(&Some(items)),
        vec![
            Entity { id: "a".to_string(), value: Some("1".to_string()) },
            Entity { id: "b".to_string(), value: None },
            Entity { id: "c".to_string(), value: None },
        ]
    );
    assert_eq!(entities_from_items(&None), Vec::new());
    assert_eq!(entities_from_items(&Some(Vec::new())), Vec::new());
}

#[test]
fn write_entities_gives_id_then_value() {
    assert_eq!(write_entities(&Vec::new()), "[]");
    let entities = vec![
        Entity { id: "a".to_string(), value: Some("say \"x\"".to_string()) },
        Entity { id: "b".to_string(), value: None },
    ];
    assert_eq!(
        write_entities(&entities),
        "[{\"id\":\"a\",\"value\":\"say \\\"x\\\"\"},{\"id\":\"b\",\"value\":null}]"
    );
    let parsed: serde_json::Value = serde_json::from_str(&write_entities(&entities)).unwrap();
    assert_eq!(parsed[0]["id"].as_str(), Some("a"));
    assert_eq!(parsed[0]["value"].as_str(), Some("say \"x\""));
    assert!(parsed[1]["value"].is_null());
}
