//! The key-value side of the gateway: the requests it puts to the record tables
//! and what it reads out of their answers.
//!
//! Two tables are addressed. The record table is keyed by the pair `part`, `idx`
//! and holds one `value` per key. The entity table is keyed by `id` and holds an
//! optional `value`.

use vstd::prelude::*;
use vstd::string::*;

use crate::text::provided;

verus! {

/// An attribute value as far as the gateway tells values apart: a string, or
/// anything else.
#[derive(Debug, Clone, PartialEq, Eq)]
pub enum AttributeValue {
    S(String),
    Other,
}

/// The mathematical form of an `AttributeValue`.
pub enum AttributeValueView {
    S(Seq<char>),
    Other,
}

impl DeepView for AttributeValue {
    type V = AttributeValueView;

    open spec fn deep_view(&self) -> AttributeValueView {
        match self {
            AttributeValue::S(s) => AttributeValueView::S(s@),
            AttributeValue::Other => AttributeValueView::Other,
        }
    }
}

impl View for AttributeValue {
    type V = AttributeValueView;

    open spec fn view(&self) -> AttributeValueView {
        self.deep_view()
    }
}

/// A record as the table holds it: attribute names with their values. A lookup
/// by name takes the first attribute of that name; the items that the gateway
/// builds bear each name once.
pub type Item = Vec<(String, AttributeValue)>;

/// The mathematical form of an `Item`.
pub type ItemView = Seq<(Seq<char>, AttributeValueView)>;

/// The value of the first attribute named `name`.
pub open spec fn attribute(item: ItemView, name: Seq<char>) -> Option<AttributeValueView>
    decreases item.len(),
{
    if item.len() == 0 {
        None
    } else if item[0].0 == name {
        Some(item[0].1)
    } else {
        attribute(item.drop_first(), name)
    }
}

/// No two attributes of `item` bear the same name.
pub open spec fn distinct_names(item: ItemView) -> bool {
    forall|i: int, j: int| 0 <= i < j < item.len() ==> item[i].0 != item[j].0
}

/// The text of the attribute `name`, where the item has it and it is a string.
pub open spec fn string_attribute(item: ItemView, name: Seq<char>) -> Option<Seq<char>> {
    match attribute(item, name) {
        Some(AttributeValueView::S(s)) => Some(s),
        _ => None,
    }
}

/// The name of the record table.
pub open spec fn table_name() -> Seq<char> {
    "blog_deepria_master"@
}

/// The name of the entity table.
pub open spec fn entity_table_name() -> Seq<char> {
    "test_table"@
}

/// The names of the key attributes of the record table.
pub open spec fn record_key_names() -> Seq<Seq<char>> {
    seq!["part"@, "idx"@]
}

/// The names of the key attributes of the entity table.
pub open spec fn entity_key_names() -> Seq<Seq<char>> {
    seq!["id"@]
}

/// The key of the record `(part, idx)`.
pub open spec fn record_key(part: Seq<char>, idx: Seq<char>) -> ItemView {
    seq![("part"@, AttributeValueView::S(part)), ("idx"@, AttributeValueView::S(idx))]
}

/// The key of the entity `id`.
pub open spec fn entity_key(id: Seq<char>) -> ItemView {
    seq![("id"@, AttributeValueView::S(id))]
}

/// A query for the items whose attributes equal those of `key`.
/// `key_condition_expression` and `expression_attribute_values` spell the same
/// condition in the table service's expression syntax.
#[derive(Debug, Clone, PartialEq, Eq)]
pub struct QueryInput {
    pub table_name: String,
    pub key: Item,
    pub key_condition_expression: String,
    pub expression_attribute_values: Item,
}

pub struct QueryInputView {
    pub table_name: Seq<char>,
    pub key: ItemView,
    pub key_condition_expression: Seq<char>,
    pub expression_attribute_values: ItemView,
}

impl DeepView for QueryInput {
    type V = QueryInputView;

    open spec fn deep_view(&self) -> QueryInputView {
        QueryInputView {
            table_name: self.table_name@,
            key: self.key.deep_view(),
            key_condition_expression: self.key_condition_expression@,
            expression_attribute_values: self.expression_attribute_values.deep_view(),
        }
    }
}

impl View for QueryInput {
    type V = QueryInputView;

    open spec fn view(&self) -> QueryInputView {
        self.deep_view()
    }
}

/// An unconditional write of `item`, which replaces the record of the same key.
#[derive(Debug, Clone, PartialEq, Eq)]
pub struct PutItemInput {
    pub table_name: String,
    pub item: Item,
}

pub struct PutItemInputView {
    pub table_name: Seq<char>,
    pub item: ItemView,
}

impl DeepView for PutItemInput {
    type V = PutItemInputView;

    open spec fn deep_view(&self) -> PutItemInputView {
        PutItemInputView { table_name: self.table_name@, item: self.item.deep_view() }
    }
}

impl View for PutItemInput {
    type V = PutItemInputView;

    open spec fn view(&self) -> PutItemInputView {
        self.deep_view()
    }
}

/// An unconditional delete of the record under `key`.
#[derive(Debug, Clone, PartialEq, Eq)]
pub struct DeleteItemInput {
    pub table_name: String,
    pub key: Item,
}

pub struct DeleteItemInputView {
    pub table_name: Seq<char>,
    pub key: ItemView,
}

impl DeepView for DeleteItemInput {
    type V = DeleteItemInputView;

    open spec fn deep_view(&self) -> DeleteItemInputView {
        DeleteItemInputView { table_name: self.table_name@, key: self.key.deep_view() }
    }
}

impl View for DeleteItemInput {
    type V = DeleteItemInputView;

    open spec fn view(&self) -> DeleteItemInputView {
        self.deep_view()
    }
}

/// A read of a whole table.
#[derive(Debug, Clone, PartialEq, Eq)]
pub struct ScanInput {
    pub table_name: String,
}

pub struct ScanInputView {
    pub table_name: Seq<char>,
}

impl DeepView for ScanInput {
    type V = ScanInputView;

    open spec fn deep_view(&self) -> ScanInputView {
        ScanInputView { table_name: self.table_name@ }
    }
}

impl View for ScanInput {
    type V = ScanInputView;

    open spec fn view(&self) -> ScanInputView {
        self.deep_view()
    }
}

/// A partial update: the record under `key` is created if it is missing, and the
/// attributes of `set` are written over it; its other attributes stay.
/// `update_expression`, `expression_attribute_names` and
/// `expression_attribute_values` spell `set` in the table service's expression
/// syntax; there is no expression where `set` is empty.
#[derive(Debug, Clone, PartialEq, Eq)]
pub struct UpdateItemInput {
    pub table_name: String,
    pub key: Item,
    pub set: Item,
    pub update_expression: Option<String>,
    pub expression_attribute_names: Vec<(String, String)>,
    pub expression_attribute_values: Item,
}

pub struct UpdateItemInputView {
    pub table_name: Seq<char>,
    pub key: ItemView,
    pub set: ItemView,
    pub update_expression: Option<Seq<char>>,
    pub expression_attribute_names: Seq<(Seq<char>, Seq<char>)>,
    pub expression_attribute_values: ItemView,
}

impl DeepView for UpdateItemInput {
    type V = UpdateItemInputView;

    open spec fn deep_view(&self) -> UpdateItemInputView {
        UpdateItemInputView {
            table_name: self.table_name@,
            key: self.key.deep_view(),
            set: self.set.deep_view(),
            update_expression: self.update_expression.deep_view(),
            expression_attribute_names: self.expression_attribute_names.deep_view(),
            expression_attribute_values: self.expression_attribute_values.deep_view(),
        }
    }
}

impl View for UpdateItemInput {
    type V = UpdateItemInputView;

    open spec fn view(&self) -> UpdateItemInputView {
        self.deep_view()
    }
}

/// A record of the entity table.
#[derive(Debug, Clone, PartialEq, Eq)]
pub struct Entity {
    pub id: String,
    pub value: Option<String>,
}

pub struct EntityView {
    pub id: Seq<char>,
    pub value: Option<Seq<char>>,
}

impl DeepView for Entity {
    type V = EntityView;

    open spec fn deep_view(&self) -> EntityView {
        EntityView { id: self.id@, value: self.value.deep_view() }
    }
}

impl View for Entity {
    type V = EntityView;

    open spec fn view(&self) -> EntityView {
        self.deep_view()
    }
}

/// The lookup of the record `(part, idx)`.
pub open spec fn get_item_query_spec(part: Seq<char>, idx: Seq<char>) -> QueryInputView {
    QueryInputView {
        table_name: table_name(),
        key: record_key(part, idx),
        key_condition_expression: "part = :part AND idx = :idx"@,
        expression_attribute_values: seq![
            (":part"@, AttributeValueView::S(part)),
            (":idx"@, AttributeValueView::S(idx)),
        ],
    }
}

/// The write of `value`, and of `pk` where there is one, under `(part, idx)`.
pub open spec fn put_item_spec(
    part: Seq<char>,
    idx: Seq<char>,
    value: Seq<char>,
    pk: Option<Seq<char>>,
) -> PutItemInputView {
    PutItemInputView {
        table_name: table_name(),
        item: record_key(part, idx) + match pk {
            Some(p) => seq![("pk"@, AttributeValueView::S(p))],
            None => Seq::empty(),
        } + seq![("value"@, AttributeValueView::S(value))],
    }
}

/// The delete of the record `(part, idx)`.
pub open spec fn delete_item_spec(part: Seq<char>, idx: Seq<char>) -> DeleteItemInputView {
    DeleteItemInputView { table_name: table_name(), key: record_key(part, idx) }
}

/// What a lookup found: the `value` of the first item that came back, where that
/// item has one and it is a string.
pub open spec fn item_value(items: Option<Seq<ItemView>>) -> Option<Seq<char>> {
    match items {
        Some(found) if found.len() > 0 => string_attribute(found[0], "value"@),
        _ => None,
    }
}

/// The value of the first attribute of `item` named `name`.
pub fn find_attribute<'a>(item: &'a Item, name: &str) -> (found: Option<&'a AttributeValue>)
    ensures
        found.deep_view() == attribute(item.deep_view(), name@),
{
    let mut i: usize = 0;
    assert(item.deep_view().skip(0) =~= item.deep_view());
    while i < item.len()
        invariant
            i <= item.len(),
            item.deep_view().len() == item.len(),
            attribute(item.deep_view(), name@) == attribute(
                item.deep_view().skip(i as int),
                name@,
            ),
        decreases item.len() - i,
    {
        proof {
            let rest = item.deep_view().skip(i as int);
            assert(rest[0] == item.deep_view()[i as int]);
            assert(rest.drop_first() =~= item.deep_view().skip(i + 1));
        }
        if crate::text::same_text(item[i].0.as_str(), name) {
            return Some(&item[i].1);
        }
        i += 1;
    }
    None
}

/// The text of the attribute `name` of `item`, where it is a string.
pub fn find_string(item: &Item, name: &str) -> (text: Option<String>)
    ensures
        text.deep_view() == string_attribute(item.deep_view(), name@),
{
    match find_attribute(item, name) {
        Some(AttributeValue::S(s)) => Some(s.clone()),
        _ => None,
    }
}

/// Builds the lookup of the record `(part, idx)`.
pub fn get_item_query(part: String, idx: String) -> (query: QueryInput)
    ensures
        query@ == get_item_query_spec(part@, idx@),
{
    let key: Item = vec![
        (String::from_str("part"), AttributeValue::S(part.clone())),
        (String::from_str("idx"), AttributeValue::S(idx.clone())),
    ];
    let values: Item = vec![
        (String::from_str(":part"), AttributeValue::S(part)),
        (String::from_str(":idx"), AttributeValue::S(idx)),
    ];
    let query = QueryInput {
        table_name: String::from_str("blog_deepria_master"),
        key,
        key_condition_expression: String::from_str("part = :part AND idx = :idx"),
        expression_attribute_values: values,
    };
    assert(query@.key =~= get_item_query_spec(part@, idx@).key);
    assert(query@.expression_attribute_values =~= get_item_query_spec(
        part@,
        idx@,
    ).expression_attribute_values);
    query
}

/// Reads the answer to a lookup: the `value` of the first item, where there is an
/// item, it has a `value`, and that is a string.
pub fn get_item_value(items: Option<Vec<Item>>) -> (value: Option<String>)
    ensures
        value.deep_view() == item_value(items.deep_view()),
{
    match items {
        Some(found) => {
            if found.len() > 0 {
                find_string(&found[0], "value")
            } else {
                None
            }
        },
        None => None,
    }
}

/// Builds the write of `value` under `(part, idx)`; `pk`, where given, is stored
/// beside it.
pub fn put_item(part: String, idx: String, value: String, pk: Option<String>) -> (input:
    PutItemInput)
    ensures
        input@ == put_item_spec(part@, idx@, value@, pk.deep_view()),
{
    let mut item: Item = vec![
        (String::from_str("part"), AttributeValue::S(part)),
        (String::from_str("idx"), AttributeValue::S(idx)),
    ];
    match pk {
        Some(p) => {
            item.push((String::from_str("pk"), AttributeValue::S(p)));
        },
        None => {},
    }
    item.push((String::from_str("value"), AttributeValue::S(value)));
    let input = PutItemInput { table_name: String::from_str("blog_deepria_master"), item };
    assert(input@.item =~= put_item_spec(part@, idx@, value@, pk.deep_view()).item);
    input
}

/// Builds the delete of the record `(part, idx)`.
pub fn delete_item(part: String, idx: String) -> (input: DeleteItemInput)
    ensures
        input@ == delete_item_spec(part@, idx@),
{
    let key: Item = vec![
        (String::from_str("part"), AttributeValue::S(part)),
        (String::from_str("idx"), AttributeValue::S(idx)),
    ];
    let input = DeleteItemInput { table_name: String::from_str("blog_deepria_master"), key };
    assert(input@.key =~= delete_item_spec(part@, idx@).key);
    input
}

/// The read of the whole entity table.
pub open spec fn scan_all_spec() -> ScanInputView {
    ScanInputView { table_name: entity_table_name() }
}

/// The lookup of the entities whose `id` is `id`.
pub open spec fn query_by_id_spec(id: Seq<char>) -> QueryInputView {
    QueryInputView {
        table_name: entity_table_name(),
        key: entity_key(id),
        key_condition_expression: "id = :id"@,
        expression_attribute_values: seq![(":id"@, AttributeValueView::S(id))],
    }
}

/// The upsert of the entity `id`: its `value` is written only where one is
/// provided, so that an upsert without a value leaves a stored value alone.
pub open spec fn upsert_spec(id: Seq<char>, value: Option<Seq<char>>) -> UpdateItemInputView {
    if provided(value) {
        UpdateItemInputView {
            table_name: entity_table_name(),
            key: entity_key(id),
            set: seq![("value"@, AttributeValueView::S(value->0))],
            update_expression: Some("SET #value = :value"@),
            expression_attribute_names: seq![("#value"@, "value"@)],
            expression_attribute_values: seq![(":value"@, AttributeValueView::S(value->0))],
        }
    } else {
        UpdateItemInputView {
            table_name: entity_table_name(),
            key: entity_key(id),
            set: Seq::empty(),
            update_expression: None,
            expression_attribute_names: Seq::empty(),
            expression_attribute_values: Seq::empty(),
        }
    }
}

/// The delete of the entity `id`.
pub open spec fn delete_by_id_spec(id: Seq<char>) -> DeleteItemInputView {
    DeleteItemInputView { table_name: entity_table_name(), key: entity_key(id) }
}

/// The entity that an item stands for; an item without a string `id` stands for
/// none.
pub open spec fn entity_of(item: ItemView) -> Option<EntityView> {
    match string_attribute(item, "id"@) {
        Some(id) => Some(EntityView { id, value: string_attribute(item, "value"@) }),
        None => None,
    }
}

/// The entities of `items`, in their order, items that stand for none left out.
pub open spec fn entities_of(items: Seq<ItemView>) -> Seq<EntityView>
    decreases items.len(),
{
    if items.len() == 0 {
        Seq::empty()
    } else {
        entities_of(items.drop_last()) + match entity_of(items.last()) {
            Some(e) => seq![e],
            None => Seq::empty(),
        }
    }
}

/// The entities in the answer to a scan or a query.
pub open spec fn entities(items: Option<Seq<ItemView>>) -> Seq<EntityView> {
    match items {
        Some(found) => entities_of(found),
        None => Seq::empty(),
    }
}

/// The JSON object of an entity: `id`, then `value`, which is `null` where the
/// entity has none.
pub open spec fn entity_json(entity: EntityView) -> Seq<char> {
    "{\"id\":"@ + crate::json::json_string(entity.id) + ",\"value\":"@ + match entity.value {
        Some(v) => crate::json::json_string(v),
        None => "null"@,
    } + "}"@
}

/// The JSON array of `entities`.
pub open spec fn entities_json(entities: Seq<EntityView>) -> Seq<char> {
    crate::json::array(entities.map_values(|e: EntityView| entity_json(e)))
}

/// Builds the read of the whole entity table.
pub fn scan_all() -> (input: ScanInput)
    ensures
        input@ == scan_all_spec(),
{
    ScanInput { table_name: String::from_str("test_table") }
}

/// Builds the lookup of the entities whose `id` is `id`.
pub fn query_by_id(id: String) -> (query: QueryInput)
    ensures
        query@ == query_by_id_spec(id@),
{
    let key: Item = vec![(String::from_str("id"), AttributeValue::S(id.clone()))];
    let values: Item = vec![(String::from_str(":id"), AttributeValue::S(id))];
    let query = QueryInput {
        table_name: String::from_str("test_table"),
        key,
        key_condition_expression: String::from_str("id = :id"),
        expression_attribute_values: values,
    };
    assert(query@.key =~= query_by_id_spec(id@).key);
    assert(query@.expression_attribute_values =~= query_by_id_spec(
        id@,
    ).expression_attribute_values);
    query
}

/// Builds the upsert of the entity `id`.
pub fn upsert(id: String, value: Option<String>) -> (input: UpdateItemInput)
    ensures
        input@ == upsert_spec(id@, value.deep_view()),
{
    let key: Item = vec![(String::from_str("id"), AttributeValue::S(id))];
    let mut set: Item = Vec::new();
    let mut update_expression: Option<String> = None;
    let mut names: Vec<(String, String)> = Vec::new();
    let mut values: Item = Vec::new();
    match value {
        Some(v) => {
            if !v.as_str().is_empty() {
                set.push((String::from_str("value"), AttributeValue::S(v.clone())));
                update_expression = Some(String::from_str("SET #value = :value"));
                names.push((String::from_str("#value"), String::from_str("value")));
                values.push((String::from_str(":value"), AttributeValue::S(v)));
            }
        },
        None => {},
    }
    let input = UpdateItemInput {
        table_name: String::from_str("test_table"),
        key,
        set,
        update_expression,
        expression_attribute_names: names,
        expression_attribute_values: values,
    };
    proof {
        let want = upsert_spec(id@, value.deep_view());
        assert(input@.key =~= want.key);
        assert(input@.set =~= want.set);
        assert(input@.expression_attribute_names =~= want.expression_attribute_names);
        assert(input@.expression_attribute_values =~= want.expression_attribute_values);
    }
    input
}

/// Builds the delete of the entity `id`.
pub fn delete_by_id(id: String) -> (input: DeleteItemInput)
    ensures
        input@ == delete_by_id_spec(id@),
{
    let key: Item = vec![(String::from_str("id"), AttributeValue::S(id))];
    let input = DeleteItemInput { table_name: String::from_str("test_table"), key };
    assert(input@.key =~= delete_by_id_spec(id@).key);
    input
}

/// Reads the answer to a scan or a query of the entity table. Items without a
/// string `id` are skipped.
pub fn entities_from_items(items: &Option<Vec<Item>>) -> (found: Vec<Entity>)
    ensures
        found.deep_view() == entities(items.deep_view()),
{
    let mut found: Vec<Entity> = Vec::new();
    match items {
        Some(list) => {
            let mut i: usize = 0;
            assert(list.deep_view().take(0) =~= Seq::<ItemView>::empty());
            while i < list.len()
                invariant
                    i <= list.len(),
                    list.deep_view().len() == list.len(),
                    found.deep_view() == entities_of(list.deep_view().take(i as int)),
                decreases list.len() - i,
            {
                proof {
                    let now = list.deep_view().take(i + 1);
                    assert(now.drop_last() =~= list.deep_view().take(i as int));
                    assert(now.last() == list[i as int].deep_view());
                }
                let ghost before = found.deep_view();
                match find_string(&list[i], "id") {
                    Some(id) => {
                        let value = find_string(&list[i], "value");
                        found.push(Entity { id, value });
                        assert(found.deep_view() =~= before + seq![
                            entity_of(list[i as int].deep_view())->0,
                        ]);
                    },
                    None => {
                        assert(found.deep_view() =~= before + Seq::<EntityView>::empty());
                    },
                }
                i += 1;
            }
            assert(list.deep_view().take(list.len() as int) =~= list.deep_view());
        },
        None => {
            assert(found.deep_view() =~= Seq::<EntityView>::empty());
        },
    }
    found
}

/// Writes `entities` as a JSON array of objects.
pub fn write_entities(entities: &Vec<Entity>) -> (out: String)
    ensures
        out@ == entities_json(entities.deep_view()),
{
    let mut parts: Vec<String> = Vec::new();
    let mut i: usize = 0;
    while i < entities.len()
        invariant
            i <= entities.len(),
            parts.len() == i,
            forall|j: int|
                0 <= j < i ==> (#[trigger] parts[j])@ == entity_json(entities[j].deep_view()),
        decreases entities.len() - i,
    {
        let entity = &entities[i];
        let mut text = String::from_str("{\"id\":");
        text.append(crate::json::quote(entity.id.as_str()).as_str());
        text.append(",\"value\":");
        match &entity.value {
            Some(v) => {
                text.append(crate::json::quote(v.as_str()).as_str());
            },
            None => {
                text.append("null");
            },
        }
        text.append("}");
        parts.push(text);
        i += 1;
    }
    assert(parts.deep_view() =~= entities.deep_view().map_values(|e: EntityView| entity_json(e)));
    crate::json::write_array(&parts)
}

} // verus!
