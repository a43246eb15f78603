//! What holds of the gateway's table requests when the table that they address
//! answers them as `memory::run` says: what was written is read back, what was
//! deleted reads as absent, and an upsert without a value keeps the stored one.

use vstd::prelude::*;

use crate::backend::{BackendReplyView, BackendRequestView, PendingView};
use crate::dynamodb::{
    attribute, delete_item_spec, distinct_names, entity_key, entity_of, entity_table_name,
    get_item_query_spec, item_value, put_item_spec, query_by_id_spec, record_key,
    record_key_names, string_attribute, table_name, upsert_spec, AttributeValueView,
    EntityView, ItemView,
};
use crate::http_handler::{completed, text_response_spec};
use crate::memory::{
    fits, fits_at, key_item, matching, merged, others, rewritten, run, updated,
    without_attribute, MemoryTableView,
};
use crate::text::provided;

verus! {

/// The attribute names and the expression placeholders that the gateway uses
/// are different strings.
pub proof fn lemma_attribute_names_differ()
    ensures
        ":part"@ != ":idx"@,
        "part"@ != "idx"@,
        "part"@ != "pk"@,
        "part"@ != "value"@,
        "idx"@ != "pk"@,
        "idx"@ != "value"@,
        "pk"@ != "value"@,
        "id"@ != "value"@,
{
    reveal_strlit(":part");
    reveal_strlit(":idx");
    reveal_strlit("part");
    reveal_strlit("idx");
    reveal_strlit("pk");
    reveal_strlit("value");
    reveal_strlit("id");
    assert(":part"@.len() == 5);
    assert(":idx"@.len() == 4);
    assert("part"@.len() == 4);
    assert("idx"@.len() == 3);
    assert("pk"@.len() == 2);
    assert("value"@.len() == 5);
    assert("id"@.len() == 2);
}

/// Looking an attribute up in a list that was built by appending.
proof fn lemma_attribute_push(item: ItemView, entry: (Seq<char>, AttributeValueView), name: Seq<
    char,
>)
    ensures
        attribute(item.push(entry), name) == match attribute(item, name) {
            Some(value) => Some(value),
            None => if entry.0 == name {
                Some(entry.1)
            } else {
                None
            },
        },
    decreases item.len(),
{
    let grown = item.push(entry);
    if item.len() == 0 {
        assert(grown.drop_first() =~= Seq::<(Seq<char>, AttributeValueView)>::empty());
    } else {
        assert(grown[0] == item[0]);
        assert(grown.drop_first() =~= item.drop_first().push(entry));
        if item[0].0 != name {
            lemma_attribute_push(item.drop_first(), entry, name);
        }
    }
}

/// An item without the attributes named `name` has none of that name, and has
/// every other attribute as before.
proof fn lemma_without_attribute(item: ItemView, name: Seq<char>, other: Seq<char>)
    ensures
        attribute(without_attribute(item, name), name) is None,
        other != name ==> attribute(without_attribute(item, name), other) == attribute(
            item,
            other,
        ),
    decreases item.len(),
{
    if item.len() > 0 {
        let front = item.drop_last();
        let last = item.last();
        lemma_without_attribute(front, name, other);
        assert(front.push(last) =~= item);
        lemma_attribute_push(front, last, other);
        if last.0 == name {
            assert(without_attribute(item, name) =~= without_attribute(front, name));
        } else {
            assert(without_attribute(item, name) =~= without_attribute(front, name).push(last));
            lemma_attribute_push(without_attribute(front, name), last, name);
            lemma_attribute_push(without_attribute(front, name), last, other);
        }
    }
}

/// What an item holds after one attribute is written over it.
proof fn lemma_merged_one(
    item: ItemView,
    name: Seq<char>,
    value: AttributeValueView,
    other: Seq<char>,
)
    ensures
        merged(item, seq![(name, value)]) == without_attribute(item, name).push((name, value)),
        attribute(merged(item, seq![(name, value)]), name) == Some(value),
        other != name ==> attribute(merged(item, seq![(name, value)]), other) == attribute(
            item,
            other,
        ),
{
    let set = seq![(name, value)];
    assert(set.drop_last() =~= Seq::<(Seq<char>, AttributeValueView)>::empty());
    assert(merged(item, set.drop_last()) == item);
    lemma_without_attribute(item, name, other);
    lemma_attribute_push(without_attribute(item, name), (name, value), name);
    lemma_attribute_push(without_attribute(item, name), (name, value), other);
}

/// Appending an item to a table appends it to the answer of a query that it
/// fits, and leaves alone the answer of one that it does not fit.
proof fn lemma_matching_push(items: Seq<ItemView>, item: ItemView, key: ItemView)
    ensures
        matching(items.push(item), key) == if fits(item, key) {
            matching(items, key).push(item)
        } else {
            matching(items, key)
        },
{
    let grown = items.push(item);
    assert(grown.drop_last() =~= items);
    if fits(item, key) {
        assert(matching(items, key) + seq![item] =~= matching(items, key).push(item));
    } else {
        assert(matching(items, key) + Seq::<ItemView>::empty() =~= matching(items, key));
    }
}

/// What is left after a delete holds nothing that fits the key.
proof fn lemma_nothing_left(items: Seq<ItemView>, key: ItemView)
    ensures
        matching(others(items, key), key) == Seq::<ItemView>::empty(),
    decreases items.len(),
{
    if items.len() > 0 {
        lemma_nothing_left(items.drop_last(), key);
        let rest = others(items.drop_last(), key);
        if fits(items.last(), key) {
            assert(others(items, key) =~= rest);
        } else {
            assert(others(items, key) =~= rest.push(items.last()));
            lemma_matching_push(rest, items.last(), key);
        }
    }
}

/// Every item in the answer to a query fits the key.
proof fn lemma_matching_members(items: Seq<ItemView>, key: ItemView)
    ensures
        forall|j: int|
            0 <= j < matching(items, key).len() ==> fits(#[trigger] matching(items, key)[j], key),
    decreases items.len(),
{
    if items.len() > 0 {
        lemma_matching_members(items.drop_last(), key);
        let front = matching(items.drop_last(), key);
        if fits(items.last(), key) {
            assert(matching(items, key) =~= front.push(items.last()));
        } else {
            assert(matching(items, key) =~= front);
        }
    }
}

/// An update that sets nothing leaves every record as it was.
proof fn lemma_rewritten_with_nothing(items: Seq<ItemView>, key: ItemView)
    ensures
        rewritten(items, key, Seq::empty()) == items,
    decreases items.len(),
{
    if items.len() > 0 {
        lemma_rewritten_with_nothing(items.drop_last(), key);
        assert(items.drop_last().push(items.last()) =~= items);
    }
}

/// After `value` is written over the records that fit the key of the entity
/// `id`, the records that fit that key are as many as before, and each holds
/// `value`.
proof fn lemma_rewritten_value(items: Seq<ItemView>, id: Seq<char>, value: Seq<char>)
    ensures
        ({
            let key = entity_key(id);
            let set = seq![("value"@, AttributeValueView::S(value))];
            let next = matching(rewritten(items, key, set), key);
            &&& next.len() == matching(items, key).len()
            &&& forall|j: int|
                0 <= j < next.len() ==> string_attribute(#[trigger] next[j], "value"@) == Some(
                    value,
                )
        }),
    decreases items.len(),
{
    let key = entity_key(id);
    let set = seq![("value"@, AttributeValueView::S(value))];
    if items.len() > 0 {
        lemma_attribute_names_differ();
        lemma_rewritten_value(items.drop_last(), id, value);
        let front = rewritten(items.drop_last(), key, set);
        let last = items.last();
        if fits(last, key) {
            let now = merged(last, set);
            lemma_merged_one(last, "value"@, AttributeValueView::S(value), "id"@);
            assert(fits_at(last, key, 0));
            assert(key[0].0 == "id"@);
            assert(fits(now, key)) by {
                assert forall|at: int| 0 <= at < key.len() implies fits_at(now, key, at) by {
                    assert(at == 0);
                }
            }
            lemma_matching_push(front, now, key);
            assert(matching(items, key) =~= matching(items.drop_last(), key).push(last));
        } else {
            lemma_matching_push(front, last, key);
            assert(matching(items, key) =~= matching(items.drop_last(), key));
        }
    }
}

/// The item that a write of `(part, idx)` holds has that pair for its key in the
/// record table, fits the lookup of that pair, and holds `value`.
pub proof fn lemma_written_item(
    part: Seq<char>,
    idx: Seq<char>,
    value: Seq<char>,
    pk: Option<Seq<char>>,
)
    ensures
        ({
            let item = put_item_spec(part, idx, value, pk).item;
            &&& key_item(item, record_key_names()) == Some(record_key(part, idx))
            &&& fits(item, record_key(part, idx))
            &&& string_attribute(item, "value"@) == Some(value)
            &&& distinct_names(item)
        }),
{
    lemma_attribute_names_differ();
    let item = put_item_spec(part, idx, value, pk).item;
    let key = record_key(part, idx);
    let names = record_key_names();
    let nothing = Seq::<(Seq<char>, AttributeValueView)>::empty();
    let part_entry = ("part"@, AttributeValueView::S(part));
    let idx_entry = ("idx"@, AttributeValueView::S(idx));
    let value_entry = ("value"@, AttributeValueView::S(value));
    let head = nothing.push(part_entry).push(idx_entry);
    assert(head =~= key);
    lemma_attribute_push(nothing, part_entry, "part"@);
    lemma_attribute_push(nothing, part_entry, "idx"@);
    lemma_attribute_push(nothing, part_entry, "value"@);
    lemma_attribute_push(nothing.push(part_entry), idx_entry, "part"@);
    lemma_attribute_push(nothing.push(part_entry), idx_entry, "idx"@);
    lemma_attribute_push(nothing.push(part_entry), idx_entry, "value"@);
    match pk {
        Some(p) => {
            let pk_entry = ("pk"@, AttributeValueView::S(p));
            assert(item =~= head.push(pk_entry).push(value_entry));
            lemma_attribute_push(head, pk_entry, "part"@);
            lemma_attribute_push(head, pk_entry, "idx"@);
            lemma_attribute_push(head, pk_entry, "value"@);
            lemma_attribute_push(head.push(pk_entry), value_entry, "part"@);
            lemma_attribute_push(head.push(pk_entry), value_entry, "idx"@);
            lemma_attribute_push(head.push(pk_entry), value_entry, "value"@);
        },
        None => {
            assert(item =~= head.push(value_entry));
            lemma_attribute_push(head, value_entry, "part"@);
            lemma_attribute_push(head, value_entry, "idx"@);
            lemma_attribute_push(head, value_entry, "value"@);
        },
    }
    assert(string_attribute(item, "part"@) == Some(part));
    assert(string_attribute(item, "idx"@) == Some(idx));
    assert(names.drop_last() =~= seq!["part"@]);
    assert(names.drop_last().drop_last() =~= Seq::<Seq<char>>::empty());
    assert(key_item(item, names.drop_last().drop_last()) == Some(nothing));
    assert(key_item(item, names.drop_last()) == Some(nothing.push(part_entry)));
    assert(key_item(item, names) == Some(head));
    assert(fits(item, key)) by {
        assert forall|at: int| 0 <= at < key.len() implies fits_at(item, key, at) by {
            assert(at == 0 || at == 1);
        }
    }
}

/// Reading a record after writing it gives back what was written: the table
/// answers with that one item, its `value` is the value written, and the
/// gateway responds `200` with it.
pub proof fn law_write_then_read(
    table: MemoryTableView,
    part: Seq<char>,
    idx: Seq<char>,
    value: Seq<char>,
    pk: Option<Seq<char>>,
)
    requires
        table.name == table_name(),
        table.key_names == record_key_names(),
    ensures
        ({
            let put = put_item_spec(part, idx, value, pk);
            let written = run(table, BackendRequestView::PutItem(put));
            let read = run(written.0, BackendRequestView::Query(get_item_query_spec(part, idx)));
            &&& written.1 == BackendReplyView::Done
            &&& read.0 == written.0
            &&& read.1 == BackendReplyView::Items(Some(seq![put.item]))
            &&& item_value(Some(seq![put.item])) == Some(value)
            &&& completed(PendingView::ItemLookup, read.1) == text_response_spec(200, value)
        }),
{
    lemma_written_item(part, idx, value, pk);
    let item = put_item_spec(part, idx, value, pk).item;
    let key = record_key(part, idx);
    let kept = others(table.items, key);
    lemma_nothing_left(table.items, key);
    lemma_matching_push(kept, item, key);
    assert(matching(kept.push(item), key) =~= seq![item]);
}

/// Reading a record after deleting it finds nothing, whether or not it was
/// there: the table answers with no item, without failing, and the gateway
/// responds `200` with the words for an absent value.
pub proof fn law_delete_then_read(table: MemoryTableView, part: Seq<char>, idx: Seq<char>)
    requires
        table.name == table_name(),
    ensures
        ({
            let deleted = run(
                table,
                BackendRequestView::DeleteItem(delete_item_spec(part, idx)),
            );
            let read = run(deleted.0, BackendRequestView::Query(get_item_query_spec(part, idx)));
            &&& deleted.1 == BackendReplyView::Done
            &&& read.1 == BackendReplyView::Items(Some(Seq::empty()))
            &&& item_value(Some(Seq::empty())) is None
            &&& completed(PendingView::ItemLookup, read.1) == text_response_spec(
                200,
                "Value not found"@,
            )
        }),
{
    lemma_nothing_left(table.items, record_key(part, idx));
}

/// An upsert without a value, after one that set `value`, changes nothing: the
/// table stays as the first upsert left it, and every record that a lookup of
/// `id` finds, of which there is at least one, still holds `value`.
pub proof fn law_upsert_keeps_value(
    table: MemoryTableView,
    id: Seq<char>,
    value: Seq<char>,
    omitted: Option<Seq<char>>,
)
    requires
        table.name == entity_table_name(),
        value.len() > 0,
        !provided(omitted),
    ensures
        ({
            let first = run(table, BackendRequestView::UpdateItem(upsert_spec(id, Some(value))));
            let second = run(first.0, BackendRequestView::UpdateItem(upsert_spec(id, omitted)));
            let found = matching(second.0.items, entity_key(id));
            &&& second.1 == BackendReplyView::Done
            &&& second.0 == first.0
            &&& run(second.0, BackendRequestView::Query(query_by_id_spec(id))).1
                == BackendReplyView::Items(Some(found))
            &&& found.len() > 0
            &&& forall|j: int|
                0 <= j < found.len() ==> entity_of(#[trigger] found[j]) == Some(
                    EntityView { id, value: Some(value) },
                )
        }),
{
    lemma_attribute_names_differ();
    let key = entity_key(id);
    let set = seq![("value"@, AttributeValueView::S(value))];
    let nothing = Seq::<(Seq<char>, AttributeValueView)>::empty();
    let before = table.items;
    let after = updated(before, key, set);
    lemma_rewritten_value(before, id, value);
    if matching(before, key).len() == 0 {
        let fresh = merged(key, set);
        lemma_merged_one(key, "value"@, AttributeValueView::S(value), "id"@);
        assert(key =~= nothing.push(("id"@, AttributeValueView::S(id))));
        lemma_attribute_push(nothing, ("id"@, AttributeValueView::S(id)), "id"@);
        assert(fits(fresh, key)) by {
            assert forall|at: int| 0 <= at < key.len() implies fits_at(fresh, key, at) by {
                assert(at == 0);
            }
        }
        lemma_matching_push(before, fresh, key);
        assert(matching(after, key) =~= seq![fresh]);
    }
    let found = matching(after, key);
    assert(found.len() > 0);
    lemma_rewritten_with_nothing(after, key);
    lemma_matching_members(after, key);
    assert forall|j: int| 0 <= j < found.len() implies entity_of(#[trigger] found[j]) == Some(
        EntityView { id, value: Some(value) },
    ) by {
        assert(fits(found[j], key));
        assert(fits_at(found[j], key, 0));
        assert(string_attribute(found[j], "value"@) == Some(value));
    }
}

} // verus!
