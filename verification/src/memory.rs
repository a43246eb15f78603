//! A record table held in memory. It answers the table requests of the gateway
//! the way the key-value backend is taken to: a write replaces the record of the
//! same key, a delete of a missing key is no error, and an update leaves alone
//! what it does not set.

use vstd::prelude::*;
use vstd::string::*;

use crate::backend::{BackendReply, BackendReplyView, BackendRequest, BackendRequestView};
use crate::dynamodb::{
    entity_key_names, entity_table_name, find_string, record_key_names, string_attribute,
    table_name, AttributeValue, AttributeValueView, Item, ItemView,
};
use crate::text::same_text;

verus! {

/// `item` has the `at`-th attribute of `key`, as the same string.
pub open spec fn fits_at(item: ItemView, key: ItemView, at: int) -> bool {
    key[at].1 matches AttributeValueView::S(want) && string_attribute(item, key[at].0) == Some(
        want,
    )
}

/// `item` has every attribute of `key`, each as the same string.
pub open spec fn fits(item: ItemView, key: ItemView) -> bool {
    forall|at: int| 0 <= at < key.len() ==> fits_at(item, key, at)
}

/// The items that fit `key`, in their order.
pub open spec fn matching(items: Seq<ItemView>, key: ItemView) -> Seq<ItemView>
    decreases items.len(),
{
    if items.len() == 0 {
        Seq::empty()
    } else {
        matching(items.drop_last(), key) + if fits(items.last(), key) {
            seq![items.last()]
        } else {
            Seq::empty()
        }
    }
}

/// The items that do not fit `key`, in their order.
pub open spec fn others(items: Seq<ItemView>, key: ItemView) -> Seq<ItemView>
    decreases items.len(),
{
    if items.len() == 0 {
        Seq::empty()
    } else {
        others(items.drop_last(), key) + if fits(items.last(), key) {
            Seq::empty()
        } else {
            seq![items.last()]
        }
    }
}

/// The key of `item` in a table keyed by `names`: those attributes of the item,
/// where it has each of them as a string.
pub open spec fn key_item(item: ItemView, names: Seq<Seq<char>>) -> Option<ItemView>
    decreases names.len(),
{
    if names.len() == 0 {
        Some(Seq::empty())
    } else {
        match (key_item(item, names.drop_last()), string_attribute(item, names.last())) {
            (Some(key), Some(text)) => Some(key.push((names.last(), AttributeValueView::S(text)))),
            _ => None,
        }
    }
}

/// `item` without the attributes named `name`.
pub open spec fn without_attribute(item: ItemView, name: Seq<char>) -> ItemView
    decreases item.len(),
{
    if item.len() == 0 {
        Seq::empty()
    } else {
        without_attribute(item.drop_last(), name) + if item.last().0 == name {
            Seq::empty()
        } else {
            seq![item.last()]
        }
    }
}

/// `item` after the attributes of `set` are written over it, one after the other.
pub open spec fn merged(item: ItemView, set: ItemView) -> ItemView
    decreases set.len(),
{
    if set.len() == 0 {
        item
    } else {
        without_attribute(merged(item, set.drop_last()), set.last().0).push(set.last())
    }
}

/// `items` with `set` written over each that fits `key`.
pub open spec fn rewritten(items: Seq<ItemView>, key: ItemView, set: ItemView) -> Seq<ItemView>
    decreases items.len(),
{
    if items.len() == 0 {
        Seq::empty()
    } else {
        rewritten(items.drop_last(), key, set).push(
            if fits(items.last(), key) {
                merged(items.last(), set)
            } else {
                items.last()
            },
        )
    }
}

/// The table after an update: `set` is written over the record under `key`, and
/// where there is none, a record of `key` and `set` is added.
pub open spec fn updated(items: Seq<ItemView>, key: ItemView, set: ItemView) -> Seq<ItemView> {
    if matching(items, key).len() == 0 {
        items.push(merged(key, set))
    } else {
        rewritten(items, key, set)
    }
}

/// A table: its name, the names of its key attributes, and its records.
#[derive(Debug, Clone, PartialEq, Eq)]
pub struct MemoryTable {
    pub name: String,
    pub key_names: Vec<String>,
    pub items: Vec<Item>,
}

/// The mathematical form of a `MemoryTable`.
pub struct MemoryTableView {
    pub name: Seq<char>,
    pub key_names: Seq<Seq<char>>,
    pub items: Seq<ItemView>,
}

impl DeepView for MemoryTable {
    type V = MemoryTableView;

    open spec fn deep_view(&self) -> MemoryTableView {
        MemoryTableView {
            name: self.name@,
            key_names: self.key_names.deep_view(),
            items: self.items.deep_view(),
        }
    }
}

impl View for MemoryTable {
    type V = MemoryTableView;

    open spec fn view(&self) -> MemoryTableView {
        self.deep_view()
    }
}

/// The table that `request` addresses, where it addresses one.
pub open spec fn addressed(request: BackendRequestView) -> Option<Seq<char>> {
    match request {
        BackendRequestView::Query(query) => Some(query.table_name),
        BackendRequestView::Scan(scan) => Some(scan.table_name),
        BackendRequestView::PutItem(put) => Some(put.table_name),
        BackendRequestView::DeleteItem(delete) => Some(delete.table_name),
        BackendRequestView::UpdateItem(update) => Some(update.table_name),
        BackendRequestView::ListObjects(_) => None,
        BackendRequestView::Presign(_) => None,
    }
}

/// What a table is after `request`, and what it answers. A request that
/// addresses another table, or none, fails, and so does a write of an item that
/// lacks a key attribute; a failed request leaves the table as it was.
pub open spec fn run(table: MemoryTableView, request: BackendRequestView) -> (
    MemoryTableView,
    BackendReplyView,
) {
    if addressed(request) != Some(table.name) {
        (table, BackendReplyView::Failed)
    } else {
        match request {
            BackendRequestView::Query(query) => (
                table,
                BackendReplyView::Items(Some(matching(table.items, query.key))),
            ),
            BackendRequestView::Scan(_) => (table, BackendReplyView::Items(Some(table.items))),
            BackendRequestView::PutItem(put) => match key_item(put.item, table.key_names) {
                Some(key) => (
                    MemoryTableView { items: others(table.items, key).push(put.item), ..table },
                    BackendReplyView::Done,
                ),
                None => (table, BackendReplyView::Failed),
            },
            BackendRequestView::DeleteItem(delete) => (
                MemoryTableView { items: others(table.items, delete.key), ..table },
                BackendReplyView::Done,
            ),
            BackendRequestView::UpdateItem(update) => (
                MemoryTableView {
                    items: updated(table.items, update.key, update.set),
                    ..table
                },
                BackendReplyView::Done,
            ),
            _ => (table, BackendReplyView::Failed),
        }
    }
}

/// A copy of `value`.
pub fn copy_value(value: &AttributeValue) -> (copy: AttributeValue)
    ensures
        copy@ == value@,
{
    match value {
        AttributeValue::S(text) => AttributeValue::S(text.clone()),
        AttributeValue::Other => AttributeValue::Other,
    }
}

/// A copy of `item`.
pub fn copy_item(item: &Item) -> (copy: Item)
    ensures
        copy.deep_view() == item.deep_view(),
{
    let mut copy: Item = Vec::new();
    let mut i: usize = 0;
    while i < item.len()
        invariant
            i <= item.len(),
            copy.len() == i,
            forall|j: int| 0 <= j < i ==> (#[trigger] copy[j]).deep_view() == item[j].deep_view(),
        decreases item.len() - i,
    {
        copy.push((item[i].0.clone(), copy_value(&item[i].1)));
        i += 1;
    }
    assert(copy.deep_view() =~= item.deep_view());
    copy
}

/// Whether `item` has every attribute of `key`, each as the same string.
pub fn fits_key(item: &Item, key: &Item) -> (fit: bool)
    ensures
        fit == fits(item.deep_view(), key.deep_view()),
{
    let mut at: usize = 0;
    while at < key.len()
        invariant
            at <= key.len(),
            key.deep_view().len() == key.len(),
            forall|j: int| 0 <= j < at ==> fits_at(item.deep_view(), key.deep_view(), j),
        decreases key.len() - at,
    {
        assert(key.deep_view()[at as int] == key[at as int].deep_view());
        let agrees = match &key[at].1 {
            AttributeValue::S(want) => match find_string(item, key[at].0.as_str()) {
                Some(have) => same_text(have.as_str(), want.as_str()),
                None => false,
            },
            AttributeValue::Other => false,
        };
        if !agrees {
            assert(!fits_at(item.deep_view(), key.deep_view(), at as int));
            return false;
        }
        at += 1;
    }
    true
}

/// The key of `item` in a table keyed by `names`.
pub fn key_of(item: &Item, names: &Vec<String>) -> (key: Option<Item>)
    ensures
        key.deep_view() == key_item(item.deep_view(), names.deep_view()),
{
    let mut key: Item = Vec::new();
    let mut i: usize = 0;
    assert(names.deep_view().take(0) =~= Seq::<Seq<char>>::empty());
    assert(key.deep_view() =~= Seq::<(Seq<char>, AttributeValueView)>::empty());
    while i < names.len()
        invariant
            i <= names.len(),
            names.deep_view().len() == names.len(),
            Some(key.deep_view()) == key_item(item.deep_view(), names.deep_view().take(i as int)),
        decreases names.len() - i,
    {
        proof {
            let now = names.deep_view().take(i + 1);
            assert(now.drop_last() =~= names.deep_view().take(i as int));
            assert(now.last() == names[i as int]@);
        }
        let ghost before = key.deep_view();
        match find_string(item, names[i].as_str()) {
            Some(text) => {
                key.push((names[i].clone(), AttributeValue::S(text)));
                assert(key.deep_view() =~= before.push(
                    (names[i as int]@, AttributeValueView::S(text@)),
                ));
            },
            None => {
                proof {
                    lemma_key_item_needs_every_name(
                        item.deep_view(),
                        names.deep_view(),
                        i as int,
                    );
                }
                return None;
            },
        }
        i += 1;
    }
    assert(names.deep_view().take(names.len() as int) =~= names.deep_view());
    Some(key)
}

/// An item that lacks one of the key attributes has no key.
pub proof fn lemma_key_item_needs_every_name(item: ItemView, names: Seq<Seq<char>>, at: int)
    requires
        0 <= at < names.len(),
        string_attribute(item, names[at]) is None,
    ensures
        key_item(item, names) is None,
    decreases names.len(),
{
    if at < names.len() - 1 {
        lemma_key_item_needs_every_name(item, names.drop_last(), at);
    }
}

/// Writes the attribute `name` over `item`.
pub fn set_attribute(item: &mut Item, name: &str, value: AttributeValue)
    ensures
        final(item).deep_view() == without_attribute(old(item).deep_view(), name@).push(
            (name@, value@),
        ),
{
    let mut kept: Item = Vec::new();
    let mut i: usize = 0;
    assert(item.deep_view().take(0) =~= Seq::<(Seq<char>, AttributeValueView)>::empty());
    assert(kept.deep_view() =~= Seq::<(Seq<char>, AttributeValueView)>::empty());
    while i < item.len()
        invariant
            i <= item.len(),
            *item == *old(item),
            item.deep_view().len() == item.len(),
            kept.deep_view() == without_attribute(item.deep_view().take(i as int), name@),
        decreases item.len() - i,
    {
        proof {
            let now = item.deep_view().take(i + 1);
            assert(now.drop_last() =~= item.deep_view().take(i as int));
            assert(now.last() == item[i as int].deep_view());
        }
        let ghost before = kept.deep_view();
        if !same_text(item[i].0.as_str(), name) {
            kept.push((item[i].0.clone(), copy_value(&item[i].1)));
            assert(kept.deep_view() =~= before + seq![item[i as int].deep_view()]);
        } else {
            assert(kept.deep_view() =~= before + Seq::<(Seq<char>, AttributeValueView)>::empty());
        }
        i += 1;
    }
    assert(item.deep_view().take(item.len() as int) =~= item.deep_view());
    let ghost before = kept.deep_view();
    kept.push((name.to_owned(), value));
    assert(kept.deep_view() =~= before.push((name@, value@)));
    *item = kept;
}

/// `item` with the attributes of `set` written over it.
pub fn merge(item: &Item, set: &Item) -> (out: Item)
    ensures
        out.deep_view() == merged(item.deep_view(), set.deep_view()),
{
    let mut out = copy_item(item);
    let mut i: usize = 0;
    assert(set.deep_view().take(0) =~= Seq::<(Seq<char>, AttributeValueView)>::empty());
    while i < set.len()
        invariant
            i <= set.len(),
            set.deep_view().len() == set.len(),
            out.deep_view() == merged(item.deep_view(), set.deep_view().take(i as int)),
        decreases set.len() - i,
    {
        proof {
            let now = set.deep_view().take(i + 1);
            assert(now.drop_last() =~= set.deep_view().take(i as int));
            assert(now.last() == set[i as int].deep_view());
        }
        set_attribute(&mut out, set[i].0.as_str(), copy_value(&set[i].1));
        i += 1;
    }
    assert(set.deep_view().take(set.len() as int) =~= set.deep_view());
    out
}

impl MemoryTable {
    /// An empty table keyed as the record table is, by `part` and `idx`.
    pub fn records() -> (table: MemoryTable)
        ensures
            table@ == (MemoryTableView {
                name: table_name(),
                key_names: record_key_names(),
                items: Seq::empty(),
            }),
    {
        let names: Vec<String> = vec![String::from_str("part"), String::from_str("idx")];
        assert(names.deep_view() =~= record_key_names());
        MemoryTable::new(String::from_str("blog_deepria_master"), names)
    }

    /// An empty table keyed as the entity table is, by `id`.
    pub fn entities() -> (table: MemoryTable)
        ensures
            table@ == (MemoryTableView {
                name: entity_table_name(),
                key_names: entity_key_names(),
                items: Seq::empty(),
            }),
    {
        let names: Vec<String> = vec![String::from_str("id")];
        assert(names.deep_view() =~= entity_key_names());
        MemoryTable::new(String::from_str("test_table"), names)
    }

    /// An empty table called `name` and keyed by `key_names`.
    pub fn new(name: String, key_names: Vec<String>) -> (table: MemoryTable)
        ensures
            table@ == (MemoryTableView {
                name: name@,
                key_names: key_names.deep_view(),
                items: Seq::empty(),
            }),
    {
        let table = MemoryTable { name, key_names, items: Vec::new() };
        assert(table@.items =~= Seq::<ItemView>::empty());
        table
    }

    /// The records that fit `key`.
    pub fn query(&self, key: &Item) -> (found: Vec<Item>)
        ensures
            found.deep_view() == matching(self@.items, key.deep_view()),
    {
        let mut found: Vec<Item> = Vec::new();
        let mut i: usize = 0;
        assert(self.items.deep_view().take(0) =~= Seq::<ItemView>::empty());
        assert(found.deep_view() =~= Seq::<ItemView>::empty());
        while i < self.items.len()
            invariant
                i <= self.items.len(),
                self.items.deep_view().len() == self.items.len(),
                found.deep_view() == matching(
                    self.items.deep_view().take(i as int),
                    key.deep_view(),
                ),
            decreases self.items.len() - i,
        {
            proof {
                let now = self.items.deep_view().take(i + 1);
                assert(now.drop_last() =~= self.items.deep_view().take(i as int));
                assert(now.last() == self.items[i as int].deep_view());
            }
            let ghost before = found.deep_view();
            if fits_key(&self.items[i], key) {
                found.push(copy_item(&self.items[i]));
                assert(found.deep_view() =~= before + seq![self.items[i as int].deep_view()]);
            } else {
                assert(found.deep_view() =~= before + Seq::<ItemView>::empty());
            }
            i += 1;
        }
        assert(self.items.deep_view().take(self.items.len() as int) =~= self.items.deep_view());
        found
    }

    /// All records.
    pub fn scan(&self) -> (found: Vec<Item>)
        ensures
            found.deep_view() == self@.items,
    {
        let mut found: Vec<Item> = Vec::new();
        let mut i: usize = 0;
        while i < self.items.len()
            invariant
                i <= self.items.len(),
                found.len() == i,
                forall|j: int|
                    0 <= j < i ==> (#[trigger] found[j]).deep_view() == self.items[j].deep_view(),
            decreases self.items.len() - i,
        {
            found.push(copy_item(&self.items[i]));
            i += 1;
        }
        assert(found.deep_view() =~= self.items.deep_view());
        found
    }

    /// Removes the records that fit `key`.
    pub fn delete(&mut self, key: &Item)
        ensures
            final(self)@ == (MemoryTableView {
                items: others(old(self)@.items, key.deep_view()),
                ..old(self)@
            }),
    {
        let mut kept: Vec<Item> = Vec::new();
        let mut i: usize = 0;
        assert(self.items.deep_view().take(0) =~= Seq::<ItemView>::empty());
        assert(kept.deep_view() =~= Seq::<ItemView>::empty());
        while i < self.items.len()
            invariant
                i <= self.items.len(),
                *self == *old(self),
                self.items.deep_view().len() == self.items.len(),
                kept.deep_view() == others(self.items.deep_view().take(i as int), key.deep_view()),
            decreases self.items.len() - i,
        {
            proof {
                let now = self.items.deep_view().take(i + 1);
                assert(now.drop_last() =~= self.items.deep_view().take(i as int));
                assert(now.last() == self.items[i as int].deep_view());
            }
            let ghost before = kept.deep_view();
            if !fits_key(&self.items[i], key) {
                kept.push(copy_item(&self.items[i]));
                assert(kept.deep_view() =~= before + seq![self.items[i as int].deep_view()]);
            } else {
                assert(kept.deep_view() =~= before + Seq::<ItemView>::empty());
            }
            i += 1;
        }
        assert(self.items.deep_view().take(self.items.len() as int) =~= self.items.deep_view());
        self.items = kept;
    }

    /// Writes `item` in place of the record of the same key. An item that lacks a
    /// key attribute is refused, and the table stays as it was.
    pub fn put(&mut self, item: Item) -> (written: bool)
        ensures
            written == key_item(item.deep_view(), old(self)@.key_names) is Some,
            final(self)@ == (if written {
                MemoryTableView {
                    items: others(
                        old(self)@.items,
                        key_item(item.deep_view(), old(self)@.key_names)->0,
                    ).push(item.deep_view()),
                    ..old(self)@
                }
            } else {
                old(self)@
            }),
    {
        match key_of(&item, &self.key_names) {
            Some(key) => {
                self.delete(&key);
                let ghost before = self.items.deep_view();
                self.items.push(item);
                assert(self.items.deep_view() =~= before.push(item.deep_view()));
                true
            },
            None => false,
        }
    }

    /// Writes `set` over the record under `key`, or adds a record of `key` and
    /// `set` where there is none.
    pub fn update(&mut self, key: &Item, set: &Item)
        ensures
            final(self)@ == (MemoryTableView {
                items: updated(old(self)@.items, key.deep_view(), set.deep_view()),
                ..old(self)@
            }),
    {
        let mut next: Vec<Item> = Vec::new();
        let mut hits: usize = 0;
        let mut i: usize = 0;
        assert(self.items.deep_view().take(0) =~= Seq::<ItemView>::empty());
        assert(next.deep_view() =~= Seq::<ItemView>::empty());
        while i < self.items.len()
            invariant
                i <= self.items.len(),
                hits <= i,
                *self == *old(self),
                self.items.deep_view().len() == self.items.len(),
                hits == matching(self.items.deep_view().take(i as int), key.deep_view()).len(),
                next.deep_view() == rewritten(
                    self.items.deep_view().take(i as int),
                    key.deep_view(),
                    set.deep_view(),
                ),
            decreases self.items.len() - i,
        {
            proof {
                let now = self.items.deep_view().take(i + 1);
                assert(now.drop_last() =~= self.items.deep_view().take(i as int));
                assert(now.last() == self.items[i as int].deep_view());
            }
            let ghost before = next.deep_view();
            if fits_key(&self.items[i], key) {
                let item = merge(&self.items[i], set);
                next.push(item);
                hits += 1;
                assert(next.deep_view() =~= before.push(
                    merged(self.items[i as int].deep_view(), set.deep_view()),
                ));
            } else {
                next.push(copy_item(&self.items[i]));
                assert(next.deep_view() =~= before.push(self.items[i as int].deep_view()));
            }
            i += 1;
        }
        assert(self.items.deep_view().take(self.items.len() as int) =~= self.items.deep_view());
        if hits == 0 {
            self.items.push(merge(key, set));
            assert(self.items.deep_view() =~= old(self).items.deep_view().push(
                merged(key.deep_view(), set.deep_view()),
            ));
        } else {
            self.items = next;
        }
    }

    /// Whether `request` addresses this table.
    pub fn is_addressed(&self, request: &BackendRequest) -> (mine: bool)
        ensures
            mine == (addressed(request@) == Some(self@.name)),
    {
        match request {
            BackendRequest::Query(query) => same_text(
                query.table_name.as_str(),
                self.name.as_str(),
            ),
            BackendRequest::Scan(scan) => same_text(scan.table_name.as_str(), self.name.as_str()),
            BackendRequest::PutItem(put) => same_text(put.table_name.as_str(), self.name.as_str()),
            BackendRequest::DeleteItem(delete) => same_text(
                delete.table_name.as_str(),
                self.name.as_str(),
            ),
            BackendRequest::UpdateItem(update) => same_text(
                update.table_name.as_str(),
                self.name.as_str(),
            ),
            BackendRequest::ListObjects(_) => false,
            BackendRequest::Presign(_) => false,
        }
    }

    /// Answers `request` and takes its effect.
    pub fn execute(&mut self, request: &BackendRequest) -> (reply: BackendReply)
        ensures
            (final(self)@, reply@) == run(old(self)@, request@),
    {
        if !self.is_addressed(request) {
            return BackendReply::Failed;
        }
        match request {
            BackendRequest::Query(query) => BackendReply::Items(Some(self.query(&query.key))),
            BackendRequest::Scan(_) => BackendReply::Items(Some(self.scan())),
            BackendRequest::PutItem(put) => {
                if self.put(copy_item(&put.item)) {
                    BackendReply::Done
                } else {
                    BackendReply::Failed
                }
            },
            BackendRequest::DeleteItem(delete) => {
                self.delete(&delete.key);
                BackendReply::Done
            },
            BackendRequest::UpdateItem(update) => {
                self.update(&update.key, &update.set);
                BackendReply::Done
            },
            _ => BackendReply::Failed,
        }
    }
}

} // verus!
