//! Inventory entries and how they are read from a JSON document.

use crate::json::{items_of, json_view, member, text_of, value_member, Json};
use crate::members::{count_member, read_text, required_count, required_text, text_member};
use crate::records::{required_levels, LevelsView, LibraOrStar};
use vstd::prelude::*;

verus! {

/// What an inventory entry is an instance of.
#[derive(Clone)]
pub struct Item {
    id: String,
    name: String,
    desc: String,
}

/// The content of an [`Item`].
pub struct ItemView {
    pub id: Seq<char>,
    pub name: Seq<char>,
    pub desc: Seq<char>,
}

impl View for Item {
    type V = ItemView;

    closed spec fn view(&self) -> ItemView {
        ItemView { id: self.id@, name: self.name@, desc: self.desc@ }
    }
}

/// The item that a JSON object with the string members `id`, `name` and
/// `desc` holds.
pub open spec fn item_of(json: Json) -> Option<ItemView> {
    if required_text(json, "id"@) is Some && required_text(json, "name"@) is Some
        && required_text(json, "desc"@) is Some {
        Some(
            ItemView {
                id: required_text(json, "id"@).unwrap(),
                name: required_text(json, "name"@).unwrap(),
                desc: required_text(json, "desc"@).unwrap(),
            },
        )
    } else {
        None
    }
}

impl Item {
    /// The identifier of the item.
    pub fn id(&self) -> (id: String)
        ensures
            id@ == self@.id,
    {
        self.id.clone()
    }

    /// The name of the item.
    pub fn name(&self) -> (name: String)
        ensures
            name@ == self@.name,
    {
        self.name.clone()
    }

    /// The description of the item.
    pub fn desc(&self) -> (desc: String)
        ensures
            desc@ == self@.desc,
    {
        self.desc.clone()
    }

    /// Reads an item from a JSON value, or gives `None` when the value does
    /// not have its shape.
    pub fn from_json(value: &serde_json::Value) -> (item: Option<Item>)
        ensures
            match item {
                Some(read) => item_of(json_view(*value)) == Some(read@),
                None => item_of(json_view(*value)) is None,
            },
    {
        let id = match text_member(value, "id") {
            Some(s) => s,
            None => { return None; },
        };
        let name = match text_member(value, "name") {
            Some(s) => s,
            None => { return None; },
        };
        let desc = match text_member(value, "desc") {
            Some(s) => s,
            None => { return None; },
        };
        Some(Item { id, name, desc })
    }

    pub(crate) fn copy(&self) -> (same: Item)
        ensures
            same@ == self@,
    {
        Item { id: self.id.clone(), name: self.name.clone(), desc: self.desc.clone() }
    }
}

/// The member that describes an entry's item. It is written under `item`
/// or under `static`; an object with both, or with neither, has none.
pub open spec fn item_member(json: Json) -> Option<Json> {
    match (member(json, "item"@), member(json, "static"@)) {
        (Some(inner), None) => Some(inner),
        (None, Some(inner)) => Some(inner),
        _ => None,
    }
}

/// The texts that a JSON array of strings holds.
pub open spec fn texts_of(json: Json) -> Option<Seq<Seq<char>>> {
    match items_of(json) {
        Some(items) => if forall|i: int| 0 <= i < items.len() ==> text_of(#[trigger] items[i])
            is Some {
            Some(Seq::new(items.len(), |i: int| text_of(items[i]).unwrap()))
        } else {
            None
        },
        None => None,
    }
}

/// One entry of a user's inventory.
pub struct InventoryResponse {
    item: Item,
    seq: usize,
    star: LibraOrStar,
    quantity: usize,
    mileage: usize,
    minutes: Vec<String>,
}

/// The content of an [`InventoryResponse`].
pub struct InventoryView {
    pub item: ItemView,
    pub seq: usize,
    pub star: LevelsView,
    pub quantity: usize,
    pub mileage: usize,
    pub minutes: Seq<Seq<char>>,
}

impl View for InventoryResponse {
    type V = InventoryView;

    closed spec fn view(&self) -> InventoryView {
        InventoryView {
            item: self.item@,
            seq: self.seq,
            star: self.star@,
            quantity: self.quantity,
            mileage: self.mileage,
            minutes: self.minutes.deep_view(),
        }
    }
}

/// The entry that a JSON object holds. The item stands under `item` or
/// `static`; `seq`, `quantity` and `mileage` are counts, `star` is levels,
/// and `minutes` is an array of strings. Other members are ignored.
pub open spec fn entry_of(json: Json) -> Option<InventoryView> {
    if item_member(json) is Some && item_of(item_member(json).unwrap()) is Some
        && required_count(json, "seq"@) is Some && required_levels(json, "star"@) is Some
        && required_count(json, "quantity"@) is Some && required_count(json, "mileage"@)
        is Some && member(json, "minutes"@) is Some && texts_of(
        member(json, "minutes"@).unwrap(),
    ) is Some {
        Some(
            InventoryView {
                item: item_of(item_member(json).unwrap()).unwrap(),
                seq: required_count(json, "seq"@).unwrap(),
                star: required_levels(json, "star"@).unwrap(),
                quantity: required_count(json, "quantity"@).unwrap(),
                mileage: required_count(json, "mileage"@).unwrap(),
                minutes: texts_of(member(json, "minutes"@).unwrap()).unwrap(),
            },
        )
    } else {
        None
    }
}

/// The entries that a JSON array of entries holds, in order.
pub open spec fn entries_of(json: Json) -> Option<Seq<InventoryView>> {
    match items_of(json) {
        Some(items) => if forall|i: int| 0 <= i < items.len() ==> entry_of(#[trigger] items[i])
            is Some {
            Some(Seq::new(items.len(), |i: int| entry_of(items[i]).unwrap()))
        } else {
            None
        },
        None => None,
    }
}

/// The contents of a list of entries.
pub open spec fn entries_view(entries: Seq<InventoryResponse>) -> Seq<InventoryView> {
    Seq::new(entries.len(), |i: int| entries[i]@)
}

/// Reads the texts of an array of strings.
pub(crate) fn read_texts(value: &serde_json::Value) -> (texts: Option<Vec<String>>)
    ensures
        texts.deep_view() == texts_of(json_view(*value)),
{
    let list = match value.as_array() {
        Some(list) => list,
        None => { return None; },
    };
    let ghost items = items_of(json_view(*value)).unwrap();
    let mut texts: Vec<String> = Vec::new();
    let mut i: usize = 0;
    while i < list.len()
        invariant
            0 <= i <= list.len(),
            items_of(json_view(*value)) == Some(items),
            items == list@.map_values(|item: serde_json::Value| json_view(item)),
            texts@.len() == i,
            forall|j: int| 0 <= j < i ==> text_of(#[trigger] items[j]) == Some(texts@[j]@),
        decreases list.len() - i,
    {
        match read_text(&list[i]) {
            Some(text) => { texts.push(text); },
            None => {
                assert(text_of(items[i as int]) is None);
                return None;
            },
        }
        i += 1;
    }
    Some(texts)
}

fn read_item_member(value: &serde_json::Value) -> (item: Option<Item>)
    ensures
        match item {
            Some(read) => item_member(json_view(*value)) is Some && item_of(
                item_member(json_view(*value)).unwrap(),
            ) == Some(read@),
            None => item_member(json_view(*value)) is None || item_of(
                item_member(json_view(*value)).unwrap(),
            ) is None,
        },
{
    match (value_member(value, "item"), value_member(value, "static")) {
        (Some(inner), None) => Item::from_json(inner),
        (None, Some(inner)) => Item::from_json(inner),
        _ => None,
    }
}

impl InventoryResponse {
    /// What the entry is an instance of.
    pub fn item(&self) -> (item: Item)
        ensures
            item@ == self@.item,
    {
        self.item.copy()
    }

    /// The sequence number of the entry.
    pub fn seq(&self) -> (seq: usize)
        ensures
            seq == self@.seq,
    {
        self.seq
    }

    /// The star levels of the entry.
    pub fn star(&self) -> (star: LibraOrStar)
        ensures
            star@ == self@.star,
    {
        self.star.copy()
    }

    /// How many of the item the entry holds.
    pub fn quantity(&self) -> (quantity: usize)
        ensures
            quantity == self@.quantity,
    {
        self.quantity
    }

    /// The mileage of the entry.
    pub fn mileage(&self) -> (mileage: usize)
        ensures
            mileage == self@.mileage,
    {
        self.mileage
    }

    /// The time windows of the entry, in order.
    pub fn minutes(&self) -> (minutes: Vec<String>)
        ensures
            minutes.deep_view() == self@.minutes,
    {
        let mut minutes: Vec<String> = Vec::new();
        let mut i: usize = 0;
        while i < self.minutes.len()
            invariant
                0 <= i <= self.minutes.len(),
                minutes@.len() == i,
                forall|j: int| 0 <= j < i ==> minutes@[j]@ == self.minutes@[j]@,
            decreases self.minutes.len() - i,
        {
            minutes.push(self.minutes[i].clone());
            i += 1;
        }
        minutes
    }

    /// Reads an entry from a JSON value, or gives `None` when the value does
    /// not have an entry's shape.
    pub fn from_json(value: &serde_json::Value) -> (entry: Option<InventoryResponse>)
        ensures
            match entry {
                Some(read) => entry_of(json_view(*value)) == Some(read@),
                None => entry_of(json_view(*value)) is None,
            },
    {
        let item = match read_item_member(value) {
            Some(item) => item,
            None => { return None; },
        };
        let seq = match count_member(value, "seq") {
            Some(n) => n,
            None => { return None; },
        };
        let star = match value_member(value, "star") {
            Some(inner) => match LibraOrStar::from_json(inner) {
                Some(levels) => levels,
                None => { return None; },
            },
            None => { return None; },
        };
        let quantity = match count_member(value, "quantity") {
            Some(n) => n,
            None => { return None; },
        };
        let mileage = match count_member(value, "mileage") {
            Some(n) => n,
            None => { return None; },
        };
        let minutes = match value_member(value, "minutes") {
            Some(inner) => match read_texts(inner) {
                Some(texts) => texts,
                None => { return None; },
            },
            None => { return None; },
        };
        Some(InventoryResponse { item, seq, star, quantity, mileage, minutes })
    }

    /// Reads a list of entries from a JSON array, or gives `None` when the
    /// value is not an array of entries.
    pub fn list_from_json(value: &serde_json::Value) -> (entries: Option<Vec<InventoryResponse>>)
        ensures
            match entries {
                Some(read) => entries_of(json_view(*value)) == Some(entries_view(read@)),
                None => entries_of(json_view(*value)) is None,
            },
    {
        let list = match value.as_array() {
            Some(list) => list,
            None => { return None; },
        };
        let ghost items = items_of(json_view(*value)).unwrap();
        let mut entries: Vec<InventoryResponse> = Vec::new();
        let mut i: usize = 0;
        while i < list.len()
            invariant
                0 <= i <= list.len(),
                items_of(json_view(*value)) == Some(items),
            items == list@.map_values(|item: serde_json::Value| json_view(item)),
                entries@.len() == i,
                forall|j: int| 0 <= j < i ==> entry_of(#[trigger] items[j]) == Some(entries@[j]@),
            decreases list.len() - i,
        {
            match InventoryResponse::from_json(&list[i]) {
                Some(entry) => { entries.push(entry); },
                None => {
                    assert(entry_of(items[i as int]) is None);
                    return None;
                },
            }
            i += 1;
        }
        Some(entries)
    }
}

} // verus!
