//! Data records of the feed and item listings, and the pure assembly steps
//! of their handlers.

use vstd::prelude::*;

verus! {

/// One mirrored social-account change record.
pub struct BinlogAfter {
    pub id: i64,
    pub plt: String,
    pub name: String,
    pub img: Option<String>,
    pub account: String,
    pub social: String,
    pub remark: Option<String>,
    pub created: i64,
    pub updated: i64,
    pub yn: i32,
    pub state: i32,
}

/// One exchange announcement.
pub struct CexItemMsg {
    pub title: String,
    pub created: i64,
    pub href: String,
}

/// One exchange with its announcements, newest first.
pub struct CexItem {
    pub id: i64,
    pub name: String,
    pub icon: String,
    pub bg_color: String,
    pub messages: Vec<CexItemMsg>,
}

/// One followed opinion leader.
pub struct KolItem {
    pub id: i64,
    pub name: String,
    pub avatar: String,
    pub description: String,
    pub url: String,
    pub platform: String,
}

/// One followed feed account and its latest text.
pub struct TwitterItem {
    pub id: i64,
    pub name: String,
    pub icon: String,
    pub bg_color: String,
    pub messages: String,
    pub created: i64,
}

/// One stored item.
pub struct Item {
    pub id: i64,
    pub name: String,
    pub description: Option<String>,
    pub created_at: String,
}

/// A new item as submitted.
pub struct NewItem {
    pub name: String,
    pub description: Option<String>,
}

/// A partial update to an item.
pub struct UpdateItem {
    pub name: Option<String>,
    pub description: Option<String>,
}

/// Assembles one exchange's listing entry from its row and its messages;
/// missing icon or colour become empty text.
pub fn make_cex_item(
    id: i64,
    name: String,
    icon: Option<String>,
    bg_color: Option<String>,
    messages: Vec<CexItemMsg>,
) -> (c: CexItem)
    ensures
        c.id == id,
        c.name == name,
        c.messages == messages,
        icon is Some ==> c.icon == icon.unwrap(),
        icon is None ==> c.icon@ == Seq::<char>::empty(),
        bg_color is Some ==> c.bg_color == bg_color.unwrap(),
        bg_color is None ==> c.bg_color@ == Seq::<char>::empty(),
{
    let icon_text: String = match icon {
        Some(s) => s,
        None => String::new(),
    };
    let bg_text: String = match bg_color {
        Some(s) => s,
        None => String::new(),
    };
    CexItem { id, name, icon: icon_text, bg_color: bg_text, messages }
}

/// The stored item after a partial update: a given name replaces the old
/// one, a given description replaces the old one, everything else stays.
pub fn apply_item_update(item: Item, upd: UpdateItem) -> (r: Item)
    ensures
        r.id == item.id,
        r.created_at == item.created_at,
        r.name == (match upd.name {
            Some(n) => n,
            None => item.name,
        }),
        r.description == (if upd.description is Some {
            upd.description
        } else {
            item.description
        }),
{
    let name: String = match upd.name {
        Some(n) => n,
        None => item.name,
    };
    let description: Option<String> = match upd.description {
        Some(d) => Some(d),
        None => item.description,
    };
    Item { id: item.id, name, description, created_at: item.created_at }
}

} // verus!
