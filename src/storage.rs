use vstd::prelude::*;

use crate::order_item::{item_of_tag, item_tags, tag_of, tags_of, OrderItem};

verus! {

#[verifier::external_type_specification]
#[verifier::external_body]
pub struct ExJsonError(serde_json::Error);

/// The JSON text of a string, when it can be written.
pub uninterp spec fn json_of_text(s: Seq<char>) -> Option<Seq<char>>;

/// The JSON text of a list of strings, when it can be written.
pub uninterp spec fn json_of_texts(s: Seq<Seq<char>>) -> Option<Seq<char>>;

/// The list of strings that a JSON text holds, when it holds one.
pub uninterp spec fn texts_of_json(s: Seq<char>) -> Option<Seq<Seq<char>>>;

/// Relies on serde_json::to_string on a `str`: its JSON text, a function of the characters.
#[verifier::external_body]
fn text_to_json(s: &str) -> (r: Result<String, serde_json::Error>)
    ensures
        match r {
            Ok(t) => json_of_text(s@) == Some(t@),
            Err(_) => json_of_text(s@) is None,
        },
{
    serde_json::to_string(s)
}

/// Relies on serde_json::to_string on a `Vec<String>`: its JSON text, a function of the strings.
#[verifier::external_body]
fn texts_to_json(v: &Vec<String>) -> (r: Result<String, serde_json::Error>)
    ensures
        match r {
            Ok(t) => json_of_texts(v.deep_view()) == Some(t@),
            Err(_) => json_of_texts(v.deep_view()) is None,
        },
{
    serde_json::to_string(v)
}

/// Relies on serde_json::from_str into a `Vec<String>`: the strings of a JSON array, a
/// function of the text.
#[verifier::external_body]
fn json_to_texts(s: &str) -> (r: Result<Vec<String>, serde_json::Error>)
    ensures
        match r {
            Ok(v) => texts_of_json(s@) == Some(v.deep_view()),
            Err(_) => texts_of_json(s@) is None,
        },
{
    serde_json::from_str::<Vec<String>>(s)
}

/// A serialization step failed, so nothing was stored.
#[derive(Clone, Copy, Debug, PartialEq, Eq, Structural)]
pub enum EncodeError {
    Unencodable,
}

/// A stored order could not be read back; the index is that of the first bad record.
#[derive(Clone, Copy, Debug, PartialEq, Eq, Structural)]
pub enum LoadError {
    MalformedOrder(usize),
}

/// A mutation of the durable store, with its values already serialized.
#[derive(Clone, Debug)]
pub enum StoreOp {
    /// Add a user name.
    InsertUser(String),
    /// Add one cart row holding an encoded drink.
    InsertCartItem(String),
    /// Delete one cart row holding this encoded drink.
    DeleteCartItem(String),
    /// Add an order row (encoded drinks, purchaser), then empty the stored cart.
    PlaceOrder(String, String),
    /// Delete one order row with these encoded drinks and this purchaser.
    DeleteOrder(String, String),
}

/// The drinks that a list of tags names, if every tag is known.
pub open spec fn parse_tags(tags: Seq<Seq<char>>) -> Option<Seq<OrderItem>>
    decreases tags.len(),
{
    if tags.len() == 0 {
        Some(Seq::empty())
    } else {
        match (parse_tags(tags.drop_last()), item_of_tag(tags.last())) {
            (Some(items), Some(item)) => Some(items.push(item)),
            _ => None,
        }
    }
}

/// The drinks that a stored JSON text holds, if it is a list of known tags.
pub open spec fn decoded_items(s: Seq<char>) -> Option<Seq<OrderItem>> {
    match texts_of_json(s) {
        Some(tags) => parse_tags(tags),
        None => None,
    }
}

/// The stored form of one drink: the JSON text of its tag.
pub fn encode_item(item: OrderItem) -> (r: Result<String, EncodeError>)
    ensures
        match r {
            Ok(t) => json_of_text(tag_of(item)) == Some(t@),
            Err(_) => json_of_text(tag_of(item)) is None,
        },
{
    match text_to_json(item.tag()) {
        Ok(t) => Ok(t),
        Err(_) => Err(EncodeError::Unencodable),
    }
}

/// The stored form of a list of drinks: the JSON text of the list of their tags.
pub fn encode_items(items: &Vec<OrderItem>) -> (r: Result<String, EncodeError>)
    ensures
        match r {
            Ok(t) => json_of_texts(tags_of(items@)) == Some(t@),
            Err(_) => json_of_texts(tags_of(items@)) is None,
        },
{
    let tags = item_tags(items);
    match texts_to_json(&tags) {
        Ok(t) => Ok(t),
        Err(_) => Err(EncodeError::Unencodable),
    }
}

/// Reads back a stored list of drinks; `None` when the text is not a list of known tags.
pub fn decode_items(s: &str) -> (r: Option<Vec<OrderItem>>)
    ensures
        match r {
            Some(v) => decoded_items(s@) == Some(v@),
            None => decoded_items(s@) is None,
        },
{
    let tags = match json_to_texts(s) {
        Ok(v) => v,
        Err(_) => {
            return None;
        },
    };
    let mut items: Vec<OrderItem> = Vec::new();
    let mut i: usize = 0;
    while i < tags.len()
        invariant
            i <= tags@.len(),
            texts_of_json(s@) == Some(tags.deep_view()),
            parse_tags(tags.deep_view().take(i as int)) == Some(items@),
        decreases tags.len() - i,
    {
        assert(tags.deep_view().take(i + 1).drop_last() =~= tags.deep_view().take(i as int));
        match OrderItem::from_str(tags[i].as_str()) {
            Some(item) => {
                items.push(item);
            },
            None => {
                proof {
                    assert(parse_tags(tags.deep_view().take(i + 1)) is None);
                    lemma_parse_tags_prefix(tags.deep_view(), i + 1);
                }
                return None;
            },
        }
        i = i + 1;
    }
    assert(tags.deep_view().take(i as int) =~= tags.deep_view());
    Some(items)
}

/// An unknown tag in a prefix makes the whole list unknown.
proof fn lemma_parse_tags_prefix(tags: Seq<Seq<char>>, k: int)
    requires
        0 <= k <= tags.len(),
        parse_tags(tags.take(k)) is None,
    ensures
        parse_tags(tags) is None,
    decreases tags.len() - k,
{
    if k < tags.len() {
        assert(tags.take(k + 1).drop_last() =~= tags.take(k));
        lemma_parse_tags_prefix(tags, k + 1);
    } else {
        assert(tags.take(k) =~= tags);
    }
}

} // verus!
