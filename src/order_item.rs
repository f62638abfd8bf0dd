use vstd::prelude::*;

verus! {

/// A purchasable drink.
#[derive(Clone, Copy, Debug, PartialEq, Eq, Structural)]
pub enum OrderItem {
    ClassicMilkTea,
    TaroMilkTea,
    MatchaMilkTea,
    ThaiMilkTea,
    Espresso,
    Latte,
}

/// The canonical textual tag of a kind.
pub open spec fn tag_of(item: OrderItem) -> Seq<char> {
    match item {
        OrderItem::ClassicMilkTea => "ClassicMilkTea"@,
        OrderItem::TaroMilkTea => "TaroMilkTea"@,
        OrderItem::MatchaMilkTea => "MatchaMilkTea"@,
        OrderItem::ThaiMilkTea => "ThaiMilkTea"@,
        OrderItem::Espresso => "Espresso"@,
        OrderItem::Latte => "Latte"@,
    }
}

/// The kind whose tag is `s`, if any.
pub open spec fn item_of_tag(s: Seq<char>) -> Option<OrderItem> {
    if s == "ClassicMilkTea"@ {
        Some(OrderItem::ClassicMilkTea)
    } else if s == "TaroMilkTea"@ {
        Some(OrderItem::TaroMilkTea)
    } else if s == "MatchaMilkTea"@ {
        Some(OrderItem::MatchaMilkTea)
    } else if s == "ThaiMilkTea"@ {
        Some(OrderItem::ThaiMilkTea)
    } else if s == "Espresso"@ {
        Some(OrderItem::Espresso)
    } else if s == "Latte"@ {
        Some(OrderItem::Latte)
    } else {
        None
    }
}

/// Whether two strings hold the same characters.
pub fn same_text(a: &str, b: &str) -> (r: bool)
    ensures
        r == (a@ == b@),
{
    let n = a.unicode_len();
    if n != b.unicode_len() {
        return false;
    }
    let mut i: usize = 0;
    while i < n
        invariant
            n == a@.len(),
            n == b@.len(),
            i <= n,
            forall|j: int| 0 <= j < i ==> a@[j] == b@[j],
        decreases n - i,
    {
        if a.get_char(i) != b.get_char(i) {
            return false;
        }
        i = i + 1;
    }
    assert(a@ =~= b@);
    true
}

impl OrderItem {
    /// Parses a tag; an unknown tag yields `None`.
    pub fn from_str(s: &str) -> (r: Option<Self>)
        ensures
            r == item_of_tag(s@),
    {
        if same_text(s, "ClassicMilkTea") {
            Some(OrderItem::ClassicMilkTea)
        } else if same_text(s, "TaroMilkTea") {
            Some(OrderItem::TaroMilkTea)
        } else if same_text(s, "MatchaMilkTea") {
            Some(OrderItem::MatchaMilkTea)
        } else if same_text(s, "ThaiMilkTea") {
            Some(OrderItem::ThaiMilkTea)
        } else if same_text(s, "Espresso") {
            Some(OrderItem::Espresso)
        } else if same_text(s, "Latte") {
            Some(OrderItem::Latte)
        } else {
            None
        }
    }

    /// The canonical tag of this kind.
    pub fn tag(&self) -> (r: &'static str)
        ensures
            r@ == tag_of(*self),
    {
        match self {
            OrderItem::ClassicMilkTea => "ClassicMilkTea",
            OrderItem::TaroMilkTea => "TaroMilkTea",
            OrderItem::MatchaMilkTea => "MatchaMilkTea",
            OrderItem::ThaiMilkTea => "ThaiMilkTea",
            OrderItem::Espresso => "Espresso",
            OrderItem::Latte => "Latte",
        }
    }
}

/// The tags of a list of drinks.
pub open spec fn tags_of(items: Seq<OrderItem>) -> Seq<Seq<char>> {
    items.map_values(|i: OrderItem| tag_of(i))
}

/// The tags of a list of drinks, in order.
pub fn item_tags(items: &Vec<OrderItem>) -> (r: Vec<String>)
    ensures
        r.deep_view() == tags_of(items@),
        r@.len() == items@.len(),
{
    let mut tags: Vec<String> = Vec::new();
    let mut i: usize = 0;
    while i < items.len()
        invariant
            i <= items@.len(),
            tags@.len() == i,
            forall|j: int| 0 <= j < i ==> #[trigger] tags@[j]@ == tag_of(items@[j]),
        decreases items.len() - i,
    {
        tags.push(items[i].tag().to_owned());
        i = i + 1;
    }
    assert(tags.deep_view() =~= tags_of(items@));
    tags
}

/// Parsing the tag of a kind gives the kind back.
pub proof fn lemma_tag_round_trip(item: OrderItem)
    ensures
        item_of_tag(tag_of(item)) == Some(item),
{
    reveal_strlit("ClassicMilkTea");
    reveal_strlit("TaroMilkTea");
    reveal_strlit("MatchaMilkTea");
    reveal_strlit("ThaiMilkTea");
    reveal_strlit("Espresso");
    reveal_strlit("Latte");
    assert("ClassicMilkTea"@.len() == 14);
    assert("TaroMilkTea"@.len() == 11);
    assert("MatchaMilkTea"@.len() == 13);
    assert("ThaiMilkTea"@.len() == 11);
    assert("Espresso"@.len() == 8);
    assert("Latte"@.len() == 5);
    assert("TaroMilkTea"@[1] != "ThaiMilkTea"@[1]);
}

} // verus!
