use vstd::prelude::*;

use crate::order_item::{tag_of, OrderItem};

verus! {

/// A placed order: the drinks, in cart order, and who ordered them.
#[derive(Clone, Debug)]
pub struct Order {
    pub items: Vec<OrderItem>,
    pub name: String,
}

impl View for Order {
    type V = (Seq<OrderItem>, Seq<char>);

    open spec fn view(&self) -> (Seq<OrderItem>, Seq<char>) {
        (self.items@, self.name@)
    }
}

/// The tags of `items`, separated by ", ".
pub open spec fn join_tags(items: Seq<OrderItem>) -> Seq<char>
    decreases items.len(),
{
    if items.len() == 0 {
        Seq::empty()
    } else if items.len() == 1 {
        tag_of(items[0])
    } else {
        join_tags(items.drop_last()) + ", "@ + tag_of(items.last())
    }
}

/// How an order reads in a list: "name: Tag, Tag".
pub open spec fn order_label(o: (Seq<OrderItem>, Seq<char>)) -> Seq<char> {
    o.1 + ": "@ + join_tags(o.0)
}

/// A copy of a list of drinks.
pub fn copy_items(items: &Vec<OrderItem>) -> (r: Vec<OrderItem>)
    ensures
        r@ == items@,
{
    let mut r: Vec<OrderItem> = Vec::new();
    let mut i: usize = 0;
    while i < items.len()
        invariant
            i <= items@.len(),
            r@ == items@.take(i as int),
        decreases items.len() - i,
    {
        r.push(items[i]);
        i = i + 1;
        assert(r@ =~= items@.take(i as int));
    }
    assert(items@.take(i as int) =~= items@);
    r
}

impl Order {
    /// A copy of this order.
    pub fn duplicate(&self) -> (r: Order)
        ensures
            r@ == self@,
    {
        Order { items: copy_items(&self.items), name: self.name.clone() }
    }

    /// The text that stands for this order in the orders list.
    pub fn label(&self) -> (r: String)
        ensures
            r@ == order_label(self@),
    {
        let mut s = self.name.clone();
        s.append(": ");
        let mut i: usize = 0;
        while i < self.items.len()
            invariant
                i <= self.items@.len(),
                s@ == self.name@ + ": "@ + join_tags(self.items@.take(i as int)),
            decreases self.items.len() - i,
        {
            let ghost before = s@;
            if i > 0 {
                s.append(", ");
            }
            s.append(self.items[i].tag());
            assert(self.items@.take(i + 1).drop_last() =~= self.items@.take(i as int));
            if i == 0 {
                assert(join_tags(self.items@.take(0)) =~= Seq::<char>::empty());
                assert(s@ =~= self.name@ + ": "@ + join_tags(self.items@.take(1)));
            } else {
                assert(s@ =~= self.name@ + ": "@ + join_tags(self.items@.take(i + 1)));
            }
            i = i + 1;
        }
        assert(self.items@.take(i as int) =~= self.items@);
        s
    }
}

} // verus!
