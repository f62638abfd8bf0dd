use vstd::prelude::*;

use crate::order::{copy_items, order_label, Order};
use crate::order_item::{item_of_tag, item_tags, tag_of, tags_of, OrderItem};
use crate::storage::{
    decode_items, decoded_items, encode_item, encode_items, json_of_text, json_of_texts,
    EncodeError, LoadError, StoreOp,
};

verus! {

/// The page that lists known users.
pub const USERS_PAGE: usize = 0;

/// The page with the text input for a new user.
pub const ADD_USER_PAGE: usize = 1;

/// The page that lists the menu.
pub const MENU_PAGE: usize = 2;

/// The page that lists the cart.
pub const CART_PAGE: usize = 3;

/// The page that lists placed orders.
pub const ORDERS_PAGE: usize = 4;

/// How many pages there are in the cycle.
pub const PAGE_COUNT: usize = 5;

/// How many ticks a selection effect lasts.
pub const EFFECT_TICKS: usize = 20;

/// The period of the hue counter.
pub const HUE_CYCLE: usize = 360;

/// The magnify index moves once every this many hue steps.
pub const MAGNIFY_EVERY: usize = 4;

/// The drinks on offer, in menu order.
pub open spec fn menu() -> Seq<OrderItem> {
    seq![
        OrderItem::ClassicMilkTea,
        OrderItem::TaroMilkTea,
        OrderItem::MatchaMilkTea,
        OrderItem::ThaiMilkTea,
        OrderItem::Espresso,
        OrderItem::Latte,
    ]
}

/// The page after `page` in the cycle; an unknown page leads back to the first.
pub open spec fn page_after(page: usize) -> usize {
    if page + 1 < PAGE_COUNT {
        (page + 1) as usize
    } else {
        USERS_PAGE
    }
}

/// A cursor brought back into a list of `len` entries after it shrank.
pub open spec fn clamp(cursor: usize, len: nat) -> usize {
    if cursor < len {
        cursor
    } else if len == 0 {
        0
    } else {
        (len - 1) as usize
    }
}

/// A selection effect one tick later: it loses a tick and is gone when none is left.
pub open spec fn countdown(effect: Option<(usize, usize)>) -> Option<(usize, usize)> {
    match effect {
        Some((i, n)) => if n <= 1 {
            None
        } else {
            Some((i, (n - 1) as usize))
        },
        None => None,
    }
}

/// The text without leading and trailing white space.
pub uninterp spec fn trimmed(s: Seq<char>) -> Seq<char>;

/// Relies on str::trim: the text without leading and trailing white space, a function of
/// its characters.
#[verifier::external_body]
fn trim_text(s: &str) -> (r: String)
    ensures
        r@ == trimmed(s@),
{
    s.trim().to_string()
}

/// Whether `name` may join `users`: it is not empty and not already there.
pub open spec fn is_new_user(users: Seq<Seq<char>>, name: Seq<char>) -> bool {
    name.len() > 0 && !users.contains(name)
}

/// The users after registering `name`: appended when new, unchanged otherwise.
pub open spec fn registered(users: Seq<Seq<char>>, name: Seq<char>) -> Seq<Seq<char>> {
    if is_new_user(users, name) {
        users.push(name)
    } else {
        users
    }
}

/// Why an order was not placed.
#[derive(Clone, Copy, Debug, PartialEq, Eq, Structural)]
pub enum OrderError {
    /// The cart holds nothing.
    EmptyCart,
    /// No purchaser has been selected.
    NoUserSelected,
    /// The cart could not be serialized.
    Unencodable,
}

/// Whether a list of user names holds `name`.
pub fn contains_user(users: &Vec<String>, name: &String) -> (r: bool)
    ensures
        r == users@.map_values(|u: String| u@).contains(name@),
{
    let ghost names = users@.map_values(|u: String| u@);
    let mut i: usize = 0;
    while i < users.len()
        invariant
            i <= users@.len(),
            names == users@.map_values(|u: String| u@),
            forall|j: int| 0 <= j < i ==> names[j] != name@,
        decreases users.len() - i,
    {
        if users[i] == *name {
            assert(names[i as int] == name@);
            return true;
        }
        i = i + 1;
    }
    assert(!names.contains(name@));
    false
}

/// The live session: page, cursor, in-memory mirrors of the store, and animation state.
pub struct App {
    pub options: Vec<OrderItem>,
    pub cart: Vec<OrderItem>,
    pub orders: Vec<Order>,
    pub cursor: usize,
    pub page: usize,
    pub gradient_index: usize,
    pub magnify_index: usize,
    pub input: String,
    pub selection_effect: Option<(usize, usize)>,
    pub users: Vec<String>,
    pub selected_user: Option<String>,
}

impl App {
    /// The known user names.
    pub open spec fn user_names(&self) -> Seq<Seq<char>> {
        self.users@.map_values(|u: String| u@)
    }

    /// The labels of the list that the current page shows.
    pub open spec fn labels(&self) -> Seq<Seq<char>> {
        if self.page == USERS_PAGE {
            self.user_names()
        } else if self.page == MENU_PAGE {
            tags_of(self.options@)
        } else if self.page == CART_PAGE {
            tags_of(self.cart@)
        } else if self.page == ORDERS_PAGE {
            self.orders@.map_values(|o: Order| order_label(o@))
        } else {
            Seq::empty()
        }
    }

    /// The length of the list that the current page shows.
    pub open spec fn list_len(&self) -> nat {
        if self.page == USERS_PAGE {
            self.users@.len()
        } else if self.page == MENU_PAGE {
            self.options@.len()
        } else if self.page == CART_PAGE {
            self.cart@.len()
        } else if self.page == ORDERS_PAGE {
            self.orders@.len()
        } else {
            0
        }
    }

    /// The session's invariant: the cursor points into the current list (or is 0 when the
    /// list is empty), the hue stays in its cycle, and an armed effect has ticks left.
    pub open spec fn wf(&self) -> bool {
        &&& self.cursor == 0 || self.cursor < self.list_len()
        &&& self.gradient_index < HUE_CYCLE
        &&& match self.selection_effect {
            Some((_, n)) => n > 0,
            None => true,
        }
    }

    /// The session after moving the cursor one entry forward.
    pub open spec fn after_next(self) -> App {
        if self.list_len() == 0 {
            self
        } else {
            App {
                cursor: ((self.cursor + 1) % (self.list_len() as int)) as usize,
                selection_effect: None,
                ..self
            }
        }
    }

    /// The session after moving the cursor one entry back.
    pub open spec fn after_prev(self) -> App {
        if self.list_len() == 0 {
            self
        } else {
            App {
                cursor: if self.cursor == 0 {
                    (self.list_len() - 1) as usize
                } else {
                    (self.cursor - 1) as usize
                },
                selection_effect: None,
                ..self
            }
        }
    }

    /// The width of the highlighted label, counted as 1 when there is none or it is empty.
    pub open spec fn highlighted_width(&self) -> nat {
        if self.cursor < self.labels().len() && self.labels()[self.cursor as int].len() > 0 {
            self.labels()[self.cursor as int].len()
        } else {
            1
        }
    }

    /// The session after one step of the hue, and of the magnify index every fourth step.
    pub open spec fn after_gradient(self) -> App {
        let g = ((self.gradient_index + 1) % (HUE_CYCLE as int)) as usize;
        App {
            gradient_index: g,
            magnify_index: if g % MAGNIFY_EVERY == 0 {
                ((self.magnify_index + 1) % (self.highlighted_width() as int)) as usize
            } else {
                self.magnify_index
            },
            ..self
        }
    }

    /// The session after one frame tick.
    pub open spec fn after_tick(self) -> App {
        (App { selection_effect: countdown(self.selection_effect), ..self }).after_gradient()
    }

    /// A fresh session over the users read from storage, on the first page.
    pub fn new(users: Vec<String>) -> (r: App)
        ensures
            r.wf(),
            r.users == users,
            r.options@ == menu(),
            r.cart@.len() == 0,
            r.orders@.len() == 0,
            r.cursor == 0,
            r.page == USERS_PAGE,
            r.gradient_index == 0,
            r.magnify_index == 0,
            r.input@.len() == 0,
            r.selection_effect is None,
            r.selected_user is None,
    {
        let mut options: Vec<OrderItem> = Vec::new();
        options.push(OrderItem::ClassicMilkTea);
        options.push(OrderItem::TaroMilkTea);
        options.push(OrderItem::MatchaMilkTea);
        options.push(OrderItem::ThaiMilkTea);
        options.push(OrderItem::Espresso);
        options.push(OrderItem::Latte);
        assert(options@ =~= menu());
        App {
            options,
            cart: Vec::new(),
            orders: Vec::new(),
            cursor: 0,
            page: USERS_PAGE,
            gradient_index: 0,
            magnify_index: 0,
            input: String::new(),
            selection_effect: None,
            users,
            selected_user: None,
        }
    }

    /// The number of entries in the current page's list.
    pub fn list_length(&self) -> (r: usize)
        ensures
            r == self.list_len(),
    {
        if self.page == USERS_PAGE {
            self.users.len()
        } else if self.page == MENU_PAGE {
            self.options.len()
        } else if self.page == CART_PAGE {
            self.cart.len()
        } else if self.page == ORDERS_PAGE {
            self.orders.len()
        } else {
            0
        }
    }

    /// The labels of the current page's list, recomputed from the mirrors.
    pub fn current_list(&self) -> (r: Vec<String>)
        ensures
            r.deep_view() == self.labels(),
            r@.len() == self.list_len(),
    {
        if self.page == USERS_PAGE {
            let mut r: Vec<String> = Vec::new();
            let mut i: usize = 0;
            while i < self.users.len()
                invariant
                    i <= self.users@.len(),
                    r@.len() == i,
                    forall|j: int| 0 <= j < i ==> #[trigger] r@[j]@ == self.users@[j]@,
                decreases self.users.len() - i,
            {
                r.push(self.users[i].clone());
                i = i + 1;
            }
            assert(r.deep_view() =~= self.labels());
            r
        } else if self.page == MENU_PAGE {
            item_tags(&self.options)
        } else if self.page == CART_PAGE {
            item_tags(&self.cart)
        } else if self.page == ORDERS_PAGE {
            let mut r: Vec<String> = Vec::new();
            let mut i: usize = 0;
            while i < self.orders.len()
                invariant
                    i <= self.orders@.len(),
                    r@.len() == i,
                    forall|j: int| 0 <= j < i ==> #[trigger] r@[j]@ == order_label(self.orders@[j]@),
                decreases self.orders.len() - i,
            {
                r.push(self.orders[i].label());
                i = i + 1;
            }
            assert(r.deep_view() =~= self.labels());
            r
        } else {
            let r: Vec<String> = Vec::new();
            assert(r.deep_view() =~= self.labels());
            r
        }
    }

    /// Moves the cursor one entry forward, wrapping at the end, and clears the selection
    /// effect; does nothing on an empty list.
    pub fn next_item(&mut self)
        requires
            old(self).wf(),
        ensures
            final(self).wf(),
            *final(self) == old(self).after_next(),
    {
        let len = self.list_length();
        if len != 0 {
            self.cursor = (self.cursor + 1) % len;
            self.selection_effect = None;
        }
    }

    /// Moves the cursor one entry back, wrapping at the start, and clears the selection
    /// effect; does nothing on an empty list.
    pub fn prev_item(&mut self)
        requires
            old(self).wf(),
        ensures
            final(self).wf(),
            *final(self) == old(self).after_prev(),
    {
        let len = self.list_length();
        if len != 0 {
            self.cursor = if self.cursor == 0 {
                len - 1
            } else {
                self.cursor - 1
            };
            self.selection_effect = None;
        }
    }

    /// Goes to the next page of the cycle with the cursor on the first entry; entering the
    /// text-input page empties the input.
    pub fn next_page(&mut self)
        requires
            old(self).wf(),
        ensures
            final(self).wf(),
            final(self).page == page_after(old(self).page),
            final(self).cursor == 0,
            final(self).page == ADD_USER_PAGE ==> final(self).input@.len() == 0,
            final(self).page != ADD_USER_PAGE ==> final(self).input == old(self).input,
            final(self).options == old(self).options,
            final(self).cart == old(self).cart,
            final(self).orders == old(self).orders,
            final(self).users == old(self).users,
            final(self).selected_user == old(self).selected_user,
            final(self).selection_effect == old(self).selection_effect,
            final(self).gradient_index == old(self).gradient_index,
            final(self).magnify_index == old(self).magnify_index,
    {
        self.page = if self.page < PAGE_COUNT - 1 {
            self.page + 1
        } else {
            USERS_PAGE
        };
        self.cursor = 0;
        if self.page == ADD_USER_PAGE {
            self.input = String::new();
        }
    }

    /// Makes the user under the cursor the purchaser and jumps to the menu, cursor on its
    /// first entry; does nothing when no user is there.
    pub fn select_user(&mut self)
        requires
            old(self).wf(),
        ensures
            final(self).wf(),
            old(self).cursor < old(self).users@.len() ==> *final(self) == (App {
                selected_user: Some(old(self).users@[old(self).cursor as int]),
                page: MENU_PAGE,
                cursor: 0,
                ..*old(self)
            }),
            old(self).cursor >= old(self).users@.len() ==> *final(self) == *old(self),
    {
        if self.cursor < self.users.len() {
            self.selected_user = Some(self.users[self.cursor].clone());
            self.page = MENU_PAGE;
            self.cursor = 0;
        }
    }

    /// The store mutation that confirming the current entry needs: on the menu, adding the
    /// drink under the cursor to the cart; on the cart, deleting the drink under the
    /// cursor; elsewhere none.
    pub fn select_item_op(&self) -> (r: Result<Option<StoreOp>, EncodeError>)
        requires
            self.wf(),
        ensures
            self.page == MENU_PAGE && self.cursor < self.options@.len() ==> match r {
                Ok(Some(StoreOp::InsertCartItem(t))) => json_of_text(
                    tag_of(self.options@[self.cursor as int]),
                ) == Some(t@),
                Err(_) => json_of_text(tag_of(self.options@[self.cursor as int])) is None,
                _ => false,
            },
            self.page == CART_PAGE && self.cart@.len() > 0 ==> match r {
                Ok(Some(StoreOp::DeleteCartItem(t))) => json_of_text(
                    tag_of(self.cart@[self.cursor as int]),
                ) == Some(t@),
                Err(_) => json_of_text(tag_of(self.cart@[self.cursor as int])) is None,
                _ => false,
            },
            !(self.page == MENU_PAGE && self.cursor < self.options@.len()) && !(self.page
                == CART_PAGE && self.cart@.len() > 0) ==> r == Ok::<Option<StoreOp>, EncodeError>(None),
    {
        if self.page == MENU_PAGE && self.cursor < self.options.len() {
            match encode_item(self.options[self.cursor]) {
                Ok(t) => Ok(Some(StoreOp::InsertCartItem(t))),
                Err(e) => Err(e),
            }
        } else if self.page == CART_PAGE && self.cart.len() > 0 {
            match encode_item(self.cart[self.cursor]) {
                Ok(t) => Ok(Some(StoreOp::DeleteCartItem(t))),
                Err(e) => Err(e),
            }
        } else {
            Ok(None)
        }
    }

    /// Confirms the current entry once the store holds the change: on the menu the drink
    /// under the cursor is appended to the cart; on the cart the drink under the cursor
    /// leaves it and the cursor is clamped; either way the effect is armed on the cursor.
    /// Elsewhere nothing changes.
    pub fn select_item(&mut self)
        requires
            old(self).wf(),
        ensures
            final(self).wf(),
            old(self).page == MENU_PAGE && old(self).cursor < old(self).options@.len() ==> {
                &&& final(self).cart@.len() == old(self).cart@.len() + 1
                &&& final(self).cart@ == old(self).cart@.push(
                    old(self).options@[old(self).cursor as int],
                )
                &&& *final(self) == (App {
                    cart: final(self).cart,
                    selection_effect: Some((old(self).cursor, EFFECT_TICKS)),
                    ..*old(self)
                })
            },
            old(self).page == CART_PAGE && old(self).cart@.len() > 0 ==> {
                &&& final(self).cart@ == old(self).cart@.remove(old(self).cursor as int)
                &&& final(self).cursor == clamp(old(self).cursor, final(self).cart@.len())
                &&& final(self).cart@.len() > 0 ==> final(self).cursor < final(self).cart@.len()
                &&& *final(self) == (App {
                    cart: final(self).cart,
                    cursor: final(self).cursor,
                    selection_effect: Some((final(self).cursor, EFFECT_TICKS)),
                    ..*old(self)
                })
            },
            !(old(self).page == MENU_PAGE && old(self).cursor < old(self).options@.len()) && !(
            old(self).page == CART_PAGE && old(self).cart@.len() > 0) ==> *final(self) == *old(
                self,
            ),
    {
        if self.page == MENU_PAGE && self.cursor < self.options.len() {
            let item = self.options[self.cursor];
            self.cart.push(item);
            self.selection_effect = Some((self.cursor, EFFECT_TICKS));
        } else if self.page == CART_PAGE && self.cart.len() > 0 {
            self.cart.remove(self.cursor);
            if self.cursor >= self.cart.len() {
                self.cursor = if self.cart.len() == 0 {
                    0
                } else {
                    self.cart.len() - 1
                };
            }
            self.selection_effect = Some((self.cursor, EFFECT_TICKS));
        }
    }

    /// The store mutation that registering the typed name needs: inserting the trimmed
    /// input when it is a new, non-empty name; otherwise none.
    pub fn add_user_op(&self) -> (r: Option<StoreOp>)
        ensures
            is_new_user(self.user_names(), trimmed(self.input@)) ==> (r matches Some(
                StoreOp::InsertUser(n),
            ) && n@ == trimmed(self.input@)),
            !is_new_user(self.user_names(), trimmed(self.input@)) ==> r is None,
    {
        let name = trim_text(self.input.as_str());
        if name.as_str().unicode_len() > 0 && !contains_user(&self.users, &name) {
            Some(StoreOp::InsertUser(name))
        } else {
            None
        }
    }

    /// Registers the trimmed input as a user once the store holds it, and empties the input;
    /// an empty or known name changes nothing.
    pub fn add_user(&mut self)
        requires
            old(self).wf(),
        ensures
            final(self).wf(),
            final(self).user_names() == registered(old(self).user_names(), trimmed(old(self).input@)),
            is_new_user(old(self).user_names(), trimmed(old(self).input@)) ==> {
                &&& final(self).input@.len() == 0
                &&& *final(self) == (App { users: final(self).users, input: final(self).input, ..*old(self) })
            },
            !is_new_user(old(self).user_names(), trimmed(old(self).input@)) ==> *final(self)
                == *old(self),
    {
        let name = trim_text(self.input.as_str());
        if name.as_str().unicode_len() > 0 && !contains_user(&self.users, &name) {
            let ghost before = self.users@;
            self.users.push(name);
            assert(self.users@.map_values(|u: String| u@) =~= before.map_values(|u: String| u@).push(trimmed(old(self).input@)));
            self.input = String::new();
        }
    }

    /// The store mutation that placing the order needs: the cart, serialized, bound to the
    /// selected user. An empty cart or a missing user is refused.
    pub fn add_order_op(&self) -> (r: Result<StoreOp, OrderError>)
        ensures
            self.cart@.len() == 0 ==> r == Err::<StoreOp, OrderError>(OrderError::EmptyCart),
            self.cart@.len() > 0 && self.selected_user is None ==> r == Err::<StoreOp, OrderError>(
                OrderError::NoUserSelected,
            ),
            self.cart@.len() > 0 && self.selected_user is Some ==> match r {
                Ok(StoreOp::PlaceOrder(t, n)) => json_of_texts(tags_of(self.cart@)) == Some(t@)
                    && n == self.selected_user->Some_0,
                Err(e) => e == OrderError::Unencodable && json_of_texts(tags_of(self.cart@)) is None,
                _ => false,
            },
    {
        if self.cart.len() == 0 {
            return Err(OrderError::EmptyCart);
        }
        match &self.selected_user {
            None => Err(OrderError::NoUserSelected),
            Some(user) => match encode_items(&self.cart) {
                Ok(t) => Ok(StoreOp::PlaceOrder(t, user.clone())),
                Err(_) => Err(OrderError::Unencodable),
            },
        }
    }

    /// Places the order once the store holds it: the cart becomes an order of the selected
    /// user, the cart empties and the cursor goes to 0. An empty cart or a missing user is
    /// refused and changes nothing.
    pub fn add_order(&mut self) -> (r: Result<(), OrderError>)
        requires
            old(self).wf(),
        ensures
            final(self).wf(),
            old(self).cart@.len() == 0 ==> r == Err::<(), OrderError>(OrderError::EmptyCart)
                && *final(self) == *old(self),
            old(self).cart@.len() > 0 && old(self).selected_user is None ==> r == Err::<
                (),
                OrderError,
            >(OrderError::NoUserSelected) && *final(self) == *old(self),
            old(self).cart@.len() > 0 && old(self).selected_user is Some ==> {
                &&& r is Ok
                &&& final(self).cart@.len() == 0
                &&& final(self).orders@.len() == old(self).orders@.len() + 1
                &&& final(self).orders@.drop_last() == old(self).orders@
                &&& final(self).orders@.last()@ == (
                    old(self).cart@,
                    old(self).selected_user->Some_0@,
                )
                &&& *final(self) == (App {
                    cart: final(self).cart,
                    orders: final(self).orders,
                    cursor: 0,
                    ..*old(self)
                })
            },
    {
        if self.cart.len() == 0 {
            return Err(OrderError::EmptyCart);
        }
        let name = match &self.selected_user {
            None => {
                return Err(OrderError::NoUserSelected);
            },
            Some(user) => user.clone(),
        };
        let order = Order { items: copy_items(&self.cart), name };
        let ghost before = self.orders@;
        self.orders.push(order);
        assert(self.orders@.drop_last() =~= before);
        self.cart = Vec::new();
        self.cursor = 0;
        Ok(())
    }

    /// The store mutation that removing the order under the cursor needs, on the orders
    /// page; elsewhere, or with no orders, none.
    pub fn remove_order_op(&self) -> (r: Result<Option<StoreOp>, EncodeError>)
        requires
            self.wf(),
        ensures
            self.page == ORDERS_PAGE && self.orders@.len() > 0 ==> match r {
                Ok(Some(StoreOp::DeleteOrder(t, n))) => json_of_texts(
                    tags_of(self.orders@[self.cursor as int].items@),
                ) == Some(t@) && n@ == self.orders@[self.cursor as int].name@,
                Err(_) => json_of_texts(tags_of(self.orders@[self.cursor as int].items@)) is None,
                _ => false,
            },
            !(self.page == ORDERS_PAGE && self.orders@.len() > 0) ==> r == Ok::<
                Option<StoreOp>,
                EncodeError,
            >(None),
    {
        if self.page == ORDERS_PAGE && self.orders.len() > 0 {
            let order = &self.orders[self.cursor];
            match encode_items(&order.items) {
                Ok(t) => Ok(Some(StoreOp::DeleteOrder(t, order.name.clone()))),
                Err(e) => Err(e),
            }
        } else {
            Ok(None)
        }
    }

    /// Removes the order under the cursor once the store no longer holds it, and clamps the
    /// cursor; elsewhere than on the orders page, or with no orders, nothing changes.
    pub fn remove_order(&mut self)
        requires
            old(self).wf(),
        ensures
            final(self).wf(),
            old(self).page == ORDERS_PAGE && old(self).orders@.len() > 0 ==> {
                &&& final(self).orders@ == old(self).orders@.remove(old(self).cursor as int)
                &&& final(self).cursor == clamp(old(self).cursor, final(self).orders@.len())
                &&& *final(self) == (App {
                    orders: final(self).orders,
                    cursor: final(self).cursor,
                    ..*old(self)
                })
            },
            !(old(self).page == ORDERS_PAGE && old(self).orders@.len() > 0) ==> *final(self)
                == *old(self),
    {
        if self.page == ORDERS_PAGE && self.orders.len() > 0 {
            self.orders.remove(self.cursor);
            if self.cursor >= self.orders.len() {
                self.cursor = if self.orders.len() == 0 {
                    0
                } else {
                    self.orders.len() - 1
                };
            }
        }
    }

    /// Advances the hue by one step and, every fourth step, the magnify index within the
    /// highlighted label (modulo 1 when there is no label or it is empty).
    pub fn update_gradient(&mut self)
        requires
            old(self).wf(),
        ensures
            final(self).wf(),
            *final(self) == old(self).after_gradient(),
    {
        self.gradient_index = (self.gradient_index + 1) % HUE_CYCLE;
        if self.gradient_index % MAGNIFY_EVERY == 0 {
            let list = self.current_list();
            let width: usize = if self.cursor < list.len() {
                let w = list[self.cursor].as_str().unicode_len();
                if w == 0 {
                    1
                } else {
                    w
                }
            } else {
                1
            };
            proof {
                vstd::arithmetic::div_mod::lemma_add_mod_noop_right(1, self.magnify_index as int, width as int);
            }
            self.magnify_index = (self.magnify_index % width + 1) % width;
        }
    }

    /// One frame: the selection effect loses a tick (and is cleared when none is left),
    /// then the hue and magnify index advance.
    pub fn tick(&mut self)
        requires
            old(self).wf(),
        ensures
            final(self).wf(),
            *final(self) == old(self).after_tick(),
    {
        self.selection_effect = match self.selection_effect {
            Some((i, n)) => if n <= 1 {
                None
            } else {
                Some((i, n - 1))
            },
            None => None,
        };
        self.update_gradient();
    }

    /// Replaces the orders with those read from storage, each a row of (stored drinks,
    /// purchaser); the cursor is clamped on the orders page. One malformed row fails the
    /// whole load and leaves the session as it was.
    pub fn load_data(&mut self, rows: Vec<(String, String)>) -> (r: Result<(), LoadError>)
        requires
            old(self).wf(),
        ensures
            final(self).wf(),
            match r {
                Ok(()) => {
                    &&& forall|j: int|
                        0 <= j < rows@.len() ==> #[trigger] decoded_items(rows@[j].0@) is Some
                    &&& final(self).orders@.len() == rows@.len()
                    &&& forall|j: int|
                        0 <= j < rows@.len() ==> #[trigger] final(self).orders@[j]@ == (
                            decoded_items(rows@[j].0@)->Some_0,
                            rows@[j].1@,
                        )
                    &&& final(self).cursor == if old(self).page == ORDERS_PAGE {
                        clamp(old(self).cursor, rows@.len())
                    } else {
                        old(self).cursor
                    }
                    &&& *final(self) == (App {
                        orders: final(self).orders,
                        cursor: final(self).cursor,
                        ..*old(self)
                    })
                },
                Err(LoadError::MalformedOrder(k)) => {
                    &&& k < rows@.len()
                    &&& decoded_items(rows@[k as int].0@) is None
                    &&& forall|j: int|
                        0 <= j < k ==> #[trigger] decoded_items(rows@[j].0@) is Some
                    &&& *final(self) == *old(self)
                },
            },
    {
        let mut orders: Vec<Order> = Vec::new();
        let mut i: usize = 0;
        while i < rows.len()
            invariant
                *self == *old(self),
                old(self).wf(),
                i <= rows@.len(),
                orders@.len() == i,
                forall|j: int| 0 <= j < i ==> #[trigger] decoded_items(rows@[j].0@) is Some,
                forall|j: int|
                    0 <= j < i ==> #[trigger] orders@[j]@ == (
                        decoded_items(rows@[j].0@)->Some_0,
                        rows@[j].1@,
                    ),
            decreases rows.len() - i,
        {
            match decode_items(rows[i].0.as_str()) {
                Some(items) => {
                    orders.push(Order { items, name: rows[i].1.clone() });
                },
                None => {
                    return Err(LoadError::MalformedOrder(i));
                },
            }
            i = i + 1;
        }
        self.orders = orders;
        if self.page == ORDERS_PAGE && self.cursor >= self.orders.len() {
            self.cursor = if self.orders.len() == 0 {
                0
            } else {
                self.orders.len() - 1
            };
        }
        Ok(())
    }

    /// Adds the drink whose tag is the trimmed input to the menu and empties the input; an
    /// unknown tag changes nothing.
    pub fn add_item_to_menu(&mut self)
        requires
            old(self).wf(),
        ensures
            final(self).wf(),
            item_of_tag(trimmed(old(self).input@)) matches Some(item) ==> {
                &&& final(self).options@ == old(self).options@.push(item)
                &&& final(self).input@.len() == 0
                &&& *final(self) == (App {
                    options: final(self).options,
                    input: final(self).input,
                    ..*old(self)
                })
            },
            item_of_tag(trimmed(old(self).input@)) is None ==> *final(self) == *old(self),
    {
        let tag = trim_text(self.input.as_str());
        if let Some(item) = OrderItem::from_str(tag.as_str()) {
            self.options.push(item);
            self.input = String::new();
        }
    }
}

} // verus!
