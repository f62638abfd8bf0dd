use bubble_tea::app::{
    App, OrderError, ADD_USER_PAGE, CART_PAGE, EFFECT_TICKS, MENU_PAGE, ORDERS_PAGE, USERS_PAGE,
};
use bubble_tea::order::Order;
use bubble_tea::order_item::OrderItem;
use bubble_tea::storage::{decode_items, encode_item, encode_items, LoadError, StoreOp};

fn app_on(page: usize) -> App {
    let mut app = App::new(vec!["Bob".to_string()]);
    app.page = page;
    app
}

#[test]
fn parses_every_tag() {
    let all = [
        ("ClassicMilkTea", OrderItem::ClassicMilkTea),
        ("TaroMilkTea", OrderItem::TaroMilkTea),
        ("MatchaMilkTea", OrderItem::MatchaMilkTea),
        ("ThaiMilkTea", OrderItem::ThaiMilkTea),
        ("Espresso", OrderItem::Espresso),
        ("Latte", OrderItem::Latte),
    ];
    for (tag, item) in all {
        assert_eq!(OrderItem::from_str(tag), Some(item));
        assert_eq!(item.tag(), tag);
    }
}

#[test]
fn unknown_tag_is_none() {
    assert_eq!(OrderItem::from_str("Mocha"), None);
    assert_eq!(OrderItem::from_str(""), None);
    assert_eq!(OrderItem::from_str("latte"), None);
    assert_eq!(OrderItem::from_str("Latte "), None);
}

#[test]
fn new_session_starts_on_users_page() {
    let app = App::new(vec!["Ann".to_string()]);
    assert_eq!(app.page, USERS_PAGE);
    assert_eq!(app.cursor, 0);
    assert_eq!(app.options.len(), 6);
    assert_eq!(app.options[0], OrderItem::ClassicMilkTea);
    assert_eq!(app.options[5], OrderItem::Latte);
    assert!(app.cart.is_empty());
    assert!(app.selection_effect.is_none());
    assert_eq!(app.current_list(), vec!["Ann".to_string()]);
}

#[test]
fn cursor_wraps_after_len_forward_moves() {
    let mut app = app_on(MENU_PAGE);
    app.cursor = 2;
    for _ in 0..6 {
        app.next_item();
    }
    assert_eq!(app.cursor, 2);
    app.cursor = 5;
    app.next_item();
    assert_eq!(app.cursor, 0);
}

#[test]
fn prev_item_wraps_to_last() {
    let mut app = app_on(MENU_PAGE);
    app.prev_item();
    assert_eq!(app.cursor, 5);
    app.prev_item();
    assert_eq!(app.cursor, 4);
}

#[test]
fn moving_on_an_empty_list_does_nothing() {
    let mut app = app_on(CART_PAGE);
    app.selection_effect = Some((0, 5));
    app.next_item();
    app.prev_item();
    assert_eq!(app.cursor, 0);
    assert_eq!(app.selection_effect, Some((0, 5)));
}

#[test]
fn select_on_menu_appends_and_arms_effect() {
    let mut app = app_on(MENU_PAGE);
    app.cursor = 5;
    match app.select_item_op() {
        Ok(Some(StoreOp::InsertCartItem(row))) => assert_eq!(row, "\"Latte\""),
        _ => panic!("expected a cart insertion"),
    }
    app.select_item();
    assert_eq!(app.cart, vec![OrderItem::Latte]);
    assert_eq!(app.selection_effect, Some((5, EFFECT_TICKS)));
    app.cursor = 0;
    app.select_item();
    assert_eq!(app.cart, vec![OrderItem::Latte, OrderItem::ClassicMilkTea]);
}

#[test]
fn select_on_cart_removes_and_clamps() {
    let mut app = app_on(CART_PAGE);
    app.cart = vec![OrderItem::Espresso, OrderItem::Latte, OrderItem::TaroMilkTea];
    app.cursor = 2;
    match app.select_item_op() {
        Ok(Some(StoreOp::DeleteCartItem(row))) => assert_eq!(row, "\"TaroMilkTea\""),
        _ => panic!("expected a cart deletion"),
    }
    app.select_item();
    assert_eq!(app.cart, vec![OrderItem::Espresso, OrderItem::Latte]);
    assert_eq!(app.cursor, 1);
    assert_eq!(app.selection_effect, Some((1, EFFECT_TICKS)));
    app.cursor = 0;
    app.select_item();
    assert_eq!(app.cart, vec![OrderItem::Latte]);
    assert_eq!(app.cursor, 0);
    app.select_item();
    assert!(app.cart.is_empty());
    assert_eq!(app.cursor, 0);
    assert!(matches!(app.select_item_op(), Ok(None)));
}

#[test]
fn select_elsewhere_does_nothing() {
    let mut app = app_on(ORDERS_PAGE);
    assert!(matches!(app.select_item_op(), Ok(None)));
    app.select_item();
    assert!(app.cart.is_empty());
    assert!(app.selection_effect.is_none());
}

#[test]
fn effect_expires_after_its_duration() {
    let mut app = app_on(MENU_PAGE);
    app.select_item();
    for k in 1..EFFECT_TICKS {
        app.tick();
        assert_eq!(app.selection_effect, Some((0, EFFECT_TICKS - k)));
    }
    app.tick();
    assert!(app.selection_effect.is_none());
}

#[test]
fn cursor_move_clears_effect() {
    let mut app = app_on(MENU_PAGE);
    app.select_item();
    app.next_item();
    assert!(app.selection_effect.is_none());
    app.select_item();
    app.prev_item();
    assert!(app.selection_effect.is_none());
}

#[test]
fn next_page_cycles_and_clears_input() {
    let mut app = app_on(USERS_PAGE);
    app.input = "draft".to_string();
    app.cursor = 0;
    app.next_page();
    assert_eq!(app.page, ADD_USER_PAGE);
    assert_eq!(app.input, "");
    app.input = "Carol".to_string();
    app.next_page();
    assert_eq!(app.page, MENU_PAGE);
    assert_eq!(app.input, "Carol");
    app.cursor = 3;
    app.next_page();
    assert_eq!(app.page, CART_PAGE);
    assert_eq!(app.cursor, 0);
    app.next_page();
    assert_eq!(app.page, ORDERS_PAGE);
    app.next_page();
    assert_eq!(app.page, USERS_PAGE);
    assert_eq!(app.current_list(), vec!["Bob".to_string()]);
}

#[test]
fn register_trims_and_appends() {
    let mut app = app_on(ADD_USER_PAGE);
    app.input = "  Alice \t".to_string();
    match app.add_user_op() {
        Some(StoreOp::InsertUser(name)) => assert_eq!(name, "Alice"),
        _ => panic!("expected a user insertion"),
    }
    app.add_user();
    assert_eq!(app.users, vec!["Bob".to_string(), "Alice".to_string()]);
    assert_eq!(app.input, "");
}

#[test]
fn register_twice_keeps_one() {
    let mut app = app_on(ADD_USER_PAGE);
    app.input = "Alice".to_string();
    app.add_user();
    app.input = "Alice".to_string();
    assert!(app.add_user_op().is_none());
    app.add_user();
    assert_eq!(app.users.iter().filter(|u| u.as_str() == "Alice").count(), 1);
    assert_eq!(app.input, "Alice");
}

#[test]
fn register_blank_is_ignored() {
    let mut app = app_on(ADD_USER_PAGE);
    app.input = "   ".to_string();
    assert!(app.add_user_op().is_none());
    app.add_user();
    assert_eq!(app.users, vec!["Bob".to_string()]);
    assert_eq!(app.input, "   ");
}

#[test]
fn select_user_jumps_to_menu() {
    let mut app = App::new(vec!["Ann".to_string(), "Bob".to_string()]);
    app.cursor = 1;
    app.select_user();
    assert_eq!(app.selected_user, Some("Bob".to_string()));
    assert_eq!(app.page, MENU_PAGE);
    assert_eq!(app.cursor, 0);
}

#[test]
fn select_user_with_no_users_does_nothing() {
    let mut app = App::new(vec![]);
    app.select_user();
    assert!(app.selected_user.is_none());
    assert_eq!(app.page, USERS_PAGE);
}

#[test]
fn place_order_with_empty_cart_is_refused() {
    let mut app = app_on(CART_PAGE);
    app.selected_user = Some("Alice".to_string());
    assert!(matches!(app.add_order_op(), Err(OrderError::EmptyCart)));
    assert_eq!(app.add_order(), Err(OrderError::EmptyCart));
    assert!(app.orders.is_empty());
}

#[test]
fn place_order_without_user_is_refused() {
    let mut app = app_on(CART_PAGE);
    app.cart = vec![OrderItem::Latte];
    assert!(matches!(app.add_order_op(), Err(OrderError::NoUserSelected)));
    assert_eq!(app.add_order(), Err(OrderError::NoUserSelected));
    assert_eq!(app.cart, vec![OrderItem::Latte]);
    assert!(app.orders.is_empty());
}

#[test]
fn place_order_scenario() {
    let mut app = app_on(CART_PAGE);
    app.cart = vec![OrderItem::ClassicMilkTea, OrderItem::Latte];
    app.cursor = 1;
    app.selected_user = Some("Alice".to_string());
    match app.add_order_op() {
        Ok(StoreOp::PlaceOrder(items, name)) => {
            assert_eq!(items, "[\"ClassicMilkTea\",\"Latte\"]");
            assert_eq!(name, "Alice");
        }
        _ => panic!("expected an order"),
    }
    assert_eq!(app.add_order(), Ok(()));
    assert!(app.cart.is_empty());
    assert_eq!(app.cursor, 0);
    assert_eq!(app.orders.len(), 1);
    assert_eq!(app.orders[0].items, vec![OrderItem::ClassicMilkTea, OrderItem::Latte]);
    assert_eq!(app.orders[0].name, "Alice");
    app.page = ORDERS_PAGE;
    assert_eq!(app.current_list(), vec!["Alice: ClassicMilkTea, Latte".to_string()]);
}

#[test]
fn remove_order_clamps_cursor() {
    let mut app = app_on(ORDERS_PAGE);
    app.orders = vec![
        Order { items: vec![OrderItem::Espresso], name: "Ann".to_string() },
        Order { items: vec![OrderItem::Latte, OrderItem::Latte], name: "Bob".to_string() },
    ];
    app.cursor = 1;
    match app.remove_order_op() {
        Ok(Some(StoreOp::DeleteOrder(items, name))) => {
            assert_eq!(items, "[\"Latte\",\"Latte\"]");
            assert_eq!(name, "Bob");
        }
        _ => panic!("expected an order deletion"),
    }
    app.remove_order();
    assert_eq!(app.orders.len(), 1);
    assert_eq!(app.orders[0].name, "Ann");
    assert_eq!(app.cursor, 0);
    app.remove_order();
    assert!(app.orders.is_empty());
    assert!(matches!(app.remove_order_op(), Ok(None)));
}

#[test]
fn remove_order_elsewhere_does_nothing() {
    let mut app = app_on(CART_PAGE);
    app.orders = vec![Order { items: vec![], name: "Ann".to_string() }];
    assert!(matches!(app.remove_order_op(), Ok(None)));
    app.remove_order();
    assert_eq!(app.orders.len(), 1);
}

#[test]
fn hue_wraps_and_magnify_follows_label() {
    let mut app = app_on(MENU_PAGE);
    app.cursor = 5;
    for _ in 0..4 {
        app.tick();
    }
    assert_eq!(app.gradient_index, 4);
    assert_eq!(app.magnify_index, 1);
    for _ in 0..16 {
        app.tick();
    }
    assert_eq!(app.magnify_index, 0);
    for _ in 0..340 {
        app.tick();
    }
    assert_eq!(app.gradient_index, 0);
}

#[test]
fn magnify_with_empty_label_uses_one() {
    let mut app = App::new(vec!["".to_string()]);
    app.magnify_index = 7;
    for _ in 0..4 {
        app.tick();
    }
    assert_eq!(app.magnify_index, 0);
    let mut bare = app_on(ADD_USER_PAGE);
    bare.magnify_index = 3;
    for _ in 0..4 {
        bare.tick();
    }
    assert_eq!(bare.magnify_index, 0);
}

#[test]
fn load_reads_orders() {
    let mut app = app_on(ORDERS_PAGE);
    let rows = vec![
        ("[\"Espresso\"]".to_string(), "Ann".to_string()),
        ("[\"ThaiMilkTea\",\"Latte\"]".to_string(), "Bob".to_string()),
    ];
    assert_eq!(app.load_data(rows), Ok(()));
    assert_eq!(app.orders.len(), 2);
    assert_eq!(app.orders[1].items, vec![OrderItem::ThaiMilkTea, OrderItem::Latte]);
    assert_eq!(app.orders[1].name, "Bob");
    assert_eq!(
        app.current_list(),
        vec!["Ann: Espresso".to_string(), "Bob: ThaiMilkTea, Latte".to_string()]
    );
}

#[test]
fn load_fails_whole_on_one_bad_row() {
    let mut app = app_on(ORDERS_PAGE);
    app.orders = vec![Order { items: vec![OrderItem::Latte], name: "Ann".to_string() }];
    let rows = vec![
        ("[\"Espresso\"]".to_string(), "Ann".to_string()),
        ("[\"Mocha\"]".to_string(), "Bob".to_string()),
        ("not json".to_string(), "Cy".to_string()),
    ];
    assert_eq!(app.load_data(rows), Err(LoadError::MalformedOrder(1)));
    assert_eq!(app.orders.len(), 1);
    assert_eq!(app.orders[0].items, vec![OrderItem::Latte]);
    let rows = vec![("{".to_string(), "Ann".to_string())];
    assert_eq!(app.load_data(rows), Err(LoadError::MalformedOrder(0)));
}

#[test]
fn load_clamps_cursor_on_orders_page() {
    let mut app = app_on(ORDERS_PAGE);
    app.orders = vec![
        Order { items: vec![], name: "Ann".to_string() },
        Order { items: vec![], name: "Bob".to_string() },
    ];
    app.cursor = 1;
    assert_eq!(app.load_data(vec![("[]".to_string(), "Ann".to_string())]), Ok(()));
    assert_eq!(app.cursor, 0);
}

#[test]
fn codec_writes_json() {
    assert_eq!(encode_item(OrderItem::MatchaMilkTea), Ok("\"MatchaMilkTea\"".to_string()));
    assert_eq!(encode_items(&vec![]), Ok("[]".to_string()));
    assert_eq!(
        decode_items("[\"Latte\",\"Espresso\"]"),
        Some(vec![OrderItem::Latte, OrderItem::Espresso])
    );
    assert_eq!(decode_items("\"Latte\""), None);
    assert_eq!(decode_items("[\"Latte\",\"Tea\"]"), None);
}

#[test]
fn order_label_joins_tags() {
    let o = Order { items: vec![OrderItem::TaroMilkTea, OrderItem::Espresso], name: "Dee".to_string() };
    assert_eq!(o.label(), "Dee: TaroMilkTea, Espresso");
    let empty = Order { items: vec![], name: "Eve".to_string() };
    assert_eq!(empty.label(), "Eve: ");
    let copy = o.duplicate();
    assert_eq!(copy.items, o.items);
    assert_eq!(copy.name, o.name);
}

#[test]
fn menu_grows_from_a_known_tag() {
    let mut app = app_on(ADD_USER_PAGE);
    app.input = " Espresso ".to_string();
    app.add_item_to_menu();
    assert_eq!(app.options.len(), 7);
    assert_eq!(app.options[6], OrderItem::Espresso);
    assert_eq!(app.input, "");
    app.input = "Mocha".to_string();
    app.add_item_to_menu();
    assert_eq!(app.options.len(), 7);
    assert_eq!(app.input, "Mocha");
}
