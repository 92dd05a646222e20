use entities::{
    AccountState, Date, DynMap, Email, ExtValue, Extended, Id, InscriptionDate, Name, Order,
    Product, ProductEndDate, ProductName, User,
};

fn product(label: &str) -> Product {
    Product::new(ProductName(Name(label.to_string())), None)
}

fn version_of(id: &Id) -> u128 {
    (id.0 >> 76) & 0xf
}

fn variant_of(id: &Id) -> u128 {
    (id.0 >> 62) & 0x3
}

#[test]
fn set_id_moves_every_order_to_the_new_id() {
    let mut u = User::new(Name("Ada".to_string()), Email("ada@example.org".to_string()));
    u.place_order(product("lamp"));
    u.place_order(product("desk"));
    let old = *u.id();
    assert!(u.order_list().iter().all(|o| o.from_user_id == old));
    let new = Id::new();
    u.set_id(new);
    assert_eq!(u.id(), &new);
    assert_eq!(u.order_list().len(), 2);
    assert!(u.order_list().iter().all(|o| o.from_user_id == new));
    assert!(u.order_list().iter().all(|o| o.from_user_id != old));
    assert_eq!(u.order_list()[0].product.product_name.0.as_str(), "lamp");
    assert_eq!(u.order_list()[1].product.product_name.0.as_str(), "desk");
}

#[test]
fn set_id_without_orders() {
    let mut u = User::new(Name("Ada".to_string()), Email("ada@example.org".to_string()));
    let new = Id(0x0123_4567_89ab_7def_8123_4567_89ab_cdef);
    u.set_id(new);
    assert_eq!(u.get_id(), &new);
    assert!(u.order_list().is_empty());
}

#[test]
fn products_built_in_turn_differ() {
    let first = product("lamp");
    let second = product("lamp");
    assert_ne!(first.id, second.id);
    assert!(first.id < second.id);
    assert!(first.introduction_date <= second.introduction_date);
    assert_eq!(first.product_name, second.product_name);
}

#[test]
fn product_keeps_name_and_end_date() {
    let end = ProductEndDate(Date(1_700_000_000_000_000_000));
    let p = Product::new(ProductName(Name("chair".to_string())), Some(end));
    assert_eq!(p.product_name.0.as_str(), "chair");
    assert_eq!(p.end_date, Some(end));
}

#[test]
fn order_round_trip() {
    let p = product("lamp");
    let user = Id::new();
    let o = Order::new(user, p.clone());
    assert_eq!(o.from_user_id, user);
    assert_eq!(o.product, p);
    assert_ne!(o.id, p.id);
}

#[test]
fn fresh_ids_are_version_seven() {
    let id = Id::new();
    assert_eq!(version_of(&id), 7);
    assert_eq!(variant_of(&id), 2);
    assert_ne!(Id::new(), Id::new());
    let d: Id = Default::default();
    assert_eq!(version_of(&d), 7);
}

#[test]
fn clock_reads_after_2020() {
    let now = Date::now();
    assert!(now.nanosecond() > 1_577_836_800_000_000_000);
    let d = InscriptionDate::new();
    assert!(d.0 >= now);
}

#[test]
fn account_state_transitions() {
    let mut u = User::new(Name("Ada".to_string()), Email("ada@example.org".to_string()));
    u.set_account_state(AccountState::Dormant);
    assert_eq!(u.get_account_state(), &AccountState::Dormant);
    u.delete_account();
    assert_eq!(u.get_account_state(), &AccountState::Deleted);
    u.set_email(Email("new@example.org".to_string()));
    assert_eq!(u.get_email().as_str(), "new@example.org");
    let d = InscriptionDate(Date(42));
    u.set_inscription_date(d);
    assert_eq!(u.get_inscription_date(), &d);
}

#[test]
fn dyn_map_set_get_replace() {
    let mut m = DynMap::new();
    assert!(m.get("age").is_none());
    m.set("age".to_string(), ExtValue::Count(41));
    m.set("nick".to_string(), ExtValue::Text("ada".to_string()));
    assert_eq!(m.get_count("age"), Some(41));
    assert_eq!(m.get_text("nick").map(|s| s.as_str()), Some("ada"));
    m.set("age".to_string(), ExtValue::Count(42));
    assert_eq!(m.get_count("age"), Some(42));
    assert_eq!(m.get("age"), Some(&ExtValue::Count(42)));
}

#[test]
fn dyn_map_typed_read_of_other_type_is_none() {
    let mut m = DynMap::new();
    m.set("flag".to_string(), ExtValue::Flag(true));
    m.set("bytes".to_string(), ExtValue::Bytes(vec![1, 2]));
    m.set("temp".to_string(), ExtValue::Int(-3));
    assert_eq!(m.get_flag("flag"), Some(true));
    assert_eq!(m.get_int("flag"), None);
    assert_eq!(m.get_text("bytes"), None);
    assert_eq!(m.get_bytes("bytes"), Some(&vec![1, 2]));
    assert_eq!(m.get_int("temp"), Some(-3));
    assert_eq!(m.get_count("temp"), None);
    assert_eq!(m.get_flag("missing"), None);
}

#[test]
fn user_extension_slot() {
    let mut u = User::new(Name("Ada".to_string()), Email("ada@example.org".to_string()));
    assert!(u.extended_content().get("theme").is_none());
    u.extended_content_mut().set("theme".to_string(), ExtValue::Text("dark".to_string()));
    assert_eq!(u.extended_content().get_text("theme").map(|s| s.as_str()), Some("dark"));
}

#[test]
fn names_compare_by_text() {
    assert_eq!(Name("a".to_string()), Name("a".to_string()));
    assert_ne!(Email("a@x".to_string()), Email("b@x".to_string()));
    assert!(Name("a".to_string()) < Name("b".to_string()));
}
