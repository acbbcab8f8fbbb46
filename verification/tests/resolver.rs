use banking::models::StoreError;
use banking::resolver::{create_transaction, create_user, transactions, user, users};
use banking::store::Store;

#[test]
fn fresh_store_is_empty() {
    let store = Store::new();
    assert!(users(&store).is_empty());
    assert!(transactions(&store, &String::from("anyone")).is_empty());
}

#[test]
fn created_ids_are_distinct() {
    let mut store = Store::new();
    let a = create_user(&mut store, String::from("Alice"), None).unwrap();
    let b = create_user(&mut store, String::from("Bob"), None).unwrap();
    let c = create_user(&mut store, String::from("Carol"), None).unwrap();
    assert_ne!(a.id, b.id);
    assert_ne!(a.id, c.id);
    assert_ne!(b.id, c.id);
}

#[test]
fn generated_id_has_ulid_shape() {
    let mut store = Store::new();
    let a = create_user(&mut store, String::from("Alice"), None).unwrap();
    let b = create_user(&mut store, String::from("Bob"), None).unwrap();
    assert_eq!(a.id.len(), 26);
    assert_eq!(b.id.len(), 26);
    assert_ne!(a.id, b.id);
}

#[test]
fn users_listing_is_newest_first() {
    let mut store = Store::new();
    let a = create_user(&mut store, String::from("Alice"), None).unwrap();
    let b = create_user(&mut store, String::from("Bob"), None).unwrap();
    let listing = users(&store);
    assert_eq!(listing.len(), 2);
    assert_eq!(listing[0].id, b.id);
    assert_eq!(listing[1].id, a.id);
    assert!(listing[0].inserted_at >= listing[1].inserted_at);

    let c = create_user(&mut store, String::from("Carol"), None).unwrap();
    let listing = users(&store);
    assert_eq!(listing.len(), 3);
    assert_eq!(listing[0].id, c.id);
    for pair in listing.windows(2) {
        assert!(pair[0].inserted_at >= pair[1].inserted_at);
    }
}

#[test]
fn unknown_user_id_is_not_found() {
    let mut store = Store::new();
    create_user(&mut store, String::from("Alice"), None).unwrap();
    let r = user(&store, &String::from("no-such-id"));
    assert_eq!(r.unwrap_err(), StoreError::NotFound);
}

#[test]
fn lookup_returns_created_user() {
    let mut store = Store::new();
    let a = create_user(
        &mut store,
        String::from("Alice"),
        Some(String::from("alice@example.com")),
    )
    .unwrap();
    let found = user(&store, &a.id).unwrap();
    assert_eq!(found.id, a.id);
    assert_eq!(found.name, "Alice");
    assert_eq!(found.email.as_deref(), Some("alice@example.com"));
    assert_eq!(found.inserted_at, a.inserted_at);
}

#[test]
fn transactions_filter_by_either_endpoint() {
    let mut store = Store::new();
    let a = create_user(&mut store, String::from("Alice"), None).unwrap();
    let b = create_user(&mut store, String::from("Bob"), None).unwrap();
    let c = create_user(&mut store, String::from("Carol"), None).unwrap();
    let ab = create_transaction(&mut store, a.id.clone(), b.id.clone(), 10, None).unwrap();
    let bc = create_transaction(&mut store, b.id.clone(), c.id.clone(), 20, None).unwrap();

    let for_a = transactions(&store, &a.id);
    assert_eq!(for_a.len(), 1);
    assert_eq!(for_a[0].id, ab.id);

    let for_b = transactions(&store, &b.id);
    assert_eq!(for_b.len(), 2);
    assert_eq!(for_b[0].id, bc.id);
    assert_eq!(for_b[1].id, ab.id);

    let for_c = transactions(&store, &c.id);
    assert_eq!(for_c.len(), 1);
    assert_eq!(for_c[0].id, bc.id);
}

#[test]
fn create_round_trips_amount_note_email() {
    let mut store = Store::new();
    let a = create_user(
        &mut store,
        String::from("Alice"),
        Some(String::from("alice@example.com")),
    )
    .unwrap();
    assert_eq!(a.email.as_deref(), Some("alice@example.com"));
    let again = user(&store, &a.id).unwrap();
    assert_eq!(again.email.as_deref(), Some("alice@example.com"));

    let b = create_user(&mut store, String::from("Bob"), None).unwrap();
    let t = create_transaction(
        &mut store,
        a.id.clone(),
        b.id.clone(),
        -42,
        Some(String::from("refund")),
    )
    .unwrap();
    assert_eq!(t.amount, -42);
    assert_eq!(t.note.as_deref(), Some("refund"));
    let listed = transactions(&store, &a.id);
    assert_eq!(listed.len(), 1);
    assert_eq!(listed[0].amount, -42);
    assert_eq!(listed[0].note.as_deref(), Some("refund"));
}

#[test]
fn alice_pays_bob_rent() {
    let mut store = Store::new();

    let a = create_user(&mut store, String::from("Alice"), None).unwrap();
    assert_eq!(a.id.len(), 26);
    assert_eq!(a.name, "Alice");
    assert_eq!(a.email, None);

    let b = create_user(&mut store, String::from("Bob"), None).unwrap();

    let t = create_transaction(
        &mut store,
        a.id.clone(),
        b.id.clone(),
        500,
        Some(String::from("rent")),
    )
    .unwrap();
    assert_eq!(t.amount, 500);

    let for_a = transactions(&store, &a.id);
    let for_b = transactions(&store, &b.id);
    assert_eq!(for_a.len(), 1);
    assert_eq!(for_b.len(), 1);
    assert_eq!(for_a[0].id, t.id);
    assert_eq!(for_b[0].id, t.id);
}

#[test]
fn transaction_between_unknown_users_still_succeeds() {
    let mut store = Store::new();
    let from = String::from("nobody-sender");
    let to = String::from("nobody-recipient");
    let t = create_transaction(&mut store, from.clone(), to.clone(), 7, None).unwrap();
    assert_eq!(t.from_id, from);
    assert_eq!(t.to_id, to);
    let listed = transactions(&store, &from);
    assert_eq!(listed.len(), 1);
    assert_eq!(listed[0].id, t.id);
    let listed = transactions(&store, &to);
    assert_eq!(listed.len(), 1);
    assert_eq!(listed[0].id, t.id);
}
