//! The resolver layer: the five typed operations the endpoint exposes,
//! implemented against the record store. The transport adapter hands
//! each decoded operation to one of these and forwards the result or
//! error back unchanged.

use vstd::prelude::*;

use crate::id::new_id;
use crate::models::{StoreError, Transaction, User};
use crate::store::{related_newest_first, Store};

verus! {

/// `users` query: the whole users table, newest first, unfiltered and
/// unpaginated.
pub fn users(store: &Store) -> (r: Vec<User>)
    requires
        store.wf(),
    ensures
        r@.len() == store.users@.len(),
        forall|k: int| 0 <= k < r@.len() ==> r@[k] == store.users@[store.users@.len() - 1 - k],
        forall|i: int, j: int| 0 <= i <= j < r@.len() ==> r@[i].inserted_at >= r@[j].inserted_at,
{
    store.list_users()
}

/// `user` query: the user with the given id; `NotFound` surfaces to the
/// caller untranslated exactly when no such user was ever created.
pub fn user(store: &Store, user_id: &String) -> (r: Result<User, StoreError>)
    ensures
        match r {
            Ok(u) => exists|k: int|
                0 <= k < store.users@.len() && store.users@[k].id@ == user_id@ && u
                    == store.users@[k],
            Err(e) => {
                &&& e == StoreError::NotFound
                &&& forall|k: int| 0 <= k < store.users@.len() ==> store.users@[k].id@ != user_id@
            },
        },
{
    store.get_user(user_id)
}

/// `transactions` query: every transaction that names `user_id` as
/// sender or recipient, newest first; an unknown id yields an empty
/// sequence, not an error.
pub fn transactions(store: &Store, user_id: &String) -> (r: Vec<Transaction>)
    requires
        store.wf(),
    ensures
        r@ == related_newest_first(store.transactions@, user_id@),
        forall|i: int, j: int| 0 <= i <= j < r@.len() ==> r@[i].inserted_at >= r@[j].inserted_at,
{
    store.list_transactions_for_user(user_id)
}

/// `create_user` mutation: generate a fresh id, persist the user, and
/// return the persisted row, `name` and `email` stored as given. The
/// generated id is random, so success cannot be promised on every
/// store; the only failure is a collision with a stored id, which
/// leaves the store unchanged and can happen only where some stored id
/// already has the generator's 26-character shape — so on a store
/// without one (an empty store above all) success is owed.
/// `Store::insert_user` pins what happens for every id.
pub fn create_user(store: &mut Store, name: String, email: Option<String>) -> (r: Result<
    User,
    StoreError,
>)
    requires
        old(store).wf(),
    ensures
        final(store).wf(),
        final(store).transactions@ == old(store).transactions@,
        match r {
            Ok(u) => {
                &&& u.name == name
                &&& u.email == email
                &&& u.id@.len() == 26
                &&& forall|k: int|
                    0 <= k < old(store).users@.len() ==> old(store).users@[k].id@ != u.id@
                &&& forall|k: int|
                    0 <= k < old(store).users@.len() ==> old(store).users@[k].inserted_at
                        <= u.inserted_at
                &&& final(store).users@ == old(store).users@.push(u)
            },
            Err(e) => {
                &&& e == StoreError::ConstraintViolation
                &&& exists|k: int|
                    0 <= k < old(store).users@.len() && old(store).users@[k].id@.len() == 26
                &&& *final(store) == *old(store)
            },
        },
{
    let id = new_id();
    store.insert_user(id, name, email)
}

/// `create_transaction` mutation: generate a fresh id, persist the
/// transaction, and return the persisted row, every field stored as
/// given. Any combination of existing or non-existing user ids and any
/// amount is accepted: no referential, sign or balance check. As with
/// `create_user`, the only failure is an id collision, which leaves
/// the store unchanged and is possible only where some stored
/// transaction id already has the generator's 26-character shape.
pub fn create_transaction(
    store: &mut Store,
    from_id: String,
    to_id: String,
    amount: i32,
    note: Option<String>,
) -> (r: Result<Transaction, StoreError>)
    requires
        old(store).wf(),
    ensures
        final(store).wf(),
        final(store).users@ == old(store).users@,
        match r {
            Ok(t) => {
                &&& t.from_id == from_id
                &&& t.to_id == to_id
                &&& t.amount == amount
                &&& t.note == note
                &&& t.id@.len() == 26
                &&& forall|k: int|
                    0 <= k < old(store).transactions@.len() ==> old(
                        store,
                    ).transactions@[k].id@ != t.id@
                &&& forall|k: int|
                    0 <= k < old(store).transactions@.len() ==> old(
                        store,
                    ).transactions@[k].inserted_at <= t.inserted_at
                &&& final(store).transactions@ == old(store).transactions@.push(t)
            },
            Err(e) => {
                &&& e == StoreError::ConstraintViolation
                &&& exists|k: int|
                    0 <= k < old(store).transactions@.len() && old(
                        store,
                    ).transactions@[k].id@.len() == 26
                &&& *final(store) == *old(store)
            },
        },
{
    let id = new_id();
    store.insert_transaction(id, from_id, to_id, amount, note)
}

} // verus!
