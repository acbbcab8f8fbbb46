//! The library's general guarantees, stated and proved over the spec
//! functions that the store and resolver contracts use.

use vstd::prelude::*;

use crate::models::{Transaction, User};
use crate::store::{
    involves, lemma_related_complete, lemma_related_elements, related_newest_first, Store,
};

verus! {

/// Ids in a well-formed store are pairwise distinct. Every successful
/// `create_user` appends the user it returns and preserves
/// well-formedness, so across any sequence of creates no two returned
/// ids are ever equal.
pub proof fn lemma_user_ids_distinct(s: Store, i: int, j: int)
    requires
        s.wf(),
        0 <= i < s.users@.len(),
        0 <= j < s.users@.len(),
        i != j,
    ensures
        s.users@[i].id@ != s.users@[j].id@,
{
}

/// Reading the listing after a create places the created user first:
/// with the users table grown by `u` at the end, any listing that
/// reverses the table (as `users` promises) starts with `u`.
pub proof fn lemma_new_user_listed_first(pre: Store, post: Store, u: User, listing: Seq<User>)
    requires
        post.users@ == pre.users@.push(u),
        listing.len() == post.users@.len(),
        forall|k: int|
            0 <= k < listing.len() ==> listing[k] == post.users@[post.users@.len() - 1 - k],
    ensures
        listing.len() > 0,
        listing[0] == u,
{
}

/// The listing for `uid` contains a transaction exactly when the table
/// contains it and `uid` is its sender or its recipient.
pub proof fn lemma_listing_membership(txns: Seq<Transaction>, uid: Seq<char>, t: Transaction)
    ensures
        related_newest_first(txns, uid).contains(t) <==> (txns.contains(t) && involves(t, uid)),
{
    lemma_related_elements(txns, uid);
    if txns.contains(t) && involves(t, uid) {
        let j = choose|j: int| 0 <= j < txns.len() && txns[j] == t;
        lemma_related_complete(txns, uid, j);
    }
    if related_newest_first(txns, uid).contains(t) {
        let k = choose|k: int|
            0 <= k < related_newest_first(txns, uid).len() && related_newest_first(txns, uid)[k]
                == t;
        assert(involves(related_newest_first(txns, uid)[k], uid));
    }
}

/// Round trip for users: after a create with a fresh id, looking that
/// id up yields exactly the created user — any lookup result meeting
/// `get_user`'s promise for `u.id` is `u` itself, name and email as
/// given at creation.
pub proof fn lemma_new_user_found(pre: Store, post: Store, u: User, found: User)
    requires
        forall|k: int| 0 <= k < pre.users@.len() ==> pre.users@[k].id@ != u.id@,
        post.users@ == pre.users@.push(u),
        exists|k: int|
            0 <= k < post.users@.len() && post.users@[k].id@ == u.id@ && found == post.users@[k],
    ensures
        found == u,
{
    let k = choose|k: int|
        0 <= k < post.users@.len() && post.users@[k].id@ == u.id@ && found == post.users@[k];
    if k < pre.users@.len() {
        assert(pre.users@[k].id@ != u.id@);
        assert(post.users@[k] == pre.users@[k]);
    } else {
        assert(post.users@[k] == u);
    }
}

/// Round trip for transactions: a newly created transaction is listed
/// first both for its sender and for its recipient — whether or not
/// either id names an existing user — with every field as given at
/// creation.
pub proof fn lemma_new_transaction_listed_first(pre: Store, post: Store, t: Transaction)
    requires
        post.transactions@ == pre.transactions@.push(t),
    ensures
        related_newest_first(post.transactions@, t.from_id@).len() > 0,
        related_newest_first(post.transactions@, t.from_id@)[0] == t,
        related_newest_first(post.transactions@, t.to_id@).len() > 0,
        related_newest_first(post.transactions@, t.to_id@)[0] == t,
{
    assert(post.transactions@.last() == t);
    assert(related_newest_first(post.transactions@, t.from_id@)[0] == t);
    assert(related_newest_first(post.transactions@, t.to_id@)[0] == t);
}

} // verus!
