//! The record store: table-backed storage for users and transactions,
//! with unique ids, insertion-ordered timestamps, and newest-first reads.

use vstd::prelude::*;

use crate::models::{StoreError, Transaction, User};

verus! {

/// No two users share an id.
pub open spec fn distinct_user_ids(s: Seq<User>) -> bool {
    forall|i: int, j: int| 0 <= i < j < s.len() ==> s[i].id@ != s[j].id@
}

/// No two transactions share an id.
pub open spec fn distinct_transaction_ids(s: Seq<Transaction>) -> bool {
    forall|i: int, j: int| 0 <= i < j < s.len() ==> s[i].id@ != s[j].id@
}

/// Timestamps never decrease along insertion order.
pub open spec fn users_stamped_in_order(s: Seq<User>) -> bool {
    forall|i: int, j: int| 0 <= i < j < s.len() ==> s[i].inserted_at <= s[j].inserted_at
}

/// Timestamps never decrease along insertion order.
pub open spec fn transactions_stamped_in_order(s: Seq<Transaction>) -> bool {
    forall|i: int, j: int| 0 <= i < j < s.len() ==> s[i].inserted_at <= s[j].inserted_at
}

/// Whether a transaction concerns the user id `uid`: the user is its
/// sender or its recipient.
pub open spec fn involves(t: Transaction, uid: Seq<char>) -> bool {
    t.from_id@ == uid || t.to_id@ == uid
}

/// The transactions of `txns` that involve `uid`, newest (last
/// inserted) first: what a listing for that user returns.
pub open spec fn related_newest_first(txns: Seq<Transaction>, uid: Seq<char>) -> Seq<Transaction>
    decreases txns.len(),
{
    if txns.len() == 0 {
        Seq::empty()
    } else {
        let rest = related_newest_first(txns.drop_last(), uid);
        if involves(txns.last(), uid) {
            seq![txns.last()] + rest
        } else {
            rest
        }
    }
}

/// Soundness of the listing: every entry listed for `uid` involves
/// `uid` and is a transaction of the table.
pub proof fn lemma_related_elements(txns: Seq<Transaction>, uid: Seq<char>)
    ensures
        forall|k: int|
            0 <= k < related_newest_first(txns, uid).len() ==> involves(
                #[trigger] related_newest_first(txns, uid)[k],
                uid,
            ) && txns.contains(related_newest_first(txns, uid)[k]),
    decreases txns.len(),
{
    if txns.len() > 0 {
        let rel = related_newest_first(txns, uid);
        let rest = related_newest_first(txns.drop_last(), uid);
        lemma_related_elements(txns.drop_last(), uid);
        assert forall|k: int| 0 <= k < rest.len() implies txns.contains(rest[k]) by {
            let j = choose|j: int|
                0 <= j < txns.drop_last().len() && txns.drop_last()[j] == rest[k];
            assert(txns[j] == rest[k]);
        }
        assert(txns[txns.len() - 1] == txns.last());
        if involves(txns.last(), uid) {
            assert forall|k: int|
                0 <= k < rel.len() implies involves(#[trigger] rel[k], uid) && txns.contains(
                rel[k],
            ) by {
                if k == 0 {
                    assert(rel[0] == txns.last());
                } else {
                    assert(rel[k] == rest[k - 1]);
                }
            }
        }
    }
}

/// Completeness of the listing: every transaction of the table that
/// involves `uid` appears in the listing for `uid`.
pub proof fn lemma_related_complete(txns: Seq<Transaction>, uid: Seq<char>, j: int)
    requires
        0 <= j < txns.len(),
        involves(txns[j], uid),
    ensures
        related_newest_first(txns, uid).contains(txns[j]),
    decreases txns.len(),
{
    let rel = related_newest_first(txns, uid);
    let rest = related_newest_first(txns.drop_last(), uid);
    if j == txns.len() - 1 {
        assert(txns[j] == txns.last());
        assert(rel[0] == txns.last());
    } else {
        assert(txns.drop_last()[j] == txns[j]);
        lemma_related_complete(txns.drop_last(), uid, j);
        let k = choose|k: int| 0 <= k < rest.len() && rest[k] == txns[j];
        if involves(txns.last(), uid) {
            assert(rel[k + 1] == rest[k]);
        } else {
            assert(rel[k] == rest[k]);
        }
    }
}

/// The listing never puts an older transaction before a newer one:
/// timestamps are non-increasing along it whenever the table is
/// stamped in insertion order.
pub proof fn lemma_related_sorted(txns: Seq<Transaction>, uid: Seq<char>)
    requires
        transactions_stamped_in_order(txns),
    ensures
        forall|i: int, j: int|
            0 <= i <= j < related_newest_first(txns, uid).len() ==> #[trigger] related_newest_first(
                txns,
                uid,
            )[i].inserted_at >= #[trigger] related_newest_first(txns, uid)[j].inserted_at,
    decreases txns.len(),
{
    if txns.len() > 0 {
        let rel = related_newest_first(txns, uid);
        let rest = related_newest_first(txns.drop_last(), uid);
        assert forall|a: int, b: int|
            0 <= a < b < txns.drop_last().len() implies txns.drop_last()[a].inserted_at
            <= txns.drop_last()[b].inserted_at by {
            assert(txns.drop_last()[a] == txns[a]);
            assert(txns.drop_last()[b] == txns[b]);
        }
        lemma_related_sorted(txns.drop_last(), uid);
        lemma_related_elements(txns.drop_last(), uid);
        assert forall|k: int|
            0 <= k < rest.len() implies rest[k].inserted_at <= txns.last().inserted_at by {
            let m = choose|m: int|
                0 <= m < txns.drop_last().len() && txns.drop_last()[m] == rest[k];
            assert(txns[m] == rest[k]);
            assert(txns[m].inserted_at <= txns[txns.len() - 1].inserted_at);
        }
        if involves(txns.last(), uid) {
            assert forall|i: int, j: int|
                0 <= i <= j < rel.len() implies #[trigger] rel[i].inserted_at
                >= #[trigger] rel[j].inserted_at by {
                if i == 0 {
                    if j > 0 {
                        assert(rel[j] == rest[j - 1]);
                    }
                    assert(rel[0] == txns.last());
                } else {
                    assert(rel[i] == rest[i - 1]);
                    assert(rel[j] == rest[j - 1]);
                }
            }
        }
    }
}

/// The store: both tables in insertion order, plus the logical clock
/// that stamps new rows. Reads hand rows back newest first.
pub struct Store {
    /// The users table, oldest first.
    pub users: Vec<User>,
    /// The transactions table, oldest first.
    pub transactions: Vec<Transaction>,
    /// Source of `inserted_at` stamps; at least every stamp handed out.
    pub clock: u64,
}

impl Store {
    /// The store's invariant: ids unique within each table, timestamps
    /// non-decreasing with insertion order, and no stamp ahead of the clock.
    pub open spec fn wf(self) -> bool {
        &&& distinct_user_ids(self.users@)
        &&& distinct_transaction_ids(self.transactions@)
        &&& users_stamped_in_order(self.users@)
        &&& transactions_stamped_in_order(self.transactions@)
        &&& forall|i: int| 0 <= i < self.users@.len() ==> self.users@[i].inserted_at <= self.clock
        &&& forall|i: int|
            0 <= i < self.transactions@.len() ==> self.transactions@[i].inserted_at <= self.clock
    }

    /// An empty store.
    pub fn new() -> (s: Store)
        ensures
            s.wf(),
            s.users@.len() == 0,
            s.transactions@.len() == 0,
            s.clock == 0,
    {
        Store { users: Vec::new(), transactions: Vec::new(), clock: 0 }
    }

    /// Persist a new user row. Fails with `ConstraintViolation` exactly
    /// when `id` collides with a row already in the table; otherwise the
    /// row is appended with a fresh server-assigned `inserted_at` and a
    /// copy of it is returned.
    pub fn insert_user(&mut self, id: String, name: String, email: Option<String>) -> (r: Result<
        User,
        StoreError,
    >)
        requires
            old(self).wf(),
        ensures
            final(self).wf(),
            final(self).transactions@ == old(self).transactions@,
            match r {
                Ok(u) => {
                    &&& forall|k: int|
                        0 <= k < old(self).users@.len() ==> old(self).users@[k].id@ != id@
                    &&& u == (User { id, name, email, inserted_at: old(self).clock })
                    &&& forall|k: int|
                        0 <= k < old(self).users@.len() ==> old(self).users@[k].inserted_at
                            <= u.inserted_at
                    &&& final(self).users@ == old(self).users@.push(u)
                },
                Err(e) => {
                    &&& e == StoreError::ConstraintViolation
                    &&& exists|k: int|
                        0 <= k < old(self).users@.len() && old(self).users@[k].id@ == id@
                    &&& *final(self) == *old(self)
                },
            },
    {
        let mut i: usize = 0;
        while i < self.users.len()
            invariant
                *self == *old(self),
                self.wf(),
                i <= self.users@.len(),
                forall|k: int| 0 <= k < i ==> self.users@[k].id@ != id@,
            decreases self.users@.len() - i,
        {
            if self.users[i].id == id {
                return Err(StoreError::ConstraintViolation);
            }
            i = i + 1;
        }
        let stamp = self.clock;
        if self.clock < u64::MAX {
            self.clock = self.clock + 1;
        }
        let row = User { id, name, email, inserted_at: stamp };
        let out = row.duplicate();
        self.users.push(row);
        Ok(out)
    }

    /// Persist a new transaction row. Fails with `ConstraintViolation`
    /// exactly when `id` collides with a row already in the table. The
    /// endpoints need not name existing users: no referential check is
    /// made here, by design.
    pub fn insert_transaction(
        &mut self,
        id: String,
        from_id: String,
        to_id: String,
        amount: i32,
        note: Option<String>,
    ) -> (r: Result<Transaction, StoreError>)
        requires
            old(self).wf(),
        ensures
            final(self).wf(),
            final(self).users@ == old(self).users@,
            match r {
                Ok(t) => {
                    &&& forall|k: int|
                        0 <= k < old(self).transactions@.len() ==> old(
                            self,
                        ).transactions@[k].id@ != id@
                    &&& t == (Transaction {
                        id,
                        from_id,
                        to_id,
                        amount,
                        note,
                        inserted_at: old(self).clock,
                    })
                    &&& forall|k: int|
                        0 <= k < old(self).transactions@.len() ==> old(
                            self,
                        ).transactions@[k].inserted_at <= t.inserted_at
                    &&& final(self).transactions@ == old(self).transactions@.push(t)
                },
                Err(e) => {
                    &&& e == StoreError::ConstraintViolation
                    &&& exists|k: int|
                        0 <= k < old(self).transactions@.len() && old(
                            self,
                        ).transactions@[k].id@ == id@
                    &&& *final(self) == *old(self)
                },
            },
    {
        let mut i: usize = 0;
        while i < self.transactions.len()
            invariant
                *self == *old(self),
                self.wf(),
                i <= self.transactions@.len(),
                forall|k: int| 0 <= k < i ==> self.transactions@[k].id@ != id@,
            decreases self.transactions@.len() - i,
        {
            if self.transactions[i].id == id {
                return Err(StoreError::ConstraintViolation);
            }
            i = i + 1;
        }
        let stamp = self.clock;
        if self.clock < u64::MAX {
            self.clock = self.clock + 1;
        }
        let row = Transaction { id, from_id, to_id, amount, note, inserted_at: stamp };
        let out = row.duplicate();
        self.transactions.push(row);
        Ok(out)
    }

    /// Every user, newest first: position `k` of the result is the
    /// `k`-th most recently inserted row, so timestamps never increase
    /// along the result.
    pub fn list_users(&self) -> (r: Vec<User>)
        requires
            self.wf(),
        ensures
            r@.len() == self.users@.len(),
            forall|k: int| 0 <= k < r@.len() ==> r@[k] == self.users@[self.users@.len() - 1 - k],
            forall|i: int, j: int|
                0 <= i <= j < r@.len() ==> r@[i].inserted_at >= r@[j].inserted_at,
    {
        let mut r: Vec<User> = Vec::new();
        let mut i: usize = self.users.len();
        while i > 0
            invariant
                i <= self.users@.len(),
                r@.len() == self.users@.len() - i,
                forall|k: int|
                    0 <= k < r@.len() ==> r@[k] == self.users@[self.users@.len() - 1 - k],
            decreases i,
        {
            i = i - 1;
            r.push(self.users[i].duplicate());
        }
        r
    }

    /// The user whose id matches, as an owned copy; `NotFound` exactly
    /// when no row matches.
    pub fn get_user(&self, id: &String) -> (r: Result<User, StoreError>)
        ensures
            match r {
                Ok(u) => exists|k: int|
                    0 <= k < self.users@.len() && self.users@[k].id@ == id@ && u == self.users@[k],
                Err(e) => {
                    &&& e == StoreError::NotFound
                    &&& forall|k: int| 0 <= k < self.users@.len() ==> self.users@[k].id@ != id@
                },
            },
    {
        let mut i: usize = 0;
        while i < self.users.len()
            invariant
                i <= self.users@.len(),
                forall|k: int| 0 <= k < i ==> self.users@[k].id@ != id@,
            decreases self.users@.len() - i,
        {
            if self.users[i].id == *id {
                return Ok(self.users[i].duplicate());
            }
            i = i + 1;
        }
        Err(StoreError::NotFound)
    }

    /// Every transaction whose sender or recipient is `id`, newest
    /// first; an id with no matching rows yields an empty result, not
    /// an error.
    pub fn list_transactions_for_user(&self, id: &String) -> (r: Vec<Transaction>)
        requires
            self.wf(),
        ensures
            r@ == related_newest_first(self.transactions@, id@),
            forall|i: int, j: int|
                0 <= i <= j < r@.len() ==> r@[i].inserted_at >= r@[j].inserted_at,
    {
        let mut r: Vec<Transaction> = Vec::new();
        let mut i: usize = 0;
        while i < self.transactions.len()
            invariant
                self.wf(),
                i <= self.transactions@.len(),
                r@ == related_newest_first(self.transactions@.take(i as int), id@),
            decreases self.transactions@.len() - i,
        {
            if self.transactions[i].from_id == *id || self.transactions[i].to_id == *id {
                let ghost before = r@;
                r.insert(0, self.transactions[i].duplicate());
                proof {
                    assert(r@ =~= seq![self.transactions@[i as int]] + before);
                }
            }
            proof {
                assert(self.transactions@.take(i + 1).drop_last() =~= self.transactions@.take(
                    i as int,
                ));
                assert(self.transactions@.take(i + 1).last() == self.transactions@[i as int]);
            }
            i = i + 1;
        }
        proof {
            assert(self.transactions@.take(self.transactions@.len() as int)
                =~= self.transactions@);
            lemma_related_sorted(self.transactions@, id@);
        }
        r
    }
}

} // verus!
