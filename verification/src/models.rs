//! The two record kinds the store persists, and the errors its
//! operations can surface.

use vstd::prelude::*;

verus! {

/// A registered account holder. Immutable once created.
#[derive(Debug)]
pub struct User {
    /// Unique, generator-produced identifier.
    pub id: String,
    /// Required display name.
    pub name: String,
    /// Optional contact address, stored as given.
    pub email: Option<String>,
    /// Server-assigned logical creation timestamp; the canonical
    /// ordering key for list reads.
    pub inserted_at: u64,
}

impl User {
    /// An owned copy, equal to `self` field by field.
    pub fn duplicate(&self) -> (r: User)
        ensures
            r == *self,
    {
        User {
            id: self.id.clone(),
            name: self.name.clone(),
            email: match &self.email {
                Some(e) => Some(e.clone()),
                None => None,
            },
            inserted_at: self.inserted_at,
        }
    }
}

/// A value transfer between two user ids. Immutable once created.
/// Neither endpoint is required to name an existing user: referential
/// integrity is an expectation of callers, not a persisted constraint.
#[derive(Debug)]
pub struct Transaction {
    /// Unique, generator-produced identifier.
    pub id: String,
    /// Id of the sending user.
    pub from_id: String,
    /// Id of the receiving user.
    pub to_id: String,
    /// Signed quantity moved; no sign or balance rule is enforced.
    pub amount: i32,
    /// Optional free text, stored as given.
    pub note: Option<String>,
    /// Server-assigned logical creation timestamp.
    pub inserted_at: u64,
}

impl Transaction {
    /// An owned copy, equal to `self` field by field.
    pub fn duplicate(&self) -> (r: Transaction)
        ensures
            r == *self,
    {
        Transaction {
            id: self.id.clone(),
            from_id: self.from_id.clone(),
            to_id: self.to_id.clone(),
            amount: self.amount,
            note: match &self.note {
                Some(n) => Some(n.clone()),
                None => None,
            },
            inserted_at: self.inserted_at,
        }
    }
}

/// Everything a store operation can fail with. Errors pass through the
/// resolver layer to the transport untranslated.
#[derive(Debug, Clone, Copy, PartialEq, Eq, Structural)]
pub enum StoreError {
    /// A lookup named an id with no matching row.
    NotFound,
    /// An insert collided with an id already present in the table.
    ConstraintViolation,
    /// The backing store could not be reached.
    StoreUnavailable,
}

} // verus!
