//! Entities of the repositories that speak to the database through hand-written SQL.

use vstd::prelude::*;
use super::id::NonZeroId;

verus! {

/// The identifier type of the entities below.
pub type SerialId = NonZeroId;

#[derive(Debug, Clone, PartialEq, Eq)]
pub struct Person {
    pub id: SerialId,
}

#[derive(Debug, Clone, Copy, PartialEq, Eq)]
pub struct Seconds {
    pub val: u64,
}

/// A moment, as the number of seconds since the Unix epoch.
#[derive(Debug, Clone, Copy, PartialEq, Eq)]
pub struct SecondsFromUnixEpoch {
    pub seconds: Seconds,
}

impl SecondsFromUnixEpoch {
    pub fn from_seconds(val: u64) -> (moment: SecondsFromUnixEpoch)
        ensures
            moment.seconds.val == val,
    {
        SecondsFromUnixEpoch { seconds: Seconds { val } }
    }
}

#[derive(Debug, Clone, PartialEq, Eq)]
pub struct Session {
    pub user_id: SerialId,
    pub metadata: String,
    pub refresh_token: String,
    pub expires_at: SecondsFromUnixEpoch,
}

#[derive(Debug, Clone, Copy, PartialEq, Eq)]
pub enum Role {
    Admin,
}

/// What an access token says of its bearer.
#[derive(Debug, Clone, PartialEq, Eq)]
pub struct Claims {
    pub user_id: SerialId,
    pub email: String,
    pub expires_at: SecondsFromUnixEpoch,
    pub role: Role,
}

#[derive(Debug, Clone, PartialEq, Eq)]
pub struct University {
    pub id: SerialId,
    pub name: String,
}

#[derive(Debug, Clone, PartialEq, Eq)]
pub struct Subdivision {
    pub id: SerialId,
    pub name: String,
    pub university: University,
}

#[derive(Debug, Clone, PartialEq, Eq)]
pub struct Tag {
    pub id: SerialId,
    pub name: String,
}

/// A tag attached to a subdivision.
#[derive(Debug, Clone, PartialEq, Eq)]
pub struct SubdivisionTag(pub Subdivision, pub Tag);

/// A person's membership in a subdivision, with the role held there.
#[derive(Debug, PartialEq, Eq)]
pub struct SubdivisionMember {
    pub id: (Subdivision, Person),
    pub role: String,
}

#[derive(Debug, Clone, PartialEq, Eq)]
pub struct HashedPassword(pub String);

#[derive(Debug, Clone, PartialEq, Eq)]
pub struct User {
    pub id: SerialId,
    pub email: String,
    pub hashed_password: HashedPassword,
    pub role: Role,
}

} // verus!
