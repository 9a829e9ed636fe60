//! The user records the index stores, as far as this subsystem reads
//! them: announce keys are cached per user, and administrative actions
//! are gated on the `administrator` flag.

use vstd::prelude::*;

verus! {

/// A registered user.
#[derive(Debug, Clone)]
pub struct User {
    pub user_id: i64,
    pub date_registered: String,
    pub administrator: bool,
}

/// A user's authentication record.
#[derive(Debug, Clone)]
pub struct UserAuthentication {
    pub user_id: i64,
    pub password_hash: String,
}

/// A user's public profile.
#[derive(Debug, PartialEq, Clone)]
pub struct UserProfile {
    pub user_id: i64,
    pub username: String,
    pub email: String,
    pub email_verified: bool,
    pub bio: String,
    pub avatar: String,
}

/// The compact user record most lookups return.
#[derive(Debug, Clone)]
pub struct UserCompact {
    pub user_id: i64,
    pub username: String,
    pub administrator: bool,
}

/// A user joined with their profile.
#[derive(Debug, Clone)]
pub struct UserFull {
    pub user_id: i64,
    pub date_registered: String,
    pub administrator: bool,
    pub username: String,
    pub email: String,
    pub email_verified: bool,
    pub bio: String,
    pub avatar: String,
}

/// The claims carried in a user's session token.
#[derive(Debug, Clone)]
pub struct UserClaims {
    pub user: UserCompact,
    /// Expiry as a Unix timestamp in seconds.
    pub exp: u64,
}

} // verus!
