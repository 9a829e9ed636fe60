//! The error taxonomy exposed by the tracker service layer.

use vstd::prelude::*;

verus! {

/// Domain-level failure kinds for tracker operations.
///
/// The service layer normalizes raw transport and HTTP detail into exactly
/// these kinds; callers never see tracker-specific quirks.
#[derive(Debug, Clone, Copy, PartialEq, Eq, Structural)]
pub enum ServiceError {
    /// The tracker could not be reached at the transport level.
    TrackerOffline,
    /// The tracker was reachable but rejected a whitelist mutation.
    WhitelistingError,
    /// The tracker has no record for the requested info-hash.
    TorrentNotFound,
    /// An unexpected response shape, a decode failure, or another
    /// unclassified failure.
    InternalServerError,
    /// The persistence layer failed.
    DatabaseError,
}

impl ServiceError {
    /// A short stable name for the error kind, for logs and messages.
    pub fn as_text(&self) -> (r: &'static str)
        ensures
            r@ == self.text_spec(),
    {
        match self {
            ServiceError::TrackerOffline => "tracker offline",
            ServiceError::WhitelistingError => "whitelisting error",
            ServiceError::TorrentNotFound => "torrent not found",
            ServiceError::InternalServerError => "internal server error",
            ServiceError::DatabaseError => "database error",
        }
    }

    /// What `as_text` returns for each kind.
    pub open spec fn text_spec(&self) -> Seq<char> {
        match self {
            ServiceError::TrackerOffline => "tracker offline"@,
            ServiceError::WhitelistingError => "whitelisting error"@,
            ServiceError::TorrentNotFound => "torrent not found"@,
            ServiceError::InternalServerError => "internal server error"@,
            ServiceError::DatabaseError => "database error"@,
        }
    }
}

} // verus!
