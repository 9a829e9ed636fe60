//! The tracker service layer: it translates raw tracker API outcomes into
//! domain-level results and owns the announce-key caching policy.
//!
//! The HTTP transport itself lives outside this crate. A caller performs the
//! request and hands the outcome in — either an [`HttpResponse`] (status code
//! and body) or a [`TransportError`] — and the functions here decide what the
//! outcome means.

use vstd::prelude::*;
use crate::error::ServiceError;
use crate::wire;

verus! {

/// A raw tracker API response: the HTTP status code and the body text.
#[derive(Debug, Clone)]
pub struct HttpResponse {
    pub status: u16,
    pub body: String,
}

/// A transport-level failure: the request never produced an HTTP response
/// (connection refused, timeout, and the like). The service layer does not
/// read any detail out of it.
#[derive(Debug, Clone, Copy, PartialEq, Eq, Structural)]
pub struct TransportError;

/// A per-user announce credential issued by the tracker, with its expiry
/// time as a Unix timestamp in seconds.
///
/// Once issued, a key is owned by the persistence layer; the service treats
/// it as a cache entry keyed by user id and never mutates it in place.
#[derive(Debug, Clone)]
pub struct TrackerKey {
    pub key: String,
    pub valid_until: i64,
}

/// The mathematical value of a [`TrackerKey`].
#[verifier::ext_equal]
pub struct TrackerKeyView {
    pub key: Seq<char>,
    pub valid_until: int,
}

impl View for TrackerKey {
    type V = TrackerKeyView;

    open spec fn view(&self) -> TrackerKeyView {
        TrackerKeyView { key: self.key@, valid_until: self.valid_until as int }
    }
}

/// One torrent's live state as the tracker reports it. Ephemeral —
/// constructed fresh from each tracker response and never cached.
#[derive(Debug, Clone)]
pub struct TorrentInfo {
    pub info_hash: String,
    pub seeders: i64,
    pub completed: i64,
    pub leechers: i64,
    pub peers: Vec<Peer>,
}

/// One peer as the tracker reports it. Every field is optional because the
/// tracker's response shape is not fully guaranteed.
#[derive(Debug, Clone)]
pub struct Peer {
    pub peer_id: Option<PeerId>,
    pub peer_addr: Option<String>,
    pub updated: Option<i64>,
    pub uploaded: Option<i64>,
    pub downloaded: Option<i64>,
    pub left: Option<i64>,
    pub event: Option<String>,
}

/// A peer's self-reported identity.
#[derive(Debug, Clone)]
pub struct PeerId {
    pub id: Option<String>,
    pub client: Option<String>,
}

/// The mathematical value of a [`TorrentInfo`].
#[verifier::ext_equal]
pub struct TorrentInfoView {
    pub info_hash: Seq<char>,
    pub seeders: int,
    pub completed: int,
    pub leechers: int,
    pub peers: Seq<PeerView>,
}

/// The mathematical value of a [`Peer`].
#[verifier::ext_equal]
pub struct PeerView {
    pub peer_id: Option<PeerIdView>,
    pub peer_addr: Option<Seq<char>>,
    pub updated: Option<int>,
    pub uploaded: Option<int>,
    pub downloaded: Option<int>,
    pub left: Option<int>,
    pub event: Option<Seq<char>>,
}

/// The mathematical value of a [`PeerId`].
#[verifier::ext_equal]
pub struct PeerIdView {
    pub id: Option<Seq<char>>,
    pub client: Option<Seq<char>>,
}

/// The mathematical value of an optional 64-bit count.
pub open spec fn opt_int_view(x: Option<i64>) -> Option<int> {
    match x {
        Some(v) => Some(v as int),
        None => None,
    }
}

/// The mathematical value of an optional string.
pub open spec fn opt_str_view(x: Option<String>) -> Option<Seq<char>> {
    match x {
        Some(v) => Some(v@),
        None => None,
    }
}

impl View for PeerId {
    type V = PeerIdView;

    open spec fn view(&self) -> PeerIdView {
        PeerIdView { id: opt_str_view(self.id), client: opt_str_view(self.client) }
    }
}

impl View for Peer {
    type V = PeerView;

    open spec fn view(&self) -> PeerView {
        PeerView {
            peer_id: match self.peer_id {
                Some(p) => Some(p@),
                None => None,
            },
            peer_addr: opt_str_view(self.peer_addr),
            updated: opt_int_view(self.updated),
            uploaded: opt_int_view(self.uploaded),
            downloaded: opt_int_view(self.downloaded),
            left: opt_int_view(self.left),
            event: opt_str_view(self.event),
        }
    }
}

/// The mathematical value of an optional peer identity.
pub open spec fn opt_peer_id_view(x: Option<PeerId>) -> Option<PeerIdView> {
    match x {
        Some(p) => Some(p@),
        None => None,
    }
}

/// The mathematical value of a list of peers.
pub open spec fn peers_view(v: Seq<Peer>) -> Seq<PeerView> {
    v.map_values(|p: Peer| p@)
}

impl View for TorrentInfo {
    type V = TorrentInfoView;

    open spec fn view(&self) -> TorrentInfoView {
        TorrentInfoView {
            info_hash: self.info_hash@,
            seeders: self.seeders as int,
            completed: self.completed as int,
            leechers: self.leechers as int,
            peers: peers_view(self.peers@),
        }
    }
}

/// An HTTP status code in the success range.
pub open spec fn is_success_status(status: u16) -> bool {
    200 <= status < 300
}

/// The HTTP status code the tracker uses for an unknown torrent.
pub open spec fn not_found_status() -> u16 {
    404
}

/// The plaintext body some tracker versions return, with status 200, in
/// place of a 404 for an unknown torrent.
pub open spec fn not_known_sentinel() -> Seq<char> {
    "torrent not known"@
}

/// What `Service::whitelist_info_hash` returns for each transport outcome.
pub open spec fn whitelist_outcome(response: Result<HttpResponse, TransportError>) -> Result<
    (),
    ServiceError,
> {
    match response {
        Ok(resp) => if is_success_status(resp.status) {
            Ok(())
        } else {
            Err(ServiceError::WhitelistingError)
        },
        Err(_) => Err(ServiceError::TrackerOffline),
    }
}

/// What `Service::remove_info_hash_from_whitelist` returns for each
/// transport outcome.
pub open spec fn whitelist_removal_outcome(
    response: Result<HttpResponse, TransportError>,
) -> Result<(), ServiceError> {
    match response {
        Ok(resp) => if is_success_status(resp.status) {
            Ok(())
        } else {
            Err(ServiceError::InternalServerError)
        },
        Err(_) => Err(ServiceError::TrackerOffline),
    }
}

/// The personal announce URL built from the tracker's base URL and an
/// announce key: `{base}/{key}`.
pub open spec fn announce_url(base: Seq<char>, key: Seq<char>) -> Seq<char> {
    base + "/"@ + key
}

/// What `Service::get_torrent_info` returns for each transport outcome:
/// a transport failure is an internal error; a 404 status and the
/// plaintext not-known sentinel both normalize to the torrent being
/// unknown; a body outside the wire grammar is an internal error; and
/// otherwise the decoded torrent info is returned.
pub open spec fn torrent_info_outcome(response: Result<HttpResponse, TransportError>) -> Result<
    TorrentInfoView,
    ServiceError,
> {
    match response {
        Err(_) => Err(ServiceError::InternalServerError),
        Ok(resp) => if resp.status == not_found_status() {
            Err(ServiceError::TorrentNotFound)
        } else if resp.body@ == not_known_sentinel() {
            Err(ServiceError::TorrentNotFound)
        } else {
            match wire::parse_torrent_info(resp.body@) {
                Some(v) => Ok(v),
                None => Err(ServiceError::InternalServerError),
            }
        },
    }
}

/// What `Service::retrieve_new_tracker_key` returns for each transport
/// outcome: a transport failure or a body outside the wire grammar is an
/// internal error; otherwise the issued key is returned.
pub open spec fn tracker_key_outcome(response: Result<HttpResponse, TransportError>) -> Result<
    TrackerKeyView,
    ServiceError,
> {
    match response {
        Err(_) => Err(ServiceError::InternalServerError),
        Ok(resp) => match wire::parse_tracker_key(resp.body@) {
            Some(v) => Ok(v),
            None => Err(ServiceError::InternalServerError),
        },
    }
}

/// The next move in resolving a user's personal announce URL.
///
/// `get_personal_announce_url` inspects the cached key and either finishes
/// at once or instructs the caller to issue a fresh key from the tracker;
/// the issued key then goes through `finish_personal_announce_url`.
#[derive(Debug)]
pub enum AnnounceUrlStep {
    /// A cached key was found; this is the user's announce URL.
    Ready { url: String },
    /// No cached key: request a new one from the tracker with this
    /// time-to-live in seconds, persist it, then finish.
    IssueKey { ttl: u64 },
}

/// The mathematical value of an [`AnnounceUrlStep`].
#[verifier::ext_equal]
pub enum AnnounceUrlStepView {
    Ready { url: Seq<char> },
    IssueKey { ttl: u64 },
}

impl View for AnnounceUrlStep {
    type V = AnnounceUrlStepView;

    open spec fn view(&self) -> AnnounceUrlStepView {
        match self {
            AnnounceUrlStep::Ready { url } => AnnounceUrlStepView::Ready { url: url@ },
            AnnounceUrlStep::IssueKey { ttl } => AnnounceUrlStepView::IssueKey { ttl: *ttl },
        }
    }
}

/// The mathematical value of an optional cached key.
pub open spec fn opt_key_view(x: Option<TrackerKey>) -> Option<TrackerKeyView> {
    match x {
        Some(k) => Some(k@),
        None => None,
    }
}

/// What `Service::get_personal_announce_url` decides for each cache
/// lookup result: a cached key is used as it stands, and only a missing
/// key leads to an issuance, with the configured lifetime.
pub open spec fn announce_step_of(
    base: Seq<char>,
    ttl: u64,
    cached: Option<TrackerKeyView>,
) -> AnnounceUrlStepView {
    match cached {
        Some(k) => AnnounceUrlStepView::Ready { url: announce_url(base, k.key) },
        None => AnnounceUrlStepView::IssueKey { ttl },
    }
}

/// What `Service::finish_personal_announce_url` returns once the
/// issue-and-persist path came back: the URL built on the fresh key, or
/// the tracker reported offline on any failure.
pub open spec fn finish_outcome(
    base: Seq<char>,
    issued: Result<TrackerKeyView, ServiceError>,
) -> Result<Seq<char>, ServiceError> {
    match issued {
        Ok(k) => Ok(announce_url(base, k.key)),
        Err(_) => Err(ServiceError::TrackerOffline),
    }
}

/// The tracker service: holds the read-only connection settings and decides
/// what every tracker API outcome means. It keeps no durable state — the
/// persistence layer owns issued keys and torrent statistics.
#[derive(Debug, Clone)]
pub struct Service {
    pub tracker_url: String,
    pub token_valid_seconds: u64,
}

impl Service {
    /// Builds a service over the tracker's public base URL and the
    /// configured lifetime for issued announce keys.
    pub fn new(tracker_url: String, token_valid_seconds: u64) -> (s: Service)
        ensures
            s.tracker_url == tracker_url,
            s.token_valid_seconds == token_valid_seconds,
    {
        Service { tracker_url, token_valid_seconds }
    }

    /// Interprets the tracker's answer to a whitelist-add request.
    ///
    /// A transport failure means the tracker is offline; a non-success
    /// status means the tracker rejected the mutation; any success status
    /// means the hash is whitelisted. Re-whitelisting an already
    /// whitelisted hash answers with a success status, so the call is
    /// idempotent from the caller's perspective.
    pub fn whitelist_info_hash(&self, response: Result<HttpResponse, TransportError>) -> (r:
        Result<(), ServiceError>)
        ensures
            r == whitelist_outcome(response),
    {
        match response {
            Ok(resp) => {
                if 200 <= resp.status && resp.status < 300 {
                    Ok(())
                } else {
                    Err(ServiceError::WhitelistingError)
                }
            },
            Err(_) => Err(ServiceError::TrackerOffline),
        }
    }

    /// Interprets the tracker's answer to a whitelist-remove request.
    ///
    /// A transport failure means the tracker is offline, as for the add.
    /// The tracker does not distinguish "was not whitelisted" from other
    /// rejections here, so a non-success status maps to the generic
    /// internal error.
    pub fn remove_info_hash_from_whitelist(
        &self,
        response: Result<HttpResponse, TransportError>,
    ) -> (r: Result<(), ServiceError>)
        ensures
            r == whitelist_removal_outcome(response),
    {
        match response {
            Ok(resp) => {
                if 200 <= resp.status && resp.status < 300 {
                    Ok(())
                } else {
                    Err(ServiceError::InternalServerError)
                }
            },
            Err(_) => Err(ServiceError::TrackerOffline),
        }
    }

    /// Builds the personal announce URL for one key: `{base}/{key}`.
    pub fn announce_url_with_key(&self, tracker_key: &TrackerKey) -> (r: String)
        ensures
            r@ == announce_url(self.tracker_url@, tracker_key.key@),
    {
        let mut url = self.tracker_url.clone();
        url.append("/");
        url.append(tracker_key.key.as_str());
        url
    }

    /// Resolves a user's personal announce URL from the cached key the
    /// persistence layer returned for that user.
    ///
    /// A cached key is used as it stands — no fresh key is requested, and
    /// the URL is built from it at once. Only when no key is cached does
    /// the caller have to issue one, with the configured time-to-live.
    pub fn get_personal_announce_url(&self, cached: &Option<TrackerKey>) -> (r: AnnounceUrlStep)
        ensures
            r@ == announce_step_of(
                self.tracker_url@,
                self.token_valid_seconds,
                opt_key_view(*cached),
            ),
    {
        match cached {
            Some(k) => AnnounceUrlStep::Ready { url: self.announce_url_with_key(k) },
            None => AnnounceUrlStep::IssueKey { ttl: self.token_valid_seconds },
        }
    }

    /// Interprets the tracker's answer to a torrent-info request.
    ///
    /// The tracker signals an unknown torrent in two shapes — an HTTP 404,
    /// or a success status whose body is the plaintext sentinel `torrent
    /// not known` — and both normalize to the same not-found error. Any
    /// other body must be a torrent-info document in the tracker's wire
    /// format; one outside the grammar is an internal error.
    pub fn get_torrent_info(&self, response: Result<HttpResponse, TransportError>) -> (r: Result<
        TorrentInfo,
        ServiceError,
    >)
        ensures
            match torrent_info_outcome(response) {
                Ok(v) => r matches Ok(t) && t@ == v,
                Err(e) => r == Err::<TorrentInfo, ServiceError>(e),
            },
    {
        match response {
            Err(_) => Err(ServiceError::InternalServerError),
            Ok(resp) => {
                if resp.status == 404 {
                    return Err(ServiceError::TorrentNotFound);
                }
                if wire::str_matches(resp.body.as_str(), "torrent not known") {
                    return Err(ServiceError::TorrentNotFound);
                }
                match wire::decode_torrent_info(resp.body.as_str()) {
                    Some(t) => Ok(t),
                    None => Err(ServiceError::InternalServerError),
                }
            },
        }
    }

    /// Interprets the tracker's answer to an announce-key issuance
    /// request: the body must be an announce-key document in the
    /// tracker's wire format.
    ///
    /// The caller persists the returned key for the user before building
    /// the announce URL from it.
    pub fn retrieve_new_tracker_key(&self, response: Result<HttpResponse, TransportError>) -> (r:
        Result<TrackerKey, ServiceError>)
        ensures
            match tracker_key_outcome(response) {
                Ok(v) => r matches Ok(k) && k@ == v,
                Err(e) => r == Err::<TrackerKey, ServiceError>(e),
            },
    {
        match response {
            Err(_) => Err(ServiceError::InternalServerError),
            Ok(resp) => match wire::decode_tracker_key(resp.body.as_str()) {
                Some(k) => Ok(k),
                None => Err(ServiceError::InternalServerError),
            },
        }
    }

    /// Finishes the announce-URL resolution after a fresh key was issued
    /// and persisted.
    ///
    /// Any failure along the issue-and-persist path — transport, decode, or
    /// persistence — surfaces to the caller as the tracker being offline.
    pub fn finish_personal_announce_url(&self, issued: Result<TrackerKey, ServiceError>) -> (r:
        Result<String, ServiceError>)
        ensures
            match finish_outcome(
                self.tracker_url@,
                match issued {
                    Ok(k) => Ok(k@),
                    Err(e) => Err(e),
                },
            ) {
                Ok(u) => r matches Ok(url) && url@ == u,
                Err(e) => r == Err::<String, ServiceError>(e),
            },
    {
        match issued {
            Ok(k) => Ok(self.announce_url_with_key(&k)),
            Err(_) => Err(ServiceError::TrackerOffline),
        }
    }
}

/// Law: whitelisting is idempotent for the caller. Against a tracker that
/// answers every whitelist request with a success status, a repeated call
/// for the same info-hash succeeds every time — the first and every later
/// answer interpret to the same successful outcome.
pub proof fn lemma_whitelist_idempotent(first: HttpResponse, second: HttpResponse)
    requires
        is_success_status(first.status),
        is_success_status(second.status),
    ensures
        whitelist_outcome(Ok(first)) == Ok::<(), ServiceError>(()),
        whitelist_outcome(Ok(second)) == whitelist_outcome(Ok(first)),
{
}

/// Law: a cached key is reused. When the persistence layer returns a
/// cached key, the resolution finishes at once with `{base}/{key}` built
/// from that very key — no issuance step is requested, whatever the
/// configured lifetime.
pub proof fn lemma_cached_key_reused(base: Seq<char>, ttl: u64, cached: TrackerKeyView)
    ensures
        announce_step_of(base, ttl, Some(cached)) == (AnnounceUrlStepView::Ready {
            url: announce_url(base, cached.key),
        }),
{
}

/// Law: a missing key is issued. With no cached key, the resolution
/// requests exactly one issuance, with the configured lifetime; an
/// issuance answer whose body decodes to a key yields that key, and the
/// resolution then finishes with `{base}/{key}` built on it.
pub proof fn lemma_missing_key_issued(
    base: Seq<char>,
    ttl: u64,
    response: HttpResponse,
    issued: TrackerKeyView,
)
    requires
        wire::parse_tracker_key(response.body@) == Some(issued),
    ensures
        announce_step_of(base, ttl, None) == (AnnounceUrlStepView::IssueKey { ttl }),
        tracker_key_outcome(Ok(response)) == Ok::<TrackerKeyView, ServiceError>(issued),
        finish_outcome(base, Ok(issued)) == Ok::<Seq<char>, ServiceError>(
            announce_url(base, issued.key),
        ),
{
}

/// Law: the not-found answers normalize to one outcome. A 404 answer and
/// a success answer whose body is the plaintext sentinel mean the same
/// thing — the torrent is unknown — and interpret to the same error.
pub proof fn lemma_not_found_normalized(with_status: HttpResponse, with_sentinel: HttpResponse)
    requires
        with_status.status == not_found_status(),
        with_sentinel.body@ == not_known_sentinel(),
    ensures
        torrent_info_outcome(Ok(with_status)) == Err::<TorrentInfoView, ServiceError>(
            ServiceError::TorrentNotFound,
        ),
        torrent_info_outcome(Ok(with_sentinel)) == torrent_info_outcome(Ok(with_status)),
{
}

/// Law: a body outside the wire grammar is an internal error. An answer
/// that is neither a 404 nor the sentinel, and whose body does not decode
/// as torrent info, interprets to the internal error — never to a made-up
/// value and never to not-found.
pub proof fn lemma_undecodable_body_is_internal_error(response: HttpResponse)
    requires
        response.status != not_found_status(),
        response.body@ != not_known_sentinel(),
        wire::parse_torrent_info(response.body@) is None,
    ensures
        torrent_info_outcome(Ok(response)) == Err::<TorrentInfoView, ServiceError>(
            ServiceError::InternalServerError,
        ),
{
}

} // verus!
