use tracker_sync::error::ServiceError;
use tracker_sync::tracker::{
    AnnounceUrlStep, HttpResponse, Service, TrackerKey, TransportError,
};
use tracker_sync::wire::{decode_torrent_info, decode_tracker_key};

fn service() -> Service {
    Service::new(String::from("https://tracker:7070"), 7200)
}

fn ok_response(status: u16, body: &str) -> Result<HttpResponse, TransportError> {
    Ok(HttpResponse { status, body: String::from(body) })
}

#[test]
fn whitelist_succeeds_twice_against_accepting_tracker() {
    let s = service();
    let first = s.whitelist_info_hash(ok_response(200, ""));
    let second = s.whitelist_info_hash(ok_response(200, ""));
    assert_eq!(first, Ok(()));
    assert_eq!(second, Ok(()));
}

#[test]
fn whitelist_transport_failure_is_tracker_offline() {
    let s = service();
    let r = s.whitelist_info_hash(Err(TransportError));
    assert_eq!(r, Err(ServiceError::TrackerOffline));
}

#[test]
fn whitelist_rejection_is_whitelisting_error() {
    let s = service();
    let r = s.whitelist_info_hash(ok_response(500, "boom"));
    assert_eq!(r, Err(ServiceError::WhitelistingError));
}

#[test]
fn whitelist_removal_distinguishes_offline_from_rejection() {
    let s = service();
    assert_eq!(s.remove_info_hash_from_whitelist(ok_response(204, "")), Ok(()));
    assert_eq!(
        s.remove_info_hash_from_whitelist(ok_response(500, "")),
        Err(ServiceError::InternalServerError)
    );
    assert_eq!(
        s.remove_info_hash_from_whitelist(Err(TransportError)),
        Err(ServiceError::TrackerOffline)
    );
}

#[test]
fn cached_key_is_used_without_issuance() {
    let s = service();
    let cached = Some(TrackerKey { key: String::from("cachedkey"), valid_until: 999 });
    match s.get_personal_announce_url(&cached) {
        AnnounceUrlStep::Ready { url } => {
            assert_eq!(url, "https://tracker:7070/cachedkey");
        }
        AnnounceUrlStep::IssueKey { .. } => panic!("a cached key must be reused"),
    }
}

#[test]
fn missing_key_requests_issuance_with_configured_ttl() {
    let s = service();
    match s.get_personal_announce_url(&None) {
        AnnounceUrlStep::Ready { .. } => panic!("no key was cached"),
        AnnounceUrlStep::IssueKey { ttl } => assert_eq!(ttl, 7200),
    }
}

#[test]
fn issued_key_is_decoded_and_finishes_the_url() {
    let s = service();
    let issued = s.retrieve_new_tracker_key(ok_response(
        200,
        "{\"key\":\"freshkey\",\"valid_until\":1700000000}",
    ));
    let key = issued.expect("a well-formed key document decodes");
    assert_eq!(key.key, "freshkey");
    assert_eq!(key.valid_until, 1_700_000_000);
    let url = s.finish_personal_announce_url(Ok(key));
    assert_eq!(url, Ok(String::from("https://tracker:7070/freshkey")));
}

#[test]
fn issuance_failure_surfaces_as_tracker_offline() {
    let s = service();
    let r = s.finish_personal_announce_url(Err(ServiceError::InternalServerError));
    assert_eq!(r, Err(ServiceError::TrackerOffline));
    let r = s.finish_personal_announce_url(Err(ServiceError::DatabaseError));
    assert_eq!(r, Err(ServiceError::TrackerOffline));
}

#[test]
fn malformed_key_body_is_internal_error() {
    let s = service();
    let r = s.retrieve_new_tracker_key(ok_response(200, "no key here"));
    assert!(matches!(r, Err(ServiceError::InternalServerError)));
    let r = s.retrieve_new_tracker_key(Err(TransportError));
    assert!(matches!(r, Err(ServiceError::InternalServerError)));
}

#[test]
fn http_404_is_torrent_not_found() {
    let s = service();
    let r = s.get_torrent_info(ok_response(404, ""));
    assert!(matches!(r, Err(ServiceError::TorrentNotFound)));
}

#[test]
fn sentinel_body_normalizes_to_torrent_not_found() {
    let s = service();
    let r = s.get_torrent_info(ok_response(200, "torrent not known"));
    assert!(matches!(r, Err(ServiceError::TorrentNotFound)));
}

#[test]
fn undecodable_body_is_internal_error() {
    let s = service();
    let r = s.get_torrent_info(ok_response(200, "{\"unexpected\":true}"));
    assert!(matches!(r, Err(ServiceError::InternalServerError)));
    let r = s.get_torrent_info(Err(TransportError));
    assert!(matches!(r, Err(ServiceError::InternalServerError)));
}

#[test]
fn well_formed_torrent_info_decodes() {
    let s = service();
    let body = "{\"info_hash\":\"abc123\",\"seeders\":5,\"completed\":10,\"leechers\":2,\"peers\":[]}";
    let info = s.get_torrent_info(ok_response(200, body)).expect("decodes");
    assert_eq!(info.info_hash, "abc123");
    assert_eq!(info.seeders, 5);
    assert_eq!(info.completed, 10);
    assert_eq!(info.leechers, 2);
    assert!(info.peers.is_empty());
}

#[test]
fn torrent_info_with_peers_decodes() {
    let body = "{\"info_hash\":\"deadbeef\",\"seeders\":1,\"completed\":0,\"leechers\":-1,\"peers\":[{\"peer_id\":{\"id\":\"-qB4500-x\",\"client\":\"qBittorrent\"},\"peer_addr\":\"10.0.0.1:6881\",\"updated\":120,\"uploaded\":1024,\"downloaded\":2048,\"left\":0,\"event\":\"started\"},{\"peer_id\":null,\"peer_addr\":null,\"updated\":null,\"uploaded\":null,\"downloaded\":null,\"left\":null,\"event\":null}]}";
    let info = decode_torrent_info(body).expect("decodes");
    assert_eq!(info.info_hash, "deadbeef");
    assert_eq!(info.leechers, -1);
    assert_eq!(info.peers.len(), 2);
    let first = &info.peers[0];
    let id = first.peer_id.as_ref().expect("has a peer id");
    assert_eq!(id.id.as_deref(), Some("-qB4500-x"));
    assert_eq!(id.client.as_deref(), Some("qBittorrent"));
    assert_eq!(first.peer_addr.as_deref(), Some("10.0.0.1:6881"));
    assert_eq!(first.updated, Some(120));
    assert_eq!(first.uploaded, Some(1024));
    assert_eq!(first.downloaded, Some(2048));
    assert_eq!(first.left, Some(0));
    assert_eq!(first.event.as_deref(), Some("started"));
    let second = &info.peers[1];
    assert!(second.peer_id.is_none());
    assert!(second.peer_addr.is_none());
    assert!(second.updated.is_none());
    assert!(second.event.is_none());
}

#[test]
fn decoder_rejects_bodies_outside_the_grammar() {
    assert!(decode_torrent_info("").is_none());
    assert!(decode_torrent_info("torrent not known").is_none());
    assert!(decode_torrent_info("{\"info_hash\":\"a\"}").is_none());
    // Padding whitespace is outside the canonical encoding.
    assert!(decode_torrent_info(
        "{\"info_hash\": \"a\",\"seeders\":0,\"completed\":0,\"leechers\":0,\"peers\":[]}"
    )
    .is_none());
    // Trailing text after the document.
    assert!(decode_torrent_info(
        "{\"info_hash\":\"a\",\"seeders\":0,\"completed\":0,\"leechers\":0,\"peers\":[]} "
    )
    .is_none());
    // An escape sequence in a string.
    assert!(decode_torrent_info(
        "{\"info_hash\":\"a\\\"b\",\"seeders\":0,\"completed\":0,\"leechers\":0,\"peers\":[]}"
    )
    .is_none());
    // A leading zero is outside the JSON number grammar.
    assert!(decode_torrent_info(
        "{\"info_hash\":\"a\",\"seeders\":05,\"completed\":0,\"leechers\":0,\"peers\":[]}"
    )
    .is_none());
    assert!(decode_torrent_info(
        "{\"info_hash\":\"a\",\"seeders\":-05,\"completed\":0,\"leechers\":0,\"peers\":[]}"
    )
    .is_none());
    // A count outside the 64-bit signed range.
    assert!(decode_torrent_info(
        "{\"info_hash\":\"a\",\"seeders\":9223372036854775808,\"completed\":0,\"leechers\":0,\"peers\":[]}"
    )
    .is_none());
    // The largest representable count is still accepted.
    let info = decode_torrent_info(
        "{\"info_hash\":\"a\",\"seeders\":9223372036854775807,\"completed\":0,\"leechers\":0,\"peers\":[]}"
    )
    .expect("decodes");
    assert_eq!(info.seeders, i64::MAX);
}

#[test]
fn key_decoder_round_trips_the_fields() {
    let key = decode_tracker_key("{\"key\":\"k\",\"valid_until\":0}").expect("decodes");
    assert_eq!(key.key, "k");
    assert_eq!(key.valid_until, 0);
    assert!(decode_tracker_key("{\"key\":\"k\"}").is_none());
    assert!(decode_tracker_key("{\"key\":\"k\",\"valid_until\":-5}").is_some());
}

#[test]
fn error_kinds_have_stable_names() {
    assert_eq!(ServiceError::TrackerOffline.as_text(), "tracker offline");
    assert_eq!(ServiceError::TorrentNotFound.as_text(), "torrent not found");
}
