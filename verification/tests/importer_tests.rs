use tracker_sync::error::ServiceError;
use tracker_sync::importer::{
    BatchSummary, ImportOutcome, StatsUpdate, WorkerPool, import_step, run_import_pass,
};
use tracker_sync::tracker::{HttpResponse, Service, TorrentInfo};

fn found(hash: &str, seeders: i64, leechers: i64, completed: i64) -> (
    String,
    Result<TorrentInfo, ServiceError>,
) {
    (
        String::from(hash),
        Ok(TorrentInfo {
            info_hash: String::from(hash),
            seeders,
            completed,
            leechers,
            peers: Vec::new(),
        }),
    )
}

fn failing(hash: &str) -> (String, Result<TorrentInfo, ServiceError>) {
    (String::from(hash), Err(ServiceError::TrackerOffline))
}

fn unknown(hash: &str) -> (String, Result<TorrentInfo, ServiceError>) {
    (String::from(hash), Err(ServiceError::TorrentNotFound))
}

#[test]
fn import_step_persists_reported_counts_under_requested_hash() {
    let lookup = Ok(TorrentInfo {
        info_hash: String::from("reported"),
        seeders: 7,
        completed: 3,
        leechers: 1,
        peers: Vec::new(),
    });
    match import_step("requested", &lookup) {
        ImportOutcome::Updated(u) => {
            assert_eq!(u.info_hash, "requested");
            assert_eq!(u.seeders, 7);
            assert_eq!(u.leechers, 1);
            assert_eq!(u.completed, 3);
        }
        _ => panic!("a successful lookup must yield an update"),
    }
}

#[test]
fn import_step_skips_unknown_and_records_failures() {
    let not_found: Result<TorrentInfo, ServiceError> = Err(ServiceError::TorrentNotFound);
    assert!(matches!(import_step("h", &not_found), ImportOutcome::NotFoundOnTracker));
    let offline: Result<TorrentInfo, ServiceError> = Err(ServiceError::TrackerOffline);
    match import_step("h", &offline) {
        ImportOutcome::Failed(e) => assert_eq!(e, ServiceError::TrackerOffline),
        _ => panic!("an offline tracker is a recorded failure"),
    }
}

#[test]
fn summary_counts_every_outcome_once() {
    let mut summary = BatchSummary::new();
    summary.record(&ImportOutcome::NotFoundOnTracker);
    summary.record(&ImportOutcome::Failed(ServiceError::InternalServerError));
    summary.record(&ImportOutcome::Updated(StatsUpdate {
        info_hash: String::from("h"),
        seeders: 0,
        leechers: 0,
        completed: 0,
    }));
    assert_eq!(summary, BatchSummary { attempted: 3, updated: 1, skipped: 1, failed: 1 });
}

#[test]
fn failed_lookups_do_not_disturb_the_rest_of_the_pass() {
    let lookups = vec![
        found("t1", 1, 0, 0),
        failing("t2"),
        unknown("t3"),
        found("t4", 4, 0, 0),
        failing("t5"),
        found("t6", 6, 0, 0),
    ];
    let (updates, summary) = run_import_pass(&lookups);
    assert_eq!(summary, BatchSummary { attempted: 6, updated: 3, skipped: 1, failed: 2 });
    assert_eq!(updates.len(), 3);
    assert_eq!(updates[0].info_hash, "t1");
    assert_eq!(updates[1].info_hash, "t4");
    assert_eq!(updates[2].info_hash, "t6");
    assert_eq!(updates[0].seeders, 1);
    assert_eq!(updates[1].seeders, 4);
    assert_eq!(updates[2].seeders, 6);
}

#[test]
fn one_pass_brings_the_store_in_line_with_the_tracker() {
    // A tiny persistence stand-in: stored counts per info-hash.
    let mut store: Vec<(String, i64, i64, i64)> = vec![(String::from("abc123"), 0, 0, 0)];
    let service = Service::new(String::from("https://tracker:7070"), 60);
    let body = "{\"info_hash\":\"abc123\",\"seeders\":5,\"completed\":10,\"leechers\":2,\"peers\":[]}";
    let lookup = service.get_torrent_info(Ok(HttpResponse {
        status: 200,
        body: String::from(body),
    }));
    let lookups = vec![(String::from("abc123"), lookup)];
    let (updates, summary) = run_import_pass(&lookups);
    assert_eq!(summary, BatchSummary { attempted: 1, updated: 1, skipped: 0, failed: 0 });
    for u in &updates {
        for entry in store.iter_mut() {
            if entry.0 == u.info_hash {
                entry.1 = u.seeders;
                entry.2 = u.leechers;
                entry.3 = u.completed;
            }
        }
    }
    assert_eq!(store[0], (String::from("abc123"), 5, 2, 10));
}

#[test]
fn worker_pool_never_exceeds_its_limit() {
    let mut pool = WorkerPool::new(3);
    assert_eq!(pool.in_flight(), 0);
    assert!(pool.try_acquire());
    assert!(pool.try_acquire());
    assert!(pool.try_acquire());
    assert_eq!(pool.in_flight(), 3);
    assert!(!pool.try_acquire());
    assert_eq!(pool.in_flight(), 3);
    pool.release();
    assert_eq!(pool.in_flight(), 2);
    assert!(pool.try_acquire());
    assert!(!pool.try_acquire());
}

#[test]
fn worker_pool_with_zero_limit_admits_nothing() {
    let mut pool = WorkerPool::new(0);
    assert!(!pool.try_acquire());
}
