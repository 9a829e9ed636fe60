//! Bookkeeping for the batch statistics importer.
//!
//! One import pass walks the whole torrent catalog, asks the tracker for
//! each torrent's live statistics, and writes updated counts back for the
//! torrents the tracker knows. A torrent the tracker has no record of is
//! skipped, and any other per-torrent failure is recorded and isolated: it
//! never aborts the pass. The driver that performs the lookups and the
//! writes lives outside this crate; the decisions — what each lookup
//! outcome means, what gets written, and the aggregate summary — are made
//! and proved here.

use vstd::prelude::*;
use crate::error::ServiceError;
use crate::tracker::TorrentInfo;

verus! {

/// The counts written back for one torrent after a successful lookup.
#[derive(Debug, Clone)]
pub struct StatsUpdate {
    pub info_hash: String,
    pub seeders: i64,
    pub leechers: i64,
    pub completed: i64,
}

/// The mathematical value of a [`StatsUpdate`].
#[verifier::ext_equal]
pub struct StatsUpdateView {
    pub info_hash: Seq<char>,
    pub seeders: int,
    pub leechers: int,
    pub completed: int,
}

impl View for StatsUpdate {
    type V = StatsUpdateView;

    open spec fn view(&self) -> StatsUpdateView {
        StatsUpdateView {
            info_hash: self.info_hash@,
            seeders: self.seeders as int,
            leechers: self.leechers as int,
            completed: self.completed as int,
        }
    }
}

/// The per-torrent result of one import step.
#[derive(Debug, Clone)]
pub enum ImportOutcome {
    /// The tracker knows the torrent; these counts are to be persisted.
    Updated(StatsUpdate),
    /// The tracker has no record for the torrent; its stored counts stay
    /// untouched. Not an error — many catalog entries have no active
    /// tracker record.
    NotFoundOnTracker,
    /// The lookup failed; recorded, and the pass continues.
    Failed(ServiceError),
}

/// The outcome records an update to persist.
pub open spec fn is_updated(o: ImportOutcome) -> bool {
    o matches ImportOutcome::Updated(_)
}

/// The outcome records a skipped, tracker-unknown torrent.
pub open spec fn is_skipped(o: ImportOutcome) -> bool {
    o is NotFoundOnTracker
}

/// The outcome records a per-torrent failure.
pub open spec fn is_failed(o: ImportOutcome) -> bool {
    o matches ImportOutcome::Failed(_)
}

/// How many elements of `s` satisfy `pred`.
pub open spec fn count_matching<T>(s: Seq<T>, pred: spec_fn(T) -> bool) -> int
    decreases s.len(),
{
    if s.len() == 0 {
        0
    } else {
        count_matching(s.drop_last(), pred) + if pred(s.last()) {
            1int
        } else {
            0int
        }
    }
}

/// The update one successful lookup yields: the requested info-hash with
/// the counts the tracker reported.
pub open spec fn update_of(info_hash: Seq<char>, info: TorrentInfo) -> StatsUpdateView {
    StatsUpdateView {
        info_hash: info_hash,
        seeders: info.seeders as int,
        leechers: info.leechers as int,
        completed: info.completed as int,
    }
}

/// Decides what one torrent's lookup outcome means for the pass.
///
/// A successful lookup yields the counts to persist under the requested
/// info-hash; a not-found answer skips the torrent; every other error is
/// recorded as a per-torrent failure.
pub fn import_step(info_hash: &str, lookup: &Result<TorrentInfo, ServiceError>) -> (r:
    ImportOutcome)
    ensures
        *lookup matches Ok(info) ==> r matches ImportOutcome::Updated(u) && u@ == update_of(
            info_hash@,
            info,
        ),
        *lookup == Err::<TorrentInfo, ServiceError>(ServiceError::TorrentNotFound) ==> r
            is NotFoundOnTracker,
        *lookup is Err && (*lookup)->Err_0 != ServiceError::TorrentNotFound ==> (r matches
            ImportOutcome::Failed(f) && f == (*lookup)->Err_0),
{
    match lookup {
        Ok(info) => ImportOutcome::Updated(
            StatsUpdate {
                info_hash: String::from_str(info_hash),
                seeders: info.seeders,
                leechers: info.leechers,
                completed: info.completed,
            },
        ),
        Err(ServiceError::TorrentNotFound) => ImportOutcome::NotFoundOnTracker,
        Err(e) => ImportOutcome::Failed(*e),
    }
}

/// The aggregate summary of one import pass.
#[derive(Debug, Clone, Copy, PartialEq, Eq, Structural)]
pub struct BatchSummary {
    pub attempted: u64,
    pub updated: u64,
    pub skipped: u64,
    pub failed: u64,
}

impl BatchSummary {
    /// Every torrent attempted was either updated, skipped, or failed.
    pub open spec fn wf(self) -> bool {
        self.attempted == self.updated + self.skipped + self.failed
    }

    /// An empty summary, before any torrent was attempted.
    pub fn new() -> (s: BatchSummary)
        ensures
            s.wf(),
            s == (BatchSummary { attempted: 0, updated: 0, skipped: 0, failed: 0 }),
    {
        BatchSummary { attempted: 0, updated: 0, skipped: 0, failed: 0 }
    }

    /// Records one per-torrent outcome in the summary.
    pub fn record(&mut self, outcome: &ImportOutcome)
        requires
            old(self).wf(),
            old(self).attempted < u64::MAX,
        ensures
            final(self).wf(),
            final(self).attempted == old(self).attempted + 1,
            final(self).updated == old(self).updated + if is_updated(*outcome) {
                1int
            } else {
                0int
            },
            final(self).skipped == old(self).skipped + if is_skipped(*outcome) {
                1int
            } else {
                0int
            },
            final(self).failed == old(self).failed + if is_failed(*outcome) {
                1int
            } else {
                0int
            },
    {
        match outcome {
            ImportOutcome::Updated(_) => {
                self.updated = self.updated + 1;
            },
            ImportOutcome::NotFoundOnTracker => {
                self.skipped = self.skipped + 1;
            },
            ImportOutcome::Failed(_) => {
                self.failed = self.failed + 1;
            },
        }
        self.attempted = self.attempted + 1;
    }
}

/// One catalog entry's lookup came back with the torrent's live info.
pub open spec fn lookup_is_ok(p: (String, Result<TorrentInfo, ServiceError>)) -> bool {
    p.1 is Ok
}

/// One catalog entry's lookup reported the torrent unknown to the tracker.
pub open spec fn lookup_is_not_found(p: (String, Result<TorrentInfo, ServiceError>)) -> bool {
    p.1 == Err::<TorrentInfo, ServiceError>(ServiceError::TorrentNotFound)
}

/// One catalog entry's lookup failed with some other error.
pub open spec fn lookup_is_failure(p: (String, Result<TorrentInfo, ServiceError>)) -> bool {
    p.1 matches Err(e) && e != ServiceError::TorrentNotFound
}

/// The updates a pass persists: one per successful lookup, in catalog
/// order, each carrying the requested info-hash and the reported counts.
pub open spec fn updates_of(s: Seq<(String, Result<TorrentInfo, ServiceError>)>) -> Seq<
    StatsUpdateView,
>
    decreases s.len(),
{
    if s.len() == 0 {
        Seq::empty()
    } else {
        updates_of(s.drop_last()) + match s.last().1 {
            Ok(info) => seq![update_of(s.last().0@, info)],
            Err(_) => Seq::<StatsUpdateView>::empty(),
        }
    }
}

/// The mathematical value of a list of updates.
pub open spec fn updates_view(v: Seq<StatsUpdate>) -> Seq<StatsUpdateView> {
    v.map_values(|u: StatsUpdate| u@)
}

/// Runs one whole import pass over the looked-up catalog.
///
/// Every entry is attempted; a failure for one torrent never disturbs the
/// updates of the others. The returned updates are exactly those of the
/// successful lookups, in catalog order, and the summary accounts for
/// every entry: updated, skipped and failed counts partition the catalog.
pub fn run_import_pass(lookups: &Vec<(String, Result<TorrentInfo, ServiceError>)>) -> (r: (
    Vec<StatsUpdate>,
    BatchSummary,
))
    ensures
        r.1.wf(),
        r.1.attempted == lookups@.len(),
        r.1.updated == count_matching(lookups@, |p| lookup_is_ok(p)),
        r.1.skipped == count_matching(lookups@, |p| lookup_is_not_found(p)),
        r.1.failed == count_matching(lookups@, |p| lookup_is_failure(p)),
        updates_view(r.0@) == updates_of(lookups@),
{
    let mut updates: Vec<StatsUpdate> = Vec::new();
    let mut summary = BatchSummary::new();
    let mut k: usize = 0;
    while k < lookups.len()
        invariant
            k <= lookups@.len(),
            summary.wf(),
            summary.attempted == k,
            summary.updated == count_matching(lookups@.take(k as int), |p| lookup_is_ok(p)),
            summary.skipped == count_matching(lookups@.take(k as int), |p| lookup_is_not_found(p)),
            summary.failed == count_matching(lookups@.take(k as int), |p| lookup_is_failure(p)),
            updates_view(updates@) == updates_of(lookups@.take(k as int)),
        decreases lookups@.len() - k,
    {
        let entry = &lookups[k];
        let outcome = import_step(entry.0.as_str(), &entry.1);
        proof {
            assert(lookups@.take(k as int + 1).drop_last() =~= lookups@.take(k as int));
            assert(lookups@.take(k as int + 1).last() == lookups@[k as int]);
        }
        summary.record(&outcome);
        match outcome {
            ImportOutcome::Updated(u) => {
                let ghost prior = updates@;
                let ghost uv = u@;
                updates.push(u);
                proof {
                    assert(updates_view(updates@) =~= updates_view(prior).push(uv));
                    assert(updates_view(updates@) =~= updates_of(lookups@.take(k as int + 1)));
                }
            },
            _ => {
                proof {
                    assert(updates_view(updates@) =~= updates_of(lookups@.take(k as int + 1)));
                }
            },
        }
        k = k + 1;
    }
    proof {
        assert(lookups@.take(lookups@.len() as int) =~= lookups@);
    }
    (updates, summary)
}

/// A bounded pool of in-flight tracker lookups.
///
/// The importer fans its lookups out under a concurrency limit so the
/// tracker is never flooded. The driver acquires a slot before starting a
/// lookup and releases it when the lookup finishes; the pool's
/// well-formedness keeps the number of in-flight lookups at or under the
/// limit in every reachable state.
#[derive(Debug, Clone, Copy)]
pub struct WorkerPool {
    limit: usize,
    in_flight: usize,
}

impl WorkerPool {
    /// The configured concurrency limit.
    pub closed spec fn limit_spec(self) -> int {
        self.limit as int
    }

    /// How many lookups hold a slot right now.
    pub closed spec fn in_flight_spec(self) -> int {
        self.in_flight as int
    }

    /// No more slots are held than the limit allows.
    pub open spec fn wf(self) -> bool {
        0 <= self.in_flight_spec() <= self.limit_spec()
    }

    /// A fresh pool with the given concurrency limit and no slot held.
    pub fn new(limit: usize) -> (p: WorkerPool)
        ensures
            p.wf(),
            p.limit_spec() == limit,
            p.in_flight_spec() == 0,
    {
        WorkerPool { limit, in_flight: 0 }
    }

    /// Takes a slot for one lookup, unless the pool is at its limit.
    pub fn try_acquire(&mut self) -> (ok: bool)
        requires
            old(self).wf(),
        ensures
            final(self).wf(),
            final(self).limit_spec() == old(self).limit_spec(),
            ok ==> old(self).in_flight_spec() < old(self).limit_spec()
                && final(self).in_flight_spec() == old(self).in_flight_spec() + 1,
            !ok ==> old(self).in_flight_spec() == old(self).limit_spec()
                && *final(self) == *old(self),
    {
        if self.in_flight < self.limit {
            self.in_flight = self.in_flight + 1;
            true
        } else {
            false
        }
    }

    /// How many lookups hold a slot right now.
    pub fn in_flight(&self) -> (r: usize)
        ensures
            r == self.in_flight_spec(),
    {
        self.in_flight
    }

    /// Gives a finished lookup's slot back.
    pub fn release(&mut self)
        requires
            old(self).wf(),
            old(self).in_flight_spec() > 0,
        ensures
            final(self).wf(),
            final(self).limit_spec() == old(self).limit_spec(),
            final(self).in_flight_spec() == old(self).in_flight_spec() - 1,
    {
        self.in_flight = self.in_flight - 1;
    }
}

/// Law: per-torrent outcomes are isolated and account for the whole
/// catalog. Every catalog entry is exactly one of updated, skipped, or
/// failed, so the three counts always partition the number attempted —
/// failures for some torrents can only move entries between the counts,
/// never lose the others' updates.
pub proof fn lemma_outcomes_partition(lookups: Seq<(String, Result<TorrentInfo, ServiceError>)>)
    ensures
        count_matching(lookups, |p| lookup_is_ok(p)) + count_matching(
            lookups,
            |p| lookup_is_not_found(p),
        ) + count_matching(lookups, |p| lookup_is_failure(p)) == lookups.len(),
    decreases lookups.len(),
{
    if lookups.len() > 0 {
        lemma_outcomes_partition(lookups.drop_last());
    }
}

/// Law: the importer's concurrency is bounded — in every well-formed pool
/// state, the number of in-flight lookups is at most the configured limit.
/// `new` establishes well-formedness and `try_acquire` and `release`
/// preserve it, so the bound holds in every reachable state.
pub proof fn lemma_worker_pool_bounded(p: WorkerPool)
    requires
        p.wf(),
    ensures
        p.in_flight_spec() <= p.limit_spec(),
{
}

} // verus!
