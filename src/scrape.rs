//! The asset scrape: which files to fetch for an entry, the fail-fast run of
//! one entry's downloads, and the tally of a whole batch.
//!
//! Fetching and writing happen outside the library: the caller performs each
//! download that a run asks for and reports its outcome back.
use vstd::prelude::*;
use vstd::string::StringExecFns;

use crate::card::Card;
use crate::error::AssetError;
use crate::naming::{decimal, decimal_string, sanitized};
use crate::paths::{asset_path, resolve_asset_path, AssetKind};
use crate::set::CardSet;

verus! {

/// One file to fetch: the remote `source` is stored at `destination`.
pub struct DownloadJob {
    pub destination: String,
    pub source: String,
}

/// `job` stores the asset `kind` of edition `edition` of the entry `name`,
/// under `root`, fetched from `url`.
pub open spec fn job_is(
    job: DownloadJob,
    root: Seq<char>,
    kind: AssetKind,
    name: Seq<char>,
    edition: u8,
    url: Seq<char>,
) -> bool {
    &&& job.destination@ == asset_path(root, kind, sanitized(name, edition))
    &&& job.source@ == url
}

/// The artwork of every edition of `card`, in the order of its editions.
/// Fails with `ConstructionError` when `art_url` is not aligned with
/// `editions`.
pub fn plan_card_downloads(card: &Card, root: &str) -> (r: Result<Vec<DownloadJob>, AssetError>)
    ensures
        r is Ok <==> card.art_url@.len() == card.editions@.len(),
        r matches Ok(jobs) ==> {
            &&& jobs@.len() == card.editions@.len()
            &&& forall|i: int|
                0 <= i < jobs@.len() ==> job_is(
                    #[trigger] jobs@[i],
                    root@,
                    AssetKind::CardArt,
                    card.name@,
                    card.editions@[i],
                    card.art_url@[i]@,
                )
        },
        r matches Err(e) ==> e == AssetError::ConstructionError,
{
    if card.art_url.len() != card.editions.len() {
        return Err(AssetError::ConstructionError);
    }
    let mut jobs: Vec<DownloadJob> = Vec::new();
    let mut i: usize = 0;
    while i < card.editions.len()
        invariant
            0 <= i <= card.editions@.len(),
            card.art_url@.len() == card.editions@.len(),
            jobs@.len() == i,
            forall|j: int|
                0 <= j < i ==> job_is(
                    #[trigger] jobs@[j],
                    root@,
                    AssetKind::CardArt,
                    card.name@,
                    card.editions@[j],
                    card.art_url@[j]@,
                ),
        decreases card.editions@.len() - i,
    {
        let edition = card.editions[i];
        assert(card.editions@.contains(edition)) by {
            assert(card.editions@[i as int] == edition);
        }
        let destination = match resolve_asset_path(
            root,
            card.name.as_str(),
            &card.editions,
            edition,
            AssetKind::CardArt,
        ) {
            Ok(p) => p,
            Err(e) => {
                return Err(e);
            },
        };
        jobs.push(DownloadJob { destination, source: card.art_url[i].clone() });
        i += 1;
    }
    Ok(jobs)
}

/// The stored path of asset `kind` of edition `edition` of a set that has it.
fn set_asset_path(set: &CardSet, root: &str, edition: u8, kind: AssetKind) -> (r: String)
    requires
        set.editions@.contains(edition),
    ensures
        r@ == asset_path(root@, kind, sanitized(set.name@, edition)),
{
    match resolve_asset_path(root, set.name.as_str(), &set.editions, edition, kind) {
        Ok(p) => p,
        Err(_) => {
            assert(false);
            String::new()
        },
    }
}

/// Jobs `3 * i`, `3 * i + 1` and `3 * i + 2` of `jobs` fetch the cover art,
/// rulebook and icon of the `i`-th edition of `set`.
pub open spec fn set_edition_jobs(
    jobs: Seq<DownloadJob>,
    i: int,
    set: CardSet,
    root: Seq<char>,
) -> bool {
    &&& job_is(
        jobs[3 * i],
        root,
        AssetKind::SetCover,
        set.name@,
        set.editions@[i],
        set.cover_art_url@[i]@,
    )
    &&& job_is(
        jobs[3 * i + 1],
        root,
        AssetKind::SetRulebook,
        set.name@,
        set.editions@[i],
        set.rule_book_url@[i]@,
    )
    &&& job_is(
        jobs[3 * i + 2],
        root,
        AssetKind::SetIcon,
        set.name@,
        set.editions@[i],
        set.icon_url@[i]@,
    )
}

/// The cover art, rulebook and icon of every edition of `set`, three jobs per
/// edition in that order. Fails with `ConstructionError` when the set's URL
/// lists are empty or not aligned with its editions.
pub fn plan_set_downloads(set: &CardSet, root: &str) -> (r: Result<Vec<DownloadJob>, AssetError>)
    ensures
        r is Ok <==> set.well_formed(),
        r matches Ok(jobs) ==> {
            &&& jobs@.len() == 3 * set.editions@.len()
            &&& forall|i: int|
                0 <= i < set.editions@.len() ==> #[trigger] set_edition_jobs(jobs@, i, *set, root@)
        },
        r matches Err(e) ==> e == AssetError::ConstructionError,
{
    if set.editions.len() == 0 || set.cover_art_url.len() != set.editions.len()
        || set.icon_url.len() != set.editions.len() || set.rule_book_url.len()
        != set.editions.len() {
        return Err(AssetError::ConstructionError);
    }
    let mut jobs: Vec<DownloadJob> = Vec::new();
    let mut i: usize = 0;
    while i < set.editions.len()
        invariant
            0 <= i <= set.editions@.len(),
            set.well_formed(),
            jobs@.len() == 3 * i,
            forall|j: int| 0 <= j < i ==> #[trigger] set_edition_jobs(jobs@, j, *set, root@),
        decreases set.editions@.len() - i,
    {
        let ghost before = jobs@;
        let edition = set.editions[i];
        assert(set.editions@.contains(edition)) by {
            assert(set.editions@[i as int] == edition);
        }
        let cover = set_asset_path(set, root, edition, AssetKind::SetCover);
        jobs.push(DownloadJob { destination: cover, source: set.cover_art_url[i].clone() });
        let rules = set_asset_path(set, root, edition, AssetKind::SetRulebook);
        jobs.push(DownloadJob { destination: rules, source: set.rule_book_url[i].clone() });
        let icon = set_asset_path(set, root, edition, AssetKind::SetIcon);
        jobs.push(DownloadJob { destination: icon, source: set.icon_url[i].clone() });
        proof {
            assert forall|j: int| 0 <= j < i + 1 implies #[trigger] set_edition_jobs(
                jobs@,
                j,
                *set,
                root@,
            ) by {
                if j < i {
                    assert(set_edition_jobs(before, j, *set, root@));
                    assert(jobs@[3 * j] == before[3 * j]);
                    assert(jobs@[3 * j + 1] == before[3 * j + 1]);
                    assert(jobs@[3 * j + 2] == before[3 * j + 2]);
                }
            }
        }
        i += 1;
    }
    Ok(jobs)
}

/// What the caller does next for one entry.
pub enum ScrapeStep {
    /// Fetch the job at this index of the entry's job list, then report.
    Fetch(usize),
    /// The entry is finished, with this outcome.
    Done(Result<(), AssetError>),
}

/// The fail-fast run of one entry's jobs: jobs are fetched in order, and the
/// first failure ends the run with that failure.
pub struct EntityRun {
    pub total: usize,
    pub completed: usize,
    pub failure: Option<AssetError>,
}

impl EntityRun {
    /// No more jobs done than there are, and a failure only while a job was
    /// in progress.
    pub open spec fn well_formed(&self) -> bool {
        &&& self.completed <= self.total
        &&& self.failure is Some ==> self.completed < self.total
    }

    /// The step that the run asks for in this state.
    pub open spec fn step_spec(&self) -> ScrapeStep {
        match self.failure {
            Some(e) => ScrapeStep::Done(Err(e)),
            None => if self.completed < self.total {
                ScrapeStep::Fetch(self.completed)
            } else {
                ScrapeStep::Done(Ok(()))
            },
        }
    }

    /// The state once `outcome` is reported for the job in progress: a
    /// success counts the job as done, a failure ends the run.
    pub open spec fn after(self, outcome: Result<(), AssetError>) -> EntityRun {
        match outcome {
            Ok(_) => EntityRun {
                total: self.total,
                completed: (self.completed + 1) as usize,
                failure: self.failure,
            },
            Err(e) => EntityRun { total: self.total, completed: self.completed, failure: Some(e) },
        }
    }

    /// A run over `total` jobs, none of them fetched yet.
    pub fn new(total: usize) -> (r: EntityRun)
        ensures
            r.total == total,
            r.completed == 0,
            r.failure is None,
            r.well_formed(),
    {
        EntityRun { total, completed: 0, failure: None }
    }

    /// The next thing to do.
    pub fn next_step(&self) -> (r: ScrapeStep)
        ensures
            r == self.step_spec(),
    {
        match self.failure {
            Some(e) => ScrapeStep::Done(Err(e)),
            None => if self.completed < self.total {
                ScrapeStep::Fetch(self.completed)
            } else {
                ScrapeStep::Done(Ok(()))
            },
        }
    }

    /// Takes the outcome of the job that `next_step` asked for: a success
    /// moves on to the next job, a failure ends the run.
    pub fn record(&mut self, outcome: Result<(), AssetError>)
        requires
            old(self).well_formed(),
            old(self).step_spec() is Fetch,
        ensures
            final(self).well_formed(),
            *final(self) == old(self).after(outcome),
    {
        match outcome {
            Ok(()) => {
                self.completed = self.completed + 1;
            },
            Err(e) => {
                self.failure = Some(e);
            },
        }
    }
}

/// A run over `total` jobs after being told `outcomes`, in turn.
pub open spec fn run_through(total: usize, outcomes: Seq<Result<(), AssetError>>) -> EntityRun
    decreases outcomes.len(),
{
    if outcomes.len() == 0 {
        EntityRun { total, completed: 0, failure: None }
    } else {
        run_through(total, outcomes.drop_last()).after(outcomes.last())
    }
}

/// Fail-fast within one entry: a run over `total` jobs that is told the
/// outcome of each fetch it asks for asks for the jobs in order; after a
/// failure it asks for nothing more and ends with that failure; it ends
/// successfully only once all `total` jobs have succeeded.
pub proof fn lemma_entity_run_fails_fast(total: usize, outcomes: Seq<Result<(), AssetError>>)
    requires
        outcomes.len() <= total,
        forall|i: int| 0 <= i < outcomes.len() - 1 ==> (#[trigger] outcomes[i]) is Ok,
    ensures
        run_through(total, outcomes).well_formed(),
        run_through(total, outcomes).total == total,
        outcomes.len() == 0 || outcomes.last() is Ok ==> {
            &&& run_through(total, outcomes).completed == outcomes.len()
            &&& run_through(total, outcomes).failure is None
        },
        outcomes.len() > 0 && outcomes.last() is Err ==> {
            &&& run_through(total, outcomes).completed == outcomes.len() - 1
            &&& run_through(total, outcomes).failure == Some(outcomes.last()->Err_0)
        },
        outcomes.len() == 0 || outcomes.last() is Ok ==> run_through(total, outcomes).step_spec()
            == if outcomes.len() < total {
            ScrapeStep::Fetch(outcomes.len() as usize)
        } else {
            ScrapeStep::Done(Ok(()))
        },
        outcomes.len() > 0 && outcomes.last() is Err ==> run_through(total, outcomes).step_spec()
            == ScrapeStep::Done(Err(outcomes.last()->Err_0)),
    decreases outcomes.len(),
{
    if outcomes.len() > 0 {
        let prefix = outcomes.drop_last();
        assert forall|i: int| 0 <= i < prefix.len() - 1 implies (#[trigger] prefix[i]) is Ok by {
            assert(prefix[i] == outcomes[i]);
        }
        lemma_entity_run_fails_fast(total, prefix);
        if prefix.len() > 0 {
            assert(prefix.last() == outcomes[outcomes.len() - 2]);
        }
    }
}

/// The number of successes in `results`.
pub open spec fn count_ok(results: Seq<Result<(), AssetError>>) -> nat
    decreases results.len(),
{
    if results.len() == 0 {
        0
    } else {
        count_ok(results.drop_last()) + if results.last() is Ok { 1nat } else { 0nat }
    }
}

/// The running count of a batch: how many entries were tried, and how many
/// of them finished without error.
pub struct BatchTally {
    pub succeeded: u64,
    pub total: u64,
}

impl BatchTally {
    /// A tally with nothing counted.
    pub fn new() -> (r: BatchTally)
        ensures
            r.succeeded == 0,
            r.total == 0,
    {
        BatchTally { succeeded: 0, total: 0 }
    }

    /// Counts the outcome of one more entry; a failure is counted against
    /// the successes, never dropped.
    pub fn record(&mut self, result: &Result<(), AssetError>)
        requires
            old(self).succeeded <= old(self).total,
            old(self).total < u64::MAX,
        ensures
            final(self).total == old(self).total + 1,
            final(self).succeeded == old(self).succeeded + if result is Ok { 1int } else { 0int },
            final(self).succeeded <= final(self).total,
    {
        if result.is_ok() {
            self.succeeded = self.succeeded + 1;
        }
        self.total = self.total + 1;
    }

    /// The report `<succeeded>/<total>`.
    pub fn summary(&self) -> (r: String)
        ensures
            r@ == decimal(self.succeeded as nat) + "/"@ + decimal(self.total as nat),
    {
        let mut text = decimal_string(self.succeeded);
        text.append("/");
        let total = decimal_string(self.total);
        text.append(total.as_str());
        text
    }
}

/// The tally of a batch whose entries finished with `results`, in order.
pub fn tally_batch(results: &Vec<Result<(), AssetError>>) -> (r: BatchTally)
    ensures
        r.total == results@.len(),
        r.succeeded == count_ok(results@),
{
    let mut tally = BatchTally::new();
    let mut i: usize = 0;
    while i < results.len()
        invariant
            0 <= i <= results@.len(),
            tally.total == i,
            tally.succeeded == count_ok(results@.subrange(0, i as int)),
            tally.succeeded <= tally.total,
        decreases results@.len() - i,
    {
        proof {
            lemma_count_ok_bounded(results@.subrange(0, i as int));
            let next = results@.subrange(0, i + 1);
            assert(next.drop_last() =~= results@.subrange(0, i as int));
        }
        tally.record(&results[i]);
        i += 1;
    }
    assert(results@.subrange(0, results@.len() as int) =~= results@);
    tally
}

proof fn lemma_count_ok_bounded(results: Seq<Result<(), AssetError>>)
    ensures
        count_ok(results) <= results.len(),
    decreases results.len(),
{
    if results.len() > 0 {
        lemma_count_ok_bounded(results.drop_last());
    }
}

} // verus!
