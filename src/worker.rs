//! What each worker of a batch does between requests, how the workers are
//! planned before any request goes out, and how their ends are joined.
use crate::config::{BatchConfig, ConfigError};
use crate::partition::{
    lemma_positive_shares,
    lemma_shares_sum_and_balance,
    share_of,
    shares,
    sum_of,
    worker_share,
};
use crate::progress::{after_increments, ProgressBar};
use crate::transport::{build_client, proxy_url_accepted};
use vstd::prelude::*;

verus! {

/// How one request attempt ended.
#[derive(Debug)]
pub enum RequestOutcome {
    /// A response came back with this status code, and its body where the
    /// response gave a content length.
    Success { status: u16, body: Option<String> },
    /// The request failed; the text says why.
    Failure { description: String },
}

/// What a worker reports after one attempt: the progress snapshot taken right
/// after it, and the failure to log, if the attempt failed.
#[derive(Debug)]
pub struct AttemptReport {
    pub completed: usize,
    pub total: usize,
    pub failure: Option<String>,
}

/// One worker's run through its share of the batch.
#[derive(Debug, Clone, Copy, PartialEq, Eq, Structural)]
pub struct WorkerRun {
    index: usize,
    assigned: usize,
    done: usize,
}

impl WorkerRun {
    /// The worker's index in the batch.
    pub closed spec fn index(self) -> usize {
        self.index
    }

    /// How many requests the worker was given.
    pub closed spec fn assigned(self) -> usize {
        self.assigned
    }

    /// How many of its requests the worker has attempted.
    pub closed spec fn done(self) -> usize {
        self.done
    }

    /// Worker `index`, about to run `assigned` requests.
    pub closed spec fn planned(index: usize, assigned: usize) -> WorkerRun {
        WorkerRun { index, assigned, done: 0 }
    }

    /// The same worker, one attempt further on.
    pub closed spec fn advanced(self) -> WorkerRun {
        WorkerRun { done: (self.done + 1) as usize, ..self }
    }

    /// A worker never attempts more than its share.
    pub open spec fn wf(self) -> bool {
        self.done() <= self.assigned()
    }

    /// Worker `index`, about to run `assigned` requests.
    pub fn new(index: usize, assigned: usize) -> (r: WorkerRun)
        ensures
            r.wf(),
            r == WorkerRun::planned(index, assigned),
            r.index() == index,
            r.assigned() == assigned,
            r.done() == 0,
    {
        WorkerRun { index, assigned, done: 0 }
    }

    /// The worker's index in the batch.
    pub fn worker_index(&self) -> (r: usize)
        ensures
            r == self.index(),
    {
        self.index
    }

    /// How many requests the worker was given.
    pub fn request_count(&self) -> (r: usize)
        ensures
            r == self.assigned(),
    {
        self.assigned
    }

    /// Whether the worker has another request to send.
    pub fn has_next(&self) -> (r: bool)
        ensures
            r == (self.done() < self.assigned()),
    {
        self.done < self.assigned
    }

    /// Records the end of one attempt, whether it succeeded or failed: the
    /// worker moves on to its next request, and the shared counter counts one
    /// more completed request. A failure goes into the report, to be logged,
    /// and stops nothing.
    pub fn record_attempt(&mut self, progress: &mut ProgressBar, outcome: RequestOutcome) -> (r:
        AttemptReport)
        requires
            old(self).wf(),
            old(self).done() < old(self).assigned(),
            old(progress).wf(),
            old(progress).current() < old(progress).total(),
        ensures
            final(self).wf(),
            *final(self) == old(self).advanced(),
            final(self).index() == old(self).index(),
            final(self).assigned() == old(self).assigned(),
            final(self).done() == old(self).done() + 1,
            final(progress).wf(),
            *final(progress) == old(progress).incremented(),
            final(progress).current() == old(progress).current() + 1,
            final(progress).total() == old(progress).total(),
            r.completed == final(progress).current(),
            r.total == final(progress).total(),
            match outcome {
                RequestOutcome::Success { .. } => r.failure is None,
                RequestOutcome::Failure { description } => r.failure == Some(description),
            },
    {
        self.done = self.done + 1;
        let (completed, total) = progress.increment_and_get();
        let failure = match outcome {
            RequestOutcome::Success { .. } => None,
            RequestOutcome::Failure { description } => Some(description),
        };
        AttemptReport { completed, total, failure }
    }
}

/// However each attempt ends, successes and failures alike, once every worker
/// has made the attempts of its share, a fresh counter for the batch has been
/// incremented once per request and stands at the total: the batch is
/// complete.
pub proof fn lemma_batch_reaches_total(total: usize, workers: usize)
    requires
        total >= 1,
        workers >= 1,
    ensures
        ({
            let start = ProgressBar::fresh(total);
            let done = after_increments(start, sum_of(shares(total as nat, workers as nat)));
            &&& done.wf()
            &&& done.current() == total
            &&& done.total() == total
        }),
{
    lemma_shares_sum_and_balance(total as nat, workers as nat);
    crate::progress::lemma_increments_count_each_request_once(total);
}

/// A worker that is ready to start: its run and its own HTTP client.
pub struct WorkerPlan {
    pub run: WorkerRun,
    pub client: reqwest::Client,
}

/// Plans every worker that has at least one request, in worker order, each
/// with a client of its own, before any request is sent. Workers whose share
/// is zero get no client. The first client that cannot be built stops the
/// plan; a proxy URL that reqwest rejects always does.
pub fn plan_workers(config: &BatchConfig) -> (r: Result<Vec<WorkerPlan>, ConfigError>)
    requires
        config.wf(),
    ensures
        (r == Err::<Vec<WorkerPlan>, ConfigError>(ConfigError::InvalidProxy)) <==> (
        config.spec_proxy() matches Some(p) && !proxy_url_accepted(p)),
        r matches Err(e) ==> e == ConfigError::InvalidProxy || e == ConfigError::TransportBuild,
        r matches Ok(plans) ==> {
            let t = config.spec_total_requests();
            let w = config.spec_worker_count();
            &&& plans@.len() == if t < w {
                t
            } else {
                w
            }
            &&& forall|k: int|
                0 <= k < plans@.len() ==> (#[trigger] plans@[k]).run == WorkerRun::planned(
                    k as usize,
                    share_of(t as nat, w as nat, k as nat) as usize,
                )
            &&& forall|k: int| 0 <= k < plans@.len() ==> plans@[k].run.assigned() > 0
        },
{
    let total = config.total_requests();
    let workers = config.worker_count();
    let proxy = config.proxy();
    let ghost bad_proxy = config.spec_proxy() matches Some(p) && !proxy_url_accepted(p);
    proof {
        lemma_positive_shares(total as nat, workers as nat);
    }
    let mut plans: Vec<WorkerPlan> = Vec::new();
    let mut index: usize = 0;
    while index < workers
        invariant
            config.wf(),
            total == config.spec_total_requests(),
            workers == config.spec_worker_count(),
            bad_proxy == (config.spec_proxy() matches Some(p) && !proxy_url_accepted(p)),
            proxy.is_some() == config.spec_proxy().is_some(),
            proxy matches Some(p) ==> config.spec_proxy() == Some(p@),
            index <= workers,
            index > 0 ==> !bad_proxy,
            forall|i: nat|
                i < workers ==> (#[trigger] share_of(total as nat, workers as nat, i) > 0 <==> i
                    < total && i < workers),
            plans@.len() == if index < total {
                index as int
            } else {
                total as int
            },
            forall|k: int|
                0 <= k < plans@.len() ==> (#[trigger] plans@[k]).run == WorkerRun::planned(
                    k as usize,
                    share_of(total as nat, workers as nat, k as nat) as usize,
                ),
            forall|k: int| 0 <= k < plans@.len() ==> plans@[k].run.assigned() > 0,
        decreases workers - index,
    {
        let share = worker_share(total, workers, index);
        if share > 0 {
            let built = build_client(proxy);
            let ghost before = plans@;
            match add_worker(&mut plans, WorkerRun::new(index, share), built) {
                Ok(()) => {
                    assert forall|k: int| 0 <= k < plans@.len() - 1 implies #[trigger] plans@[k]
                        == before[k] by {
                        assert(plans@.drop_last()[k] == plans@[k]);
                    }
                },
                Err(e) => {
                    return Err(e);
                },
            }
        }
        index = index + 1;
    }
    Ok(plans)
}

/// Adds a worker to the plan once its client has been built: a client that
/// built puts the worker at the end of the plan, and a build that failed
/// leaves the plan as it was and gives back the build's error.
pub fn add_worker(
    plans: &mut Vec<WorkerPlan>,
    run: WorkerRun,
    built: Result<reqwest::Client, ConfigError>,
) -> (r: Result<(), ConfigError>)
    ensures
        r is Ok <==> built is Ok,
        built matches Err(e) ==> r == Err::<(), ConfigError>(e) && final(plans)@ == old(plans)@,
        built is Ok ==> final(plans)@.len() == old(plans)@.len() + 1 && final(plans)@.drop_last()
            == old(plans)@ && final(plans)@.last().run == run,
{
    match built {
        Ok(client) => {
            plans.push(WorkerPlan { run, client });
            assert(plans@.drop_last() =~= old(plans)@);
            Ok(())
        },
        Err(e) => Err(e),
    }
}

/// How a worker's unit of execution ended.
#[derive(Debug)]
pub enum WorkerExit {
    /// It ran its share to the end.
    Finished,
    /// It ended abnormally; the text says how.
    Faulted(String),
}

/// Why a batch ended with a fatal error.
#[derive(Debug)]
pub enum BatchError {
    /// The batch could not start.
    Configuration(ConfigError),
    /// A worker ended abnormally.
    Join(String),
}

/// Joins the ends of all workers, in worker order: the batch succeeds when
/// every worker finished, however many of its requests failed; otherwise the
/// first worker that faulted gives the error.
pub fn settle_workers(exits: &Vec<WorkerExit>) -> (r: Result<(), BatchError>)
    ensures
        r is Ok <==> forall|i: int| 0 <= i < exits@.len() ==> #[trigger] exits@[i] is Finished,
        r matches Err(e) ==> exists|k: int|
            0 <= k < exits@.len() && (forall|j: int| 0 <= j < k ==> #[trigger] exits@[j] is Finished)
                && (#[trigger] exits@[k] matches WorkerExit::Faulted(d) && e matches BatchError::Join(
                m) && m@ == d@),
{
    let mut i: usize = 0;
    while i < exits.len()
        invariant
            i <= exits@.len(),
            forall|j: int| 0 <= j < i ==> #[trigger] exits@[j] is Finished,
        decreases exits@.len() - i,
    {
        match &exits[i] {
            WorkerExit::Finished => {},
            WorkerExit::Faulted(d) => {
                return Err(BatchError::Join(d.clone()));
            },
        }
        i = i + 1;
    }
    Ok(())
}

} // verus!
