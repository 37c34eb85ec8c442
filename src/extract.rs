use vstd::prelude::*;
use crate::paths::{trim_trailing_slash, without_trailing_slash};
use crate::scheduler::{
    allowed_run, lemma_first_failure_reported, lemma_run_within_ceiling, no_failure_in, run,
    Batch, BatchEvent, BatchStatus, BatchView, JobFailure, JobState,
};

verus! {

/// The ceiling on concurrent extractions used unless the caller picks another.
pub const DEFAULT_EXTRACT_CEILING: usize = 3;

/// One extraction: unpack the archive at `archive` under `destination`.
#[derive(Clone, Debug)]
pub struct ExtractJob {
    pub archive: String,
    pub destination: String,
}

/// The jobs of `archive_list`.
fn extract_jobs(archives: &Vec<String>, destinations: &Vec<String>) -> (r: Vec<ExtractJob>)
    ensures
        r@.len() == if archives@.len() <= destinations@.len() {
            archives@.len()
        } else {
            destinations@.len()
        },
        forall|i: int| 0 <= i < r@.len() ==> {
            &&& (#[trigger] r@[i]).archive@ == archives@[i]@
            &&& r@[i].destination@ == without_trailing_slash(destinations@[i]@)
        },
{
    let n = if archives.len() <= destinations.len() {
        archives.len()
    } else {
        destinations.len()
    };
    let mut r: Vec<ExtractJob> = Vec::new();
    let mut i: usize = 0;
    while i < n
        invariant
            i <= n,
            n <= archives@.len(),
            n <= destinations@.len(),
            r@.len() == i,
            forall|k: int| 0 <= k < i ==> {
                &&& (#[trigger] r@[k]).archive@ == archives@[k]@
                &&& r@[k].destination@ == without_trailing_slash(destinations@[k]@)
            },
        decreases n - i,
    {
        let destination = trim_trailing_slash(destinations[i].as_str());
        r.push(ExtractJob { archive: archives[i].clone(), destination });
        i = i + 1;
    }
    r
}

/// The text of a failed extraction: `Error extracting <archive>: <cause>`.
pub open spec fn extraction_error_text(archive: Seq<char>, cause: Seq<char>) -> Seq<char> {
    "Error extracting "@ + archive + ": "@ + cause
}

/// The result of a batch of extractions in state `b`: none while it is not
/// settled; then `Ok`, or the first failure named by its archive.
pub open spec fn extract_outcome(jobs: Seq<ExtractJob>, b: BatchView) -> Option<Result<(), Seq<char>>> {
    if !b.settled() {
        None
    } else {
        match b.failure {
            Some((j, m)) => Some(Err(extraction_error_text(jobs[j as int].archive@, m))),
            None => Some(Ok(())),
        }
    }
}

/// The extractions of a group, run with at most `ceiling` at once: the
/// caller asks which job to start, unpacks it, and reports how it ended.
pub struct ExtractRun {
    jobs: Vec<ExtractJob>,
    batch: Batch,
}

impl ExtractRun {
    pub closed spec fn job_list(&self) -> Seq<ExtractJob> {
        self.jobs@
    }

    /// Where each job stands.
    pub closed spec fn state(&self) -> BatchView {
        self.batch@
    }

    pub closed spec fn inv(&self) -> bool {
        &&& self.batch.inv()
        &&& self.batch@.len() == self.jobs@.len()
    }

    /// The jobs, in order.
    pub fn jobs(&self) -> (r: &Vec<ExtractJob>)
        ensures
            r@ == self.job_list(),
    {
        &self.jobs
    }

    /// Starts the next job when the ceiling allows and nothing has failed.
    pub fn start_next(&mut self) -> (r: Option<usize>)
        requires
            old(self).inv(),
        ensures
            final(self).inv(),
            final(self).job_list() == old(self).job_list(),
            final(self).state() == old(self).state().after_start(),
            r == if old(self).state().may_start() {
                Some(old(self).state().next as usize)
            } else {
                None
            },
    {
        self.batch.start_next()
    }

    /// Whether job `job` is running now.
    pub fn is_running(&self, job: usize) -> (r: bool)
        requires
            self.inv(),
        ensures
            r == (job < self.state().len() && self.state().states[job as int] == JobState::Running),
    {
        self.batch.is_running(job)
    }

    /// Records how running job `job` ended.
    pub fn finish(&mut self, job: usize, outcome: Result<(), String>)
        requires
            old(self).inv(),
            job < old(self).state().len(),
            old(self).state().states[job as int] == JobState::Running,
        ensures
            final(self).inv(),
            final(self).job_list() == old(self).job_list(),
            final(self).state() == old(self).state().after_finish(
                job as nat,
                match outcome {
                    Ok(_) => None,
                    Err(m) => Some(m@),
                },
            ),
    {
        self.batch.finish(job, outcome)
    }

    /// `None` while jobs run or may still start; then `Ok` when every
    /// extraction succeeded, or the first failure named by its archive.
    pub fn result(&self) -> (r: Option<Result<(), String>>)
        requires
            self.inv(),
        ensures
            match extract_outcome(self.job_list(), self.state()) {
                None => r is None,
                Some(Ok(())) => r matches Some(Ok(_)),
                Some(Err(m)) => r matches Some(Err(e)) && e@ == m,
            },
    {
        proof {
            self.batch.lemma_inv_wf();
        }
        let status = self.batch.status();
        match status {
            BatchStatus::InProgress => None,
            _ => Some(extract_all_result(&self.jobs, &status)),
        }
    }
}

/// Pairs each staged archive with its destination directory, in order, the
/// destination without a trailing `/`, and readies the extractions to run
/// with at most `ceiling` at once. Extra items of the longer list are
/// ignored.
pub fn archive_list(archives: &Vec<String>, destinations: &Vec<String>, ceiling: usize) -> (r: ExtractRun)
    requires
        ceiling >= 1,
    ensures
        r.inv(),
        r.job_list().len() == if archives@.len() <= destinations@.len() {
            archives@.len()
        } else {
            destinations@.len()
        },
        forall|i: int| 0 <= i < r.job_list().len() ==> {
            &&& (#[trigger] r.job_list()[i]).archive@ == archives@[i]@
            &&& r.job_list()[i].destination@ == without_trailing_slash(destinations@[i]@)
        },
        r.state().is_fresh(r.job_list().len(), ceiling as nat),
{
    let jobs = extract_jobs(archives, destinations);
    let batch = Batch::new(jobs.len(), ceiling);
    ExtractRun { jobs, batch }
}

/// When the first failure reported in a run of extractions is job `job` with
/// `cause` (a corrupt or unsupported archive), the run's result, once
/// settled, is the error naming that job's archive; every extraction that had
/// succeeded by then stays succeeded.
pub proof fn lemma_failed_extraction_named(
    jobs: Seq<ExtractJob>,
    b: BatchView,
    es: Seq<BatchEvent>,
    k: int,
    job: nat,
    cause: Seq<char>,
)
    requires
        b.wf(),
        b.failure is None,
        b.len() == jobs.len(),
        allowed_run(b, es),
        0 <= k < es.len(),
        es[k] == BatchEvent::Finish(job, Some(cause)),
        no_failure_in(es.take(k)),
        run(b, es).settled(),
    ensures
        job < jobs.len(),
        extract_outcome(jobs, run(b, es)) == Some(
            Err::<(), Seq<char>>(extraction_error_text(jobs[job as int].archive@, cause)),
        ),
        forall|i: int| 0 <= i < b.len() && run(b, es.take(k)).states[i] == JobState::Succeeded
            ==> #[trigger] run(b, es).states[i] == JobState::Succeeded,
{
    lemma_first_failure_reported(b, es, k, job, cause);
    lemma_run_within_ceiling(b, es);
}

/// The message for a failed extraction: `Error extracting <archive>: <cause>`.
pub fn extraction_error(archive: &str, cause: &str) -> (r: String)
    ensures
        r@ == "Error extracting "@ + archive@ + ": "@ + cause@,
{
    let mut r = String::from_str("Error extracting ");
    r.append(archive);
    r.append(": ");
    r.append(cause);
    r
}

/// The result of a settled batch of extractions: `Ok` when all succeeded,
/// else the first failure, named by its archive.
pub fn extract_all_result(jobs: &Vec<ExtractJob>, status: &BatchStatus) -> (r: Result<(), String>)
    requires
        !(status is InProgress),
        status matches BatchStatus::Failed(f) ==> f.job < jobs@.len(),
    ensures
        status is Succeeded ==> r is Ok,
        status matches BatchStatus::Failed(f) ==> (r matches Err(m) && m@ == "Error extracting "@
            + jobs@[f.job as int].archive@ + ": "@ + f.message@),
{
    match status {
        BatchStatus::Failed(JobFailure { job, message }) => Err(
            extraction_error(jobs[*job].archive.as_str(), message.as_str()),
        ),
        _ => Ok(()),
    }
}

} // verus!
