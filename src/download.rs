use vstd::prelude::*;
use crate::paths::{join_path, joined};
use crate::scheduler::{
    allowed_run, lemma_ceiling_respected, lemma_first_failure_reported, lemma_run_within_ceiling,
    no_failure_in, run, running_count, Batch, BatchEvent, BatchStatus, BatchView, JobFailure,
    JobState,
};

verus! {

/// One download: fetch `url` into the staging file `path`, shown as
/// `file_name` in progress lines.
#[derive(Clone, Debug)]
pub struct DownloadJob {
    pub url: String,
    pub file_name: String,
    pub path: String,
}

/// Whether an HTTP status code is a success (2xx).
pub open spec fn success_status(code: u16) -> bool {
    200 <= code <= 299
}

/// Whether a response with this status may be written to disk; any other
/// status ends the job with an error.
pub fn is_success_status(code: u16) -> (r: bool)
    ensures
        r == success_status(code),
{
    200 <= code && code <= 299
}

/// The jobs of `package_list`.
fn download_jobs(package_urls: &Vec<String>, file_names: &Vec<String>, staging_dir: &str) -> (r: Vec<DownloadJob>)
    ensures
        r@.len() == if package_urls@.len() <= file_names@.len() {
            package_urls@.len()
        } else {
            file_names@.len()
        },
        forall|i: int| 0 <= i < r@.len() ==> {
            &&& (#[trigger] r@[i]).url@ == package_urls@[i]@
            &&& r@[i].file_name@ == file_names@[i]@
            &&& r@[i].path@ == joined(staging_dir@, file_names@[i]@)
        },
{
    let n = if package_urls.len() <= file_names.len() {
        package_urls.len()
    } else {
        file_names.len()
    };
    let mut r: Vec<DownloadJob> = Vec::new();
    let mut i: usize = 0;
    while i < n
        invariant
            i <= n,
            n <= package_urls@.len(),
            n <= file_names@.len(),
            r@.len() == i,
            forall|k: int| 0 <= k < i ==> {
                &&& (#[trigger] r@[k]).url@ == package_urls@[k]@
                &&& r@[k].file_name@ == file_names@[k]@
                &&& r@[k].path@ == joined(staging_dir@, file_names@[k]@)
            },
        decreases n - i,
    {
        let path = join_path(staging_dir, file_names[i].as_str());
        r.push(DownloadJob { url: package_urls[i].clone(), file_name: file_names[i].clone(), path });
        i = i + 1;
    }
    r
}

/// What `package_list` makes of the `i`th URL and file name.
pub open spec fn listed(url: Seq<char>, file_name: Seq<char>, staging_dir: Seq<char>, j: DownloadJob) -> bool {
    &&& j.url@ == url
    &&& j.file_name@ == file_name
    &&& j.path@ == joined(staging_dir, file_name)
}

/// The text of a failed download: `Error downloading <file>: <cause>`.
pub open spec fn download_error_text(file_name: Seq<char>, cause: Seq<char>) -> Seq<char> {
    "Error downloading "@ + file_name + ": "@ + cause
}

/// The result of a batch of downloads in state `b`: none while it is not
/// settled; then `Ok`, or the first failure named by its job's file.
pub open spec fn download_outcome(jobs: Seq<DownloadJob>, b: BatchView) -> Option<Result<(), Seq<char>>> {
    if !b.settled() {
        None
    } else {
        match b.failure {
            Some((j, m)) => Some(Err(download_error_text(jobs[j as int].file_name@, m))),
            None => Some(Ok(())),
        }
    }
}

/// The downloads of a staging directory, run with at most `ceiling` at once:
/// the caller asks which job to start, fetches it, and reports how it ended.
pub struct DownloadRun {
    jobs: Vec<DownloadJob>,
    batch: Batch,
}

impl DownloadRun {
    pub closed spec fn job_list(&self) -> Seq<DownloadJob> {
        self.jobs@
    }

    /// Where each job stands.
    pub closed spec fn state(&self) -> BatchView {
        self.batch@
    }

    pub closed spec fn inv(&self) -> bool {
        &&& self.batch.inv()
        &&& self.batch@.len() == self.jobs@.len()
    }

    /// The jobs, in order.
    pub fn jobs(&self) -> (r: &Vec<DownloadJob>)
        ensures
            r@ == self.job_list(),
    {
        &self.jobs
    }

    /// Starts the next job when the ceiling allows and nothing has failed.
    pub fn start_next(&mut self) -> (r: Option<usize>)
        requires
            old(self).inv(),
        ensures
            final(self).inv(),
            final(self).job_list() == old(self).job_list(),
            final(self).state() == old(self).state().after_start(),
            r == if old(self).state().may_start() {
                Some(old(self).state().next as usize)
            } else {
                None
            },
    {
        self.batch.start_next()
    }

    /// Whether job `job` is running now.
    pub fn is_running(&self, job: usize) -> (r: bool)
        requires
            self.inv(),
        ensures
            r == (job < self.state().len() && self.state().states[job as int] == JobState::Running),
    {
        self.batch.is_running(job)
    }

    /// Records how running job `job` ended.
    pub fn finish(&mut self, job: usize, outcome: Result<(), String>)
        requires
            old(self).inv(),
            job < old(self).state().len(),
            old(self).state().states[job as int] == JobState::Running,
        ensures
            final(self).inv(),
            final(self).job_list() == old(self).job_list(),
            final(self).state() == old(self).state().after_finish(
                job as nat,
                match outcome {
                    Ok(_) => None,
                    Err(m) => Some(m@),
                },
            ),
    {
        self.batch.finish(job, outcome)
    }

    /// `None` while jobs run or may still start; then `Ok` when every
    /// download succeeded, or the first failure named by its file.
    pub fn result(&self) -> (r: Option<Result<(), String>>)
        requires
            self.inv(),
        ensures
            match download_outcome(self.job_list(), self.state()) {
                None => r is None,
                Some(Ok(())) => r matches Some(Ok(_)),
                Some(Err(m)) => r matches Some(Err(e)) && e@ == m,
            },
    {
        proof {
            self.batch.lemma_inv_wf();
        }
        let status = self.batch.status();
        match status {
            BatchStatus::InProgress => None,
            _ => Some(download_all_result(&self.jobs, &status)),
        }
    }
}

/// Pairs each URL with its file name, in order, places each file in the
/// staging directory (`staging_dir/file_name`), and readies the downloads to
/// run with at most `ceiling` at once. Extra items of the longer list are
/// ignored.
pub fn package_list(
    package_urls: &Vec<String>,
    file_names: &Vec<String>,
    staging_dir: &str,
    ceiling: usize,
) -> (r: DownloadRun)
    requires
        ceiling >= 1,
    ensures
        r.inv(),
        r.job_list().len() == if package_urls@.len() <= file_names@.len() {
            package_urls@.len()
        } else {
            file_names@.len()
        },
        forall|i: int| 0 <= i < r.job_list().len() ==> listed(
            package_urls@[i]@,
            file_names@[i]@,
            staging_dir@,
            #[trigger] r.job_list()[i],
        ),
        r.state().is_fresh(r.job_list().len(), ceiling as nat),
{
    let jobs = download_jobs(package_urls, file_names, staging_dir);
    let batch = Batch::new(jobs.len(), ceiling);
    DownloadRun { jobs, batch }
}

/// No more downloads are in flight than the ceiling; with a ceiling of one,
/// no two downloads are ever in flight together.
pub proof fn lemma_downloads_within_ceiling(r: &DownloadRun)
    requires
        r.inv(),
    ensures
        running_count(r.state().states) <= r.state().ceiling,
        r.state().ceiling == 1 ==> forall|i: int, j: int|
            0 <= i < r.job_list().len() && 0 <= j < r.job_list().len() && i != j
                && #[trigger] r.state().states[i] == JobState::Running
                ==> #[trigger] r.state().states[j] != JobState::Running,
{
    r.batch.lemma_inv_wf();
    lemma_ceiling_respected(r.state());
}

/// When the first failure reported in a run of downloads is job `job` with
/// `cause`, the run's result, once settled, is the error naming that job's
/// file; every download that had succeeded by then stays succeeded.
pub proof fn lemma_failed_download_named(
    jobs: Seq<DownloadJob>,
    b: BatchView,
    es: Seq<BatchEvent>,
    k: int,
    job: nat,
    cause: Seq<char>,
)
    requires
        b.wf(),
        b.failure is None,
        b.len() == jobs.len(),
        allowed_run(b, es),
        0 <= k < es.len(),
        es[k] == BatchEvent::Finish(job, Some(cause)),
        no_failure_in(es.take(k)),
        run(b, es).settled(),
    ensures
        job < jobs.len(),
        download_outcome(jobs, run(b, es)) == Some(
            Err::<(), Seq<char>>(download_error_text(jobs[job as int].file_name@, cause)),
        ),
        forall|i: int| 0 <= i < b.len() && run(b, es.take(k)).states[i] == JobState::Succeeded
            ==> #[trigger] run(b, es).states[i] == JobState::Succeeded,
{
    lemma_first_failure_reported(b, es, k, job, cause);
    lemma_run_within_ceiling(b, es);
}

/// The message for a failed download: `Error downloading <file>: <cause>`.
pub fn download_error(file_name: &str, cause: &str) -> (r: String)
    ensures
        r@ == "Error downloading "@ + file_name@ + ": "@ + cause@,
{
    let mut r = String::from_str("Error downloading ");
    r.append(file_name);
    r.append(": ");
    r.append(cause);
    r
}

/// The result of a settled batch of downloads: `Ok` when all succeeded, else
/// the first failure, named by its job's file.
pub fn download_all_result(jobs: &Vec<DownloadJob>, status: &BatchStatus) -> (r: Result<(), String>)
    requires
        !(status is InProgress),
        status matches BatchStatus::Failed(f) ==> f.job < jobs@.len(),
    ensures
        status is Succeeded ==> r is Ok,
        status matches BatchStatus::Failed(f) ==> (r matches Err(m) && m@ == "Error downloading "@
            + jobs@[f.job as int].file_name@ + ": "@ + f.message@),
{
    match status {
        BatchStatus::Failed(JobFailure { job, message }) => Err(
            download_error(jobs[*job].file_name.as_str(), message.as_str()),
        ),
        _ => Ok(()),
    }
}

} // verus!
