use vstd::prelude::*;

verus! {

/// Where one job of a batch stands.
#[derive(Clone, Copy, Debug, PartialEq, Eq, Structural)]
pub enum JobState {
    Waiting,
    Running,
    Succeeded,
    Failed,
}

/// The first failure observed in a batch: which job, and why.
#[derive(Clone, Debug)]
pub struct JobFailure {
    pub job: usize,
    pub message: String,
}

/// The result of a batch once it has settled.
#[derive(Clone, Debug)]
pub enum BatchStatus {
    /// Jobs are still running, or more may still start.
    InProgress,
    /// Every job ran and succeeded.
    Succeeded,
    /// Some job failed; this is the first failure observed.
    Failed(JobFailure),
}

/// Abstract state of a batch.
pub ghost struct BatchView {
    pub ceiling: nat,
    pub states: Seq<JobState>,
    /// Jobs start in index order; this is the index of the next one to start.
    pub next: nat,
    pub failure: Option<(nat, Seq<char>)>,
}

/// The number of running jobs.
pub open spec fn running_count(s: Seq<JobState>) -> nat
    decreases s.len(),
{
    if s.len() == 0 {
        0
    } else {
        running_count(s.drop_last()) + if s.last() == JobState::Running {
            1nat
        } else {
            0nat
        }
    }
}

/// Bounded-concurrency bookkeeping for a list of jobs (downloads or
/// extractions). The caller asks which job to start next, performs it, and
/// reports how it ended; the batch never lets more than `ceiling` jobs run at
/// once, starts nothing once a failure has been reported, and keeps the first
/// failure reported.
pub struct Batch {
    ceiling: usize,
    states: Vec<JobState>,
    next: usize,
    in_flight: usize,
    failure: Option<JobFailure>,
}

impl View for Batch {
    type V = BatchView;

    closed spec fn view(&self) -> BatchView {
        BatchView {
            ceiling: self.ceiling as nat,
            states: self.states@,
            next: self.next as nat,
            failure: match self.failure {
                Some(f) => Some((f.job as nat, f.message@)),
                None => None,
            },
        }
    }
}

impl BatchView {
    pub open spec fn len(self) -> nat {
        self.states.len()
    }

    pub open spec fn in_flight(self) -> nat {
        running_count(self.states)
    }

    /// Whether another job may start now.
    pub open spec fn may_start(self) -> bool {
        &&& self.failure is None
        &&& self.in_flight() < self.ceiling
        &&& self.next < self.len()
    }

    /// A batch of `jobs` jobs with ceiling `ceiling`, none started.
    pub open spec fn is_fresh(self, jobs: nat, ceiling: nat) -> bool {
        &&& self.ceiling == ceiling
        &&& self.len() == jobs
        &&& self.next == 0
        &&& self.failure is None
        &&& forall|i: int| 0 <= i < jobs ==> self.states[i] == JobState::Waiting
    }

    pub open spec fn settled(self) -> bool {
        self.in_flight() == 0 && (self.failure is Some || self.next == self.len())
    }

    /// The consistency every reachable batch state has.
    pub open spec fn wf(self) -> bool {
        &&& self.ceiling >= 1
        &&& self.next <= self.len()
        &&& forall|i: int| 0 <= i < self.next ==> self.states[i] != JobState::Waiting
        &&& forall|i: int| self.next <= i < self.len() ==> self.states[i] == JobState::Waiting
        &&& self.in_flight() <= self.ceiling
        &&& match self.failure {
            Some((j, _)) => j < self.next && self.states[j as int] == JobState::Failed,
            None => forall|i: int| 0 <= i < self.len() ==> self.states[i] != JobState::Failed,
        }
    }
}


impl BatchView {
    /// The batch after asking to start a job.
    pub open spec fn after_start(self) -> BatchView {
        if self.may_start() {
            BatchView {
                states: self.states.update(self.next as int, JobState::Running),
                next: self.next + 1,
                ..self
            }
        } else {
            self
        }
    }

    /// The batch after running job `job` ended, with `error` the reason when it
    /// failed.
    pub open spec fn after_finish(self, job: nat, error: Option<Seq<char>>) -> BatchView {
        BatchView {
            states: self.states.update(
                job as int,
                if error is None {
                    JobState::Succeeded
                } else {
                    JobState::Failed
                },
            ),
            failure: if self.failure is None && error is Some {
                Some((job, error->Some_0))
            } else {
                self.failure
            },
            ..self
        }
    }

    /// Whether `e` may happen now: only a running job can finish.
    pub open spec fn allows(self, e: BatchEvent) -> bool {
        match e {
            BatchEvent::Start => true,
            BatchEvent::Finish(job, _) => job < self.len() && self.states[job as int]
                == JobState::Running,
        }
    }

    pub open spec fn after(self, e: BatchEvent) -> BatchView {
        match e {
            BatchEvent::Start => self.after_start(),
            BatchEvent::Finish(job, error) => self.after_finish(job, error),
        }
    }
}

/// One call on a batch: a request to start a job, or the report that a job
/// ended (with the reason, when it failed).
pub ghost enum BatchEvent {
    Start,
    Finish(nat, Option<Seq<char>>),
}

/// Whether each event of `es` may happen in turn from `b`.
pub open spec fn allowed_run(b: BatchView, es: Seq<BatchEvent>) -> bool
    decreases es.len(),
{
    es.len() == 0 || (b.allows(es[0]) && allowed_run(b.after(es[0]), es.drop_first()))
}

/// The batch after the events of `es`, in turn.
pub open spec fn run(b: BatchView, es: Seq<BatchEvent>) -> BatchView
    decreases es.len(),
{
    if es.len() == 0 {
        b
    } else {
        run(b.after(es[0]), es.drop_first())
    }
}

/// Whether `es` reports no failed job.
pub open spec fn no_failure_in(es: Seq<BatchEvent>) -> bool {
    forall|i: int| 0 <= i < es.len() ==> !(#[trigger] es[i] matches BatchEvent::Finish(_, Some(_)))
}

proof fn lemma_running_count_update(s: Seq<JobState>, i: int, v: JobState)
    requires
        0 <= i < s.len(),
    ensures
        running_count(s.update(i, v)) + (if s[i] == JobState::Running { 1int } else { 0int })
            == running_count(s) + (if v == JobState::Running { 1int } else { 0int }),
    decreases s.len(),
{
    let t = s.update(i, v);
    if i == s.len() - 1 {
        assert(t.drop_last() =~= s.drop_last());
    } else {
        assert(t.drop_last() =~= s.drop_last().update(i, v));
        lemma_running_count_update(s.drop_last(), i, v);
    }
}

proof fn lemma_no_running(s: Seq<JobState>)
    requires
        forall|i: int| 0 <= i < s.len() ==> s[i] != JobState::Running,
    ensures
        running_count(s) == 0,
    decreases s.len(),
{
    if s.len() > 0 {
        lemma_no_running(s.drop_last());
    }
}

proof fn lemma_running_member(s: Seq<JobState>, i: int)
    requires
        0 <= i < s.len(),
        s[i] == JobState::Running,
    ensures
        running_count(s) >= 1,
    decreases s.len(),
{
    if i < s.len() - 1 {
        lemma_running_member(s.drop_last(), i);
    }
}

proof fn lemma_running_pair(s: Seq<JobState>, i: int, j: int)
    requires
        0 <= i < j < s.len(),
        s[i] == JobState::Running,
        s[j] == JobState::Running,
    ensures
        running_count(s) >= 2,
    decreases s.len(),
{
    if j < s.len() - 1 {
        lemma_running_pair(s.drop_last(), i, j);
    } else {
        lemma_running_member(s.drop_last(), i);
    }
}

/// No reachable batch has more jobs running than its ceiling; with a ceiling
/// of one, no two jobs are ever running at the same time.
pub proof fn lemma_ceiling_respected(b: BatchView)
    requires
        b.wf(),
    ensures
        running_count(b.states) <= b.ceiling,
        b.ceiling == 1 ==> forall|i: int, j: int|
            0 <= i < b.len() && 0 <= j < b.len() && i != j && #[trigger] b.states[i]
                == JobState::Running ==> #[trigger] b.states[j] != JobState::Running,
{
    if b.ceiling == 1 {
        assert forall|i: int, j: int|
            0 <= i < b.len() && 0 <= j < b.len() && i != j && #[trigger] b.states[i]
                == JobState::Running implies #[trigger] b.states[j] != JobState::Running by {
            if b.states[j] == JobState::Running {
                if i < j {
                    lemma_running_pair(b.states, i, j);
                } else {
                    lemma_running_pair(b.states, j, i);
                }
            }
        }
    }
}


proof fn lemma_event_keeps_wf(b: BatchView, e: BatchEvent)
    requires
        b.wf(),
        b.allows(e),
    ensures
        b.after(e).wf(),
        b.after(e).ceiling == b.ceiling,
        b.after(e).len() == b.len(),
        forall|i: int| 0 <= i < b.len() && b.states[i] == JobState::Succeeded
            ==> #[trigger] b.after(e).states[i] == JobState::Succeeded,
        b.failure is Some ==> b.after(e).failure == b.failure,
{
    match e {
        BatchEvent::Start => {
            if b.may_start() {
                lemma_running_count_update(b.states, b.next as int, JobState::Running);
            }
        },
        BatchEvent::Finish(job, error) => {
            let v = if error is None {
                JobState::Succeeded
            } else {
                JobState::Failed
            };
            lemma_running_count_update(b.states, job as int, v);
            lemma_running_member(b.states, job as int);
        },
    }
}

/// Every state that a batch reaches by allowed calls has at most `ceiling`
/// jobs running; with a ceiling of one, no two jobs ever run at the same time.
pub proof fn lemma_run_within_ceiling(b: BatchView, es: Seq<BatchEvent>)
    requires
        b.wf(),
        allowed_run(b, es),
    ensures
        run(b, es).wf(),
        run(b, es).ceiling == b.ceiling,
        run(b, es).len() == b.len(),
        running_count(run(b, es).states) <= b.ceiling,
        b.ceiling == 1 ==> forall|i: int, j: int|
            0 <= i < run(b, es).len() && 0 <= j < run(b, es).len() && i != j
                && #[trigger] run(b, es).states[i] == JobState::Running
                ==> #[trigger] run(b, es).states[j] != JobState::Running,
    decreases es.len(),
{
    if es.len() > 0 {
        lemma_event_keeps_wf(b, es[0]);
        lemma_run_within_ceiling(b.after(es[0]), es.drop_first());
    }
    lemma_ceiling_respected(run(b, es));
}

proof fn lemma_run_keeps(b: BatchView, es: Seq<BatchEvent>)
    requires
        b.wf(),
        allowed_run(b, es),
    ensures
        forall|i: int| 0 <= i < b.len() && b.states[i] == JobState::Succeeded
            ==> #[trigger] run(b, es).states[i] == JobState::Succeeded,
        b.failure is Some ==> run(b, es).failure == b.failure,
        no_failure_in(es) ==> run(b, es).failure == b.failure,
    decreases es.len(),
{
    if es.len() > 0 {
        lemma_event_keeps_wf(b, es[0]);
        lemma_run_keeps(b.after(es[0]), es.drop_first());
        let rest = es.drop_first();
        if no_failure_in(es) {
            assert forall|i: int| 0 <= i < rest.len() implies !(#[trigger] rest[i] matches BatchEvent::Finish(_, Some(_))) by {
                assert(rest[i] == es[i + 1]);
            }
            assert(!(es[0] matches BatchEvent::Finish(_, Some(_))));
        }
    }
}

/// When the first failure among the calls on a batch is job `job` failing
/// with `message`, the batch reports exactly that failure after any further
/// allowed calls, and every job that had succeeded by then stays succeeded.
pub proof fn lemma_first_failure_reported(
    b: BatchView,
    es: Seq<BatchEvent>,
    k: int,
    job: nat,
    message: Seq<char>,
)
    requires
        b.wf(),
        b.failure is None,
        allowed_run(b, es),
        0 <= k < es.len(),
        es[k] == BatchEvent::Finish(job, Some(message)),
        no_failure_in(es.take(k)),
    ensures
        run(b, es).failure == Some((job, message)),
        forall|i: int| 0 <= i < b.len() && run(b, es.take(k)).states[i] == JobState::Succeeded
            ==> #[trigger] run(b, es).states[i] == JobState::Succeeded,
    decreases k,
{
    if k == 0 {
        lemma_event_keeps_wf(b, es[0]);
        lemma_run_keeps(b.after(es[0]), es.drop_first());
        assert(es.take(0) =~= Seq::<BatchEvent>::empty());
    } else {
        let rest = es.drop_first();
        lemma_event_keeps_wf(b, es[0]);
        assert(es.take(k)[0] == es[0]);
        assert(!(es[0] matches BatchEvent::Finish(_, Some(_))));
        assert(rest.take(k - 1) =~= es.take(k).drop_first());
        assert forall|i: int| 0 <= i < rest.take(k - 1).len() implies !(#[trigger] rest.take(k - 1)[i] matches BatchEvent::Finish(_, Some(_))) by {
            assert(rest.take(k - 1)[i] == es.take(k)[i + 1]);
        }
        lemma_first_failure_reported(b.after(es[0]), rest, k - 1, job, message);
    }
}

impl Batch {
    pub closed spec fn inv(&self) -> bool {
        &&& self@.wf()
        &&& self.in_flight as nat == self@.in_flight()
        &&& self.states@.len() <= usize::MAX
    }

    /// A batch's bookkeeping is consistent with its abstract state.
    pub proof fn lemma_inv_wf(&self)
        requires
            self.inv(),
        ensures
            self@.wf(),
    {
    }

    /// A batch of `jobs` jobs, none started, with at most `ceiling` running at
    /// once.
    pub fn new(jobs: usize, ceiling: usize) -> (r: Batch)
        requires
            ceiling >= 1,
        ensures
            r.inv(),
            r@.is_fresh(jobs as nat, ceiling as nat),
    {
        let mut states: Vec<JobState> = Vec::new();
        let mut k: usize = 0;
        while k < jobs
            invariant
                k <= jobs,
                states@.len() == k,
                forall|i: int| 0 <= i < k ==> states@[i] == JobState::Waiting,
            decreases jobs - k,
        {
            states.push(JobState::Waiting);
            k = k + 1;
        }
        proof {
            lemma_no_running(states@);
        }
        Batch { ceiling, states, next: 0, in_flight: 0, failure: None }
    }

    /// How many jobs are running now.
    pub fn in_flight(&self) -> (r: usize)
        requires
            self.inv(),
        ensures
            r == self@.in_flight(),
    {
        self.in_flight
    }

    /// Whether job `job` is running now.
    pub fn is_running(&self, job: usize) -> (r: bool)
        requires
            self.inv(),
        ensures
            r == (job < self@.len() && self@.states[job as int] == JobState::Running),
    {
        job < self.states.len() && self.states[job] == JobState::Running
    }

    /// Starts the next job when the ceiling allows and no failure has been
    /// reported, and says which; `None` when nothing may start now.
    pub fn start_next(&mut self) -> (r: Option<usize>)
        requires
            old(self).inv(),
        ensures
            final(self).inv(),
            final(self)@ == old(self)@.after_start(),
            r == if old(self)@.may_start() {
                Some(old(self)@.next as usize)
            } else {
                None
            },
    {
        if self.failure.is_none() && self.in_flight < self.ceiling && self.next < self.states.len() {
            let j = self.next;
            proof {
                lemma_running_count_update(self.states@, j as int, JobState::Running);
            }
            self.states[j] = JobState::Running;
            self.next = j + 1;
            self.in_flight = self.in_flight + 1;
            Some(j)
        } else {
            None
        }
    }

    /// Records how running job `job` ended: `Ok` or the reason it failed. The
    /// first failure reported is kept; later ones are not.
    pub fn finish(&mut self, job: usize, outcome: Result<(), String>)
        requires
            old(self).inv(),
            job < old(self)@.len(),
            old(self)@.states[job as int] == JobState::Running,
        ensures
            final(self).inv(),
            final(self)@ == old(self)@.after_finish(
                job as nat,
                match outcome {
                    Ok(_) => None,
                    Err(m) => Some(m@),
                },
            ),
    {
        let v = if outcome.is_ok() {
            JobState::Succeeded
        } else {
            JobState::Failed
        };
        proof {
            lemma_running_count_update(self.states@, job as int, v);
        }
        self.states[job] = v;
        self.in_flight = self.in_flight - 1;
        match outcome {
            Ok(()) => {},
            Err(message) => {
                if self.failure.is_none() {
                    self.failure = Some(JobFailure { job, message });
                }
            },
        }
    }

    /// `InProgress` while a job runs or another may still start; then the first
    /// failure reported, or `Succeeded` when every job succeeded.
    pub fn status(&self) -> (r: BatchStatus)
        requires
            self.inv(),
        ensures
            !self@.settled() ==> r is InProgress,
            self@.settled() && self@.failure is None ==> {
                &&& r is Succeeded
                &&& forall|i: int| 0 <= i < self@.len() ==> self@.states[i] == JobState::Succeeded
            },
            self@.settled() && self@.failure is Some ==> {
                &&& r is Failed
                &&& (r->Failed_0.job as nat, r->Failed_0.message@) == self@.failure->Some_0
            },
    {
        if self.in_flight > 0 || (self.failure.is_none() && self.next < self.states.len()) {
            BatchStatus::InProgress
        } else {
            match &self.failure {
                Some(f) => BatchStatus::Failed(JobFailure { job: f.job, message: f.message.clone() }),
                None => {
                    assert forall|i: int| 0 <= i < self@.len() implies self@.states[i]
                        == JobState::Succeeded by {
                        if self@.states[i] == JobState::Running {
                            lemma_running_member(self@.states, i);
                        }
                    }
                    BatchStatus::Succeeded
                },
            }
        }
    }
}

} // verus!
