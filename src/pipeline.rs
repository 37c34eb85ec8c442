use vstd::prelude::*;
use crate::paths::{join_path, joined, without_trailing_slash};
use crate::download::{listed, package_list, DownloadRun};
use crate::extract::{archive_list, ExtractRun};

verus! {

/// The directories resolved once per run, that destinations are built on.
#[derive(Clone, Debug)]
pub struct ResolvedRoots {
    pub game_root: String,
    pub desktop_root: String,
}

/// Where a package is unpacked, by role.
#[derive(Clone, Debug)]
pub enum Destination {
    /// The user's desktop directory.
    Desktop,
    /// The install directory itself.
    GameRoot,
    /// A directory under the install directory, such as `content/cars`.
    GameSubdirectory(String),
}

/// One package of configuration: the archive's file name on the server and
/// where it is unpacked.
#[derive(Clone, Debug)]
pub struct PackageSpec {
    pub file_name: String,
    pub destination: Destination,
}

/// One archive's way through the pipeline: where it is fetched from, where it
/// is staged, and where it is unpacked.
#[derive(Clone, Debug)]
pub struct PackageJob {
    pub url: String,
    pub file_name: String,
    pub staging_path: String,
    pub destination: String,
}

/// The directory that destination `d` names.
pub open spec fn destination_of(d: Destination, roots: ResolvedRoots) -> Seq<char> {
    match d {
        Destination::Desktop => roots.desktop_root@,
        Destination::GameRoot => roots.game_root@,
        Destination::GameSubdirectory(sub) => joined(roots.game_root@, sub@),
    }
}

/// The directory that a destination names, given the resolved roots.
pub fn destination_path(d: &Destination, roots: &ResolvedRoots) -> (r: String)
    ensures
        r@ == destination_of(*d, *roots),
{
    match d {
        Destination::Desktop => roots.desktop_root.clone(),
        Destination::GameRoot => roots.game_root.clone(),
        Destination::GameSubdirectory(sub) => join_path(roots.game_root.as_str(), sub.as_str()),
    }
}

/// The staging directory of a group: `temp_root/name`.
pub fn staging_directory(temp_root: &str, name: &str) -> (r: String)
    ensures
        r@ == joined(temp_root@, name@),
{
    join_path(temp_root, name)
}

/// What `plan_jobs` makes of package `p`.
pub open spec fn planned(
    source: Seq<char>,
    p: PackageSpec,
    roots: ResolvedRoots,
    staging_dir: Seq<char>,
    j: PackageJob,
) -> bool {
    &&& j.url@ == joined(source, p.file_name@)
    &&& j.file_name@ == p.file_name@
    &&& j.staging_path@ == joined(staging_dir, p.file_name@)
    &&& j.destination@ == destination_of(p.destination, roots)
}

/// Builds a group's jobs from configuration: each package is fetched from
/// `source/file_name`, staged at `staging_dir/file_name` and unpacked in the
/// directory of its destination.
pub fn plan_jobs(
    source: &str,
    packages: &Vec<PackageSpec>,
    roots: &ResolvedRoots,
    staging_dir: &str,
) -> (r: Vec<PackageJob>)
    ensures
        r@.len() == packages@.len(),
        forall|i: int| 0 <= i < r@.len() ==> planned(source@, packages@[i], *roots, staging_dir@, #[trigger] r@[i]),
{
    let mut r: Vec<PackageJob> = Vec::new();
    let mut i: usize = 0;
    while i < packages.len()
        invariant
            i <= packages@.len(),
            r@.len() == i,
            forall|k: int| 0 <= k < i ==> planned(source@, packages@[k], *roots, staging_dir@, #[trigger] r@[k]),
        decreases packages.len() - i,
    {
        let p = &packages[i];
        let job = PackageJob {
            url: join_path(source, p.file_name.as_str()),
            file_name: p.file_name.clone(),
            staging_path: join_path(staging_dir, p.file_name.as_str()),
            destination: destination_path(&p.destination, roots),
        };
        r.push(job);
        i = i + 1;
    }
    r
}

/// The steps of one package group. `Done` and `Aborted` are terminal.
#[derive(Clone, Copy, Debug, PartialEq, Eq, Structural)]
pub enum Stage {
    CreateStaging,
    Download,
    Extract,
    /// Removing the staged archive of job `i`.
    RemoveFiles(usize),
    RemoveStaging,
    Done,
    Aborted,
}

impl Stage {
    pub open spec fn terminal(self) -> bool {
        self is Done || self is Aborted
    }
}

/// How the last requested action ended.
#[derive(Clone, Debug)]
pub enum StepOutcome {
    Succeeded,
    /// The directory to create is already there (with the system's message).
    AlreadyExists(String),
    /// Any other failure, with its message.
    Failed(String),
}

/// Why a group's pipeline stopped.
#[derive(Clone, Debug)]
pub enum PipelineError {
    /// The staging directory already exists, left by an earlier run (with
    /// the system's message).
    Conflict(String),
    /// The staging directory could not be created.
    Staging(String),
    /// A download failed.
    Download(String),
    /// An extraction failed.
    Extraction(String),
    /// A staged file could not be deleted.
    Cleanup(String),
    /// The staging directory could not be removed.
    StagingRemoval(String),
}

/// What the caller is to do next.
#[derive(Debug)]
pub enum Action {
    /// Create the staging directory; it must not exist yet.
    CreateStagingDir(String),
    /// Run the group's downloads.
    DownloadAll,
    /// Run the group's extractions.
    ExtractAll,
    /// Delete one staged archive.
    RemoveStagedFile(String),
    /// Remove the (now empty) staging directory.
    RemoveStagingDir(String),
    /// The group is finished, with this result.
    Finished(Result<(), PipelineError>),
}

pub ghost enum ErrorView {
    Conflict(Seq<char>),
    Staging(Seq<char>),
    Download(Seq<char>),
    Extraction(Seq<char>),
    Cleanup(Seq<char>),
    StagingRemoval(Seq<char>),
}

pub ghost enum ActionView {
    CreateStagingDir(Seq<char>),
    DownloadAll,
    ExtractAll,
    RemoveStagedFile(Seq<char>),
    RemoveStagingDir(Seq<char>),
    Finished(Option<ErrorView>),
}

impl View for PipelineError {
    type V = ErrorView;

    open spec fn view(&self) -> ErrorView {
        match self {
            PipelineError::Conflict(m) => ErrorView::Conflict(m@),
            PipelineError::Staging(m) => ErrorView::Staging(m@),
            PipelineError::Download(m) => ErrorView::Download(m@),
            PipelineError::Extraction(m) => ErrorView::Extraction(m@),
            PipelineError::Cleanup(m) => ErrorView::Cleanup(m@),
            PipelineError::StagingRemoval(m) => ErrorView::StagingRemoval(m@),
        }
    }
}

impl View for Action {
    type V = ActionView;

    open spec fn view(&self) -> ActionView {
        match self {
            Action::CreateStagingDir(p) => ActionView::CreateStagingDir(p@),
            Action::DownloadAll => ActionView::DownloadAll,
            Action::ExtractAll => ActionView::ExtractAll,
            Action::RemoveStagedFile(p) => ActionView::RemoveStagedFile(p@),
            Action::RemoveStagingDir(p) => ActionView::RemoveStagingDir(p@),
            Action::Finished(Ok(())) => ActionView::Finished(None),
            Action::Finished(Err(e)) => ActionView::Finished(Some(e@)),
        }
    }
}


/// The text of a pipeline error.
pub open spec fn error_text(e: ErrorView) -> Seq<char> {
    match e {
        ErrorView::Conflict(m) => "Could not create temp directory: "@ + m,
        ErrorView::Staging(m) => "Could not create temp directory: "@ + m,
        ErrorView::Download(m) => "Download Failed: "@ + m,
        ErrorView::Extraction(m) => "Extraction failed: "@ + m,
        ErrorView::Cleanup(m) => "IO Error: Error deleting file: "@ + m,
        ErrorView::StagingRemoval(m) => "Could not delete old temp directory: "@ + m,
    }
}

impl PipelineError {
    /// A one-line description of the error for the operator.
    pub fn message(&self) -> (r: String)
        ensures
            r@ == error_text(self@),
    {
        let (prefix, detail) = match self {
            PipelineError::Conflict(m) => ("Could not create temp directory: ", m),
            PipelineError::Staging(m) => ("Could not create temp directory: ", m),
            PipelineError::Download(m) => ("Download Failed: ", m),
            PipelineError::Extraction(m) => ("Extraction failed: ", m),
            PipelineError::Cleanup(m) => ("IO Error: Error deleting file: ", m),
            PipelineError::StagingRemoval(m) => ("Could not delete old temp directory: ", m),
        };
        String::from_str(prefix).concat(detail.as_str())
    }
}

/// The message of a failed outcome.
pub open spec fn failure_text(o: StepOutcome) -> Seq<char> {
    match o {
        StepOutcome::Succeeded => Seq::empty(),
        StepOutcome::AlreadyExists(m) => m@,
        StepOutcome::Failed(m) => m@,
    }
}

/// The step after `stage` ends with `outcome`, and the action it asks for.
/// `staged` holds the staged archive paths, in job order. Policy on failure:
/// the staging directory is kept for inspection, so a failed download or
/// extraction finishes the group without cleanup.
pub open spec fn next_step(
    staging: Seq<char>,
    staged: Seq<Seq<char>>,
    stage: Stage,
    outcome: StepOutcome,
) -> (Stage, ActionView) {
    let after_cleanup = if 0 < staged.len() {
        (Stage::RemoveFiles(0), ActionView::RemoveStagedFile(staged[0]))
    } else {
        (Stage::RemoveStaging, ActionView::RemoveStagingDir(staging))
    };
    if outcome is Succeeded {
        match stage {
            Stage::CreateStaging => (Stage::Download, ActionView::DownloadAll),
            Stage::Download => (Stage::Extract, ActionView::ExtractAll),
            Stage::Extract => after_cleanup,
            Stage::RemoveFiles(i) => if i + 1 < staged.len() {
                (Stage::RemoveFiles((i + 1) as usize), ActionView::RemoveStagedFile(staged[i + 1]))
            } else {
                (Stage::RemoveStaging, ActionView::RemoveStagingDir(staging))
            },
            Stage::RemoveStaging => (Stage::Done, ActionView::Finished(None)),
            _ => (stage, ActionView::Finished(None)),
        }
    } else {
        let m = failure_text(outcome);
        let e = match stage {
            Stage::CreateStaging => if outcome is AlreadyExists {
                ErrorView::Conflict(m)
            } else {
                ErrorView::Staging(m)
            },
            Stage::Download => ErrorView::Download(m),
            Stage::Extract => ErrorView::Extraction(m),
            Stage::RemoveStaging => ErrorView::StagingRemoval(m),
            _ => ErrorView::Cleanup(m),
        };
        (Stage::Aborted, ActionView::Finished(Some(e)))
    }
}


/// A staging directory left behind by an earlier run ends the group with a
/// conflict, carrying the system's message, at the staging step; downloads start only once the
/// staging directory was created.
pub proof fn lemma_leftover_staging_conflicts(
    staging: Seq<char>,
    staged: Seq<Seq<char>>,
    outcome: StepOutcome,
)
    ensures
        outcome is AlreadyExists ==> next_step(staging, staged, Stage::CreateStaging, outcome) == (
            Stage::Aborted,
            ActionView::Finished(Some(ErrorView::Conflict(failure_text(outcome)))),
        ),
        next_step(staging, staged, Stage::CreateStaging, outcome).1 == ActionView::DownloadAll
            <==> outcome is Succeeded,
{
}

/// A failed download or extraction finishes the group at once: nothing is
/// removed, so archives already staged stay on disk.
pub proof fn lemma_failure_keeps_staging(
    staging: Seq<char>,
    staged: Seq<Seq<char>>,
    stage: Stage,
    outcome: StepOutcome,
)
    requires
        stage is Download || stage is Extract,
        !(outcome is Succeeded),
    ensures
        next_step(staging, staged, stage, outcome).0 == Stage::Aborted,
        next_step(staging, staged, stage, outcome).1 matches ActionView::Finished(Some(_)),
{
}

/// The actions asked for when each of the next `k` steps from `stage`
/// succeeds.
pub open spec fn actions_on_success(
    staging: Seq<char>,
    staged: Seq<Seq<char>>,
    stage: Stage,
    k: nat,
) -> Seq<ActionView>
    decreases k,
{
    if k == 0 {
        Seq::empty()
    } else {
        let (s2, a) = next_step(staging, staged, stage, StepOutcome::Succeeded);
        seq![a] + actions_on_success(staging, staged, s2, (k - 1) as nat)
    }
}

/// The removals of the staged archives, in order.
pub open spec fn removals(staged: Seq<Seq<char>>) -> Seq<ActionView> {
    staged.map_values(|p: Seq<char>| ActionView::RemoveStagedFile(p))
}

proof fn lemma_removals_from(staging: Seq<char>, staged: Seq<Seq<char>>, i: usize)
    requires
        i < staged.len() <= usize::MAX,
    ensures
        actions_on_success(staging, staged, Stage::RemoveFiles(i), (staged.len() - i + 1) as nat)
            == removals(staged.subrange(i + 1, staged.len() as int)) + seq![
            ActionView::RemoveStagingDir(staging),
            ActionView::Finished(None),
        ],
    decreases staged.len() - i,
{
    let n = staged.len();
    let k = (n - i + 1) as nat;
    let tail = seq![ActionView::RemoveStagingDir(staging), ActionView::Finished(None)];
    if i + 1 < n {
        lemma_removals_from(staging, staged, (i + 1) as usize);
        let rest = actions_on_success(staging, staged, Stage::RemoveFiles((i + 1) as usize), (k - 1) as nat);
        assert(actions_on_success(staging, staged, Stage::RemoveFiles(i), k) == seq![
            ActionView::RemoveStagedFile(staged[i + 1]),
        ] + rest);
        assert(removals(staged.subrange(i + 1, n as int)) =~= seq![
            ActionView::RemoveStagedFile(staged[i + 1]),
        ] + removals(staged.subrange(i + 2, n as int)));
        assert(actions_on_success(staging, staged, Stage::RemoveFiles(i), k) =~= removals(
            staged.subrange(i + 1, n as int),
        ) + tail);
    } else {
        let a2 = actions_on_success(staging, staged, Stage::RemoveStaging, 1);
        assert(actions_on_success(staging, staged, Stage::Done, 0) == Seq::<ActionView>::empty());
        assert(a2 =~= seq![ActionView::Finished(None)]);
        assert(removals(staged.subrange(i + 1, n as int)) =~= Seq::<ActionView>::empty());
        assert(actions_on_success(staging, staged, Stage::RemoveFiles(i), k) =~= tail);
    }
}

/// When every step succeeds, a group runs its downloads, then its
/// extractions, then deletes each staged archive in job order, then removes
/// the staging directory, and finishes without error.
pub proof fn lemma_successful_run(staging: Seq<char>, staged: Seq<Seq<char>>)
    requires
        staged.len() <= usize::MAX,
    ensures
        actions_on_success(staging, staged, Stage::CreateStaging, staged.len() + 4) == seq![
            ActionView::DownloadAll,
            ActionView::ExtractAll,
        ] + removals(staged) + seq![
            ActionView::RemoveStagingDir(staging),
            ActionView::Finished(None),
        ],
{
    let n = staged.len();
    let tail = seq![ActionView::RemoveStagingDir(staging), ActionView::Finished(None)];
    let head = seq![ActionView::DownloadAll, ActionView::ExtractAll];
    let from_extract = actions_on_success(staging, staged, Stage::Extract, n + 2);
    if n > 0 {
        lemma_removals_from(staging, staged, 0);
        assert(removals(staged) =~= seq![ActionView::RemoveStagedFile(staged[0])] + removals(
            staged.subrange(1, n as int),
        ));
        assert(from_extract =~= removals(staged) + tail);
    } else {
        let a2 = actions_on_success(staging, staged, Stage::RemoveStaging, 1);
        assert(actions_on_success(staging, staged, Stage::Done, 0) == Seq::<ActionView>::empty());
        assert(a2 =~= seq![ActionView::Finished(None)]);
        assert(removals(staged) =~= Seq::<ActionView>::empty());
        assert(from_extract =~= removals(staged) + tail);
    }
    let from_download = actions_on_success(staging, staged, Stage::Download, n + 3);
    assert(from_download =~= seq![ActionView::ExtractAll] + from_extract);
    assert(actions_on_success(staging, staged, Stage::CreateStaging, n + 4) =~= head + removals(staged) + tail);
}

/// The sequencing of one package group: create the staging directory, run
/// the downloads, run the extractions, delete each staged archive, remove the
/// staging directory. The caller performs each action and reports how it
/// ended; the first failure finishes the group.
pub struct Pipeline {
    staging_dir: String,
    jobs: Vec<PackageJob>,
    stage: Stage,
}

/// The staged archive paths of `jobs`, in order.
pub open spec fn staged_paths(jobs: Seq<PackageJob>) -> Seq<Seq<char>> {
    jobs.map_values(|j: PackageJob| j.staging_path@)
}

impl Pipeline {
    pub closed spec fn staging(&self) -> Seq<char> {
        self.staging_dir@
    }

    pub closed spec fn job_list(&self) -> Seq<PackageJob> {
        self.jobs@
    }

    pub closed spec fn current(&self) -> Stage {
        self.stage
    }

    pub closed spec fn inv(&self) -> bool {
        self.stage matches Stage::RemoveFiles(i) ==> i < self.jobs@.len()
    }

    /// A group about to create its staging directory `staging_dir`.
    pub fn new(staging_dir: String, jobs: Vec<PackageJob>) -> (r: Pipeline)
        ensures
            r.inv(),
            r.staging() == staging_dir@,
            r.job_list() == jobs@,
            r.current() == Stage::CreateStaging,
    {
        Pipeline { staging_dir, jobs, stage: Stage::CreateStaging }
    }

    /// The step the group is at.
    pub fn stage(&self) -> (r: Stage)
        ensures
            r == self.current(),
    {
        self.stage
    }

    /// The group's jobs.
    pub fn jobs(&self) -> (r: &Vec<PackageJob>)
        ensures
            r@ == self.job_list(),
    {
        &self.jobs
    }

    /// The first action: create the staging directory.
    pub fn begin(&self) -> (r: Action)
        ensures
            r@ == ActionView::CreateStagingDir(self.staging()),
    {
        Action::CreateStagingDir(self.staging_dir.clone())
    }

    /// The downloads of the group, each URL into its staged file, to run with
    /// at most `ceiling` at once.
    pub fn downloads(&self, ceiling: usize) -> (r: DownloadRun)
        requires
            ceiling >= 1,
        ensures
            r.inv(),
            r.job_list().len() == self.job_list().len(),
            forall|i: int| 0 <= i < r.job_list().len() ==> listed(
                self.job_list()[i].url@,
                self.job_list()[i].file_name@,
                self.staging(),
                #[trigger] r.job_list()[i],
            ),
            r.state().is_fresh(r.job_list().len(), ceiling as nat),
    {
        let mut urls: Vec<String> = Vec::new();
        let mut names: Vec<String> = Vec::new();
        let mut i: usize = 0;
        while i < self.jobs.len()
            invariant
                i <= self.jobs@.len(),
                urls@.len() == i,
                names@.len() == i,
                forall|k: int| 0 <= k < i ==> (#[trigger] urls@[k])@ == self.jobs@[k].url@,
                forall|k: int| 0 <= k < i ==> (#[trigger] names@[k])@ == self.jobs@[k].file_name@,
            decreases self.jobs.len() - i,
        {
            urls.push(self.jobs[i].url.clone());
            names.push(self.jobs[i].file_name.clone());
            i = i + 1;
        }
        package_list(&urls, &names, self.staging_dir.as_str(), ceiling)
    }

    /// The extractions of the group, each staged file into its destination,
    /// to run with at most `ceiling` at once.
    pub fn extractions(&self, ceiling: usize) -> (r: ExtractRun)
        requires
            ceiling >= 1,
        ensures
            r.inv(),
            r.job_list().len() == self.job_list().len(),
            forall|i: int| 0 <= i < r.job_list().len() ==> {
                &&& (#[trigger] r.job_list()[i]).archive@ == self.job_list()[i].staging_path@
                &&& r.job_list()[i].destination@ == without_trailing_slash(self.job_list()[i].destination@)
            },
            r.state().is_fresh(r.job_list().len(), ceiling as nat),
    {
        let mut archives: Vec<String> = Vec::new();
        let mut destinations: Vec<String> = Vec::new();
        let mut i: usize = 0;
        while i < self.jobs.len()
            invariant
                i <= self.jobs@.len(),
                archives@.len() == i,
                destinations@.len() == i,
                forall|k: int| 0 <= k < i ==> (#[trigger] archives@[k])@ == self.jobs@[k].staging_path@,
                forall|k: int| 0 <= k < i ==> (#[trigger] destinations@[k])@ == self.jobs@[k].destination@,
            decreases self.jobs.len() - i,
        {
            archives.push(self.jobs[i].staging_path.clone());
            destinations.push(self.jobs[i].destination.clone());
            i = i + 1;
        }
        archive_list(&archives, &destinations, ceiling)
    }

    /// Takes how the last action ended and returns the next one.
    pub fn advance(&mut self, outcome: StepOutcome) -> (r: Action)
        requires
            old(self).inv(),
            !old(self).current().terminal(),
        ensures
            final(self).inv(),
            final(self).staging() == old(self).staging(),
            final(self).job_list() == old(self).job_list(),
            (final(self).current(), r@) == next_step(
                old(self).staging(),
                staged_paths(old(self).job_list()),
                old(self).current(),
                outcome,
            ),
    {
        let ghost staged = staged_paths(self.jobs@);
        let n = self.jobs.len();
        match outcome {
            StepOutcome::Succeeded => {
                let (stage, action) = match self.stage {
                    Stage::CreateStaging => (Stage::Download, Action::DownloadAll),
                    Stage::Download => (Stage::Extract, Action::ExtractAll),
                    Stage::Extract => {
                        if 0 < n {
                            (Stage::RemoveFiles(0), Action::RemoveStagedFile(self.jobs[0].staging_path.clone()))
                        } else {
                            (Stage::RemoveStaging, Action::RemoveStagingDir(self.staging_dir.clone()))
                        }
                    },
                    Stage::RemoveFiles(i) => {
                        if i + 1 < n {
                            (Stage::RemoveFiles(i + 1), Action::RemoveStagedFile(self.jobs[i + 1].staging_path.clone()))
                        } else {
                            (Stage::RemoveStaging, Action::RemoveStagingDir(self.staging_dir.clone()))
                        }
                    },
                    _ => (Stage::Done, Action::Finished(Ok(()))),
                };
                self.stage = stage;
                action
            },
            StepOutcome::AlreadyExists(m) => {
                let e = self.failure(true, m);
                self.stage = Stage::Aborted;
                Action::Finished(Err(e))
            },
            StepOutcome::Failed(m) => {
                let e = self.failure(false, m);
                self.stage = Stage::Aborted;
                Action::Finished(Err(e))
            },
        }
    }

    /// The error that ends the group when the current step fails with
    /// message `m`; `exists` tells that the directory to create was there.
    fn failure(&self, exists: bool, m: String) -> (r: PipelineError)
        ensures
            r@ == match self.current() {
                Stage::CreateStaging => if exists {
                    ErrorView::Conflict(m@)
                } else {
                    ErrorView::Staging(m@)
                },
                Stage::Download => ErrorView::Download(m@),
                Stage::Extract => ErrorView::Extraction(m@),
                Stage::RemoveStaging => ErrorView::StagingRemoval(m@),
                _ => ErrorView::Cleanup(m@),
            },
    {
        match self.stage {
            Stage::CreateStaging => {
                if exists {
                    PipelineError::Conflict(m)
                } else {
                    PipelineError::Staging(m)
                }
            },
            Stage::Download => PipelineError::Download(m),
            Stage::Extract => PipelineError::Extraction(m),
            Stage::RemoveStaging => PipelineError::StagingRemoval(m),
            _ => PipelineError::Cleanup(m),
        }
    }
}

} // verus!
