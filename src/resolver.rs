use vstd::prelude::*;
use crate::paths::{join_path, join_relative, joined, path_joined};

verus! {

/// Why a directory could not be resolved.
#[derive(Clone, Debug, PartialEq, Eq)]
pub enum ResolveError {
    /// No walk of any volume found the install directory.
    NotFound,
    /// The named environment variable is not set.
    MissingVariable(String),
    /// The platform's temporary directory is not valid text.
    TempUnavailable,
}


/// The text of a resolution error.
pub open spec fn resolve_error_text(e: ResolveError) -> Seq<char> {
    match e {
        ResolveError::NotFound => "Could not find game directory."@,
        ResolveError::MissingVariable(v) => v@ + " environment variable not found"@,
        ResolveError::TempUnavailable => "Failed to obtain temporary directory path"@,
    }
}

impl ResolveError {
    /// A one-line description of the error for the operator.
    pub fn message(&self) -> (r: String)
        ensures
            r@ == resolve_error_text(*self),
    {
        match self {
            ResolveError::NotFound => String::from_str("Could not find game directory."),
            ResolveError::MissingVariable(v) => v.clone().concat(" environment variable not found"),
            ResolveError::TempUnavailable => String::from_str("Failed to obtain temporary directory path"),
        }
    }
}

/// The first match among walk outcomes, in the order the walks completed.
pub open spec fn first_match(reports: Seq<Option<Seq<char>>>) -> Option<Seq<char>>
    decreases reports.len(),
{
    if reports.len() == 0 {
        None
    } else if reports[0] is Some {
        reports[0]
    } else {
        first_match(reports.drop_first())
    }
}

/// A walk's outcome as text.
pub open spec fn outcome_view(o: Option<String>) -> Option<Seq<char>> {
    match o {
        Some(p) => Some(p@),
        None => None,
    }
}

/// Walk outcomes as text, in order.
pub open spec fn outcomes_view(os: Seq<Option<String>>) -> Seq<Option<Seq<char>>> {
    os.map_values(|o: Option<String>| outcome_view(o))
}

/// The install directory that a walk tests when it visits `dir`.
pub open spec fn candidate(dir: Seq<char>, relative: Seq<char>) -> Seq<char> {
    joined(dir, relative)
}

/// Where the search stands.
#[derive(Clone, Debug, PartialEq, Eq)]
pub enum SearchStatus {
    /// No match yet, and some walk has not reported.
    Pending,
    /// The first match reported.
    Found(String),
    /// Every walk reported, none with a match.
    NotFound,
}

/// Rendezvous for the concurrent walks of the volumes: each walk reports once,
/// in the order the walks complete; the first match reported wins and no later
/// report replaces it.
pub struct FirstMatch {
    volumes: usize,
    reported: usize,
    winner: Option<String>,
    reports: Ghost<Seq<Option<Seq<char>>>>,
}

impl FirstMatch {
    /// The number of walks expected.
    pub closed spec fn volumes(&self) -> nat {
        self.volumes as nat
    }

    /// The outcomes reported so far, in order of arrival.
    pub closed spec fn reports(&self) -> Seq<Option<Seq<char>>> {
        self.reports@
    }

    pub closed spec fn inv(&self) -> bool {
        &&& self.reports@.len() == self.reported
        &&& self.reported <= self.volumes
        &&& match self.winner {
            Some(w) => first_match(self.reports@) == Some(w@),
            None => first_match(self.reports@) is None,
        }
    }

    /// A search over `volumes` walks, none reported.
    pub fn new(volumes: usize) -> (r: FirstMatch)
        ensures
            r.inv(),
            r.volumes() == volumes,
            r.reports() == Seq::<Option<Seq<char>>>::empty(),
    {
        FirstMatch { volumes, reported: 0, winner: None, reports: Ghost(Seq::empty()) }
    }

    /// Whether every walk has reported.
    pub fn is_complete(&self) -> (r: bool)
        requires
            self.inv(),
        ensures
            r == (self.reports().len() == self.volumes()),
    {
        self.reported == self.volumes
    }

    /// Records the outcome of one walk: the match it found, or `None`.
    pub fn report(&mut self, outcome: Option<String>)
        requires
            old(self).inv(),
            old(self).reports().len() < old(self).volumes(),
        ensures
            final(self).inv(),
            final(self).volumes() == old(self).volumes(),
            final(self).reports() == old(self).reports().push(
                outcome_view(outcome),
            ),
    {
        let ghost o = outcome_view(outcome);
        proof {
            lemma_first_match_push(self.reports@, o);
        }
        if self.winner.is_none() {
            self.winner = outcome;
        }
        self.reported = self.reported + 1;
        self.reports = Ghost(self.reports@.push(o));
    }

    /// The winner once some walk has found a match; `NotFound` once every walk
    /// has reported without one; `Pending` otherwise.
    pub fn status(&self) -> (r: SearchStatus)
        requires
            self.inv(),
        ensures
            first_match(self.reports()) matches Some(w) ==> (r matches SearchStatus::Found(p)
                && p@ == w),
            first_match(self.reports()) is None && self.reports().len() == self.volumes() ==> r
                is NotFound,
            first_match(self.reports()) is None && self.reports().len() < self.volumes() ==> r
                is Pending,
    {
        match &self.winner {
            Some(w) => SearchStatus::Found(w.clone()),
            None => {
                if self.reported == self.volumes {
                    SearchStatus::NotFound
                } else {
                    SearchStatus::Pending
                }
            },
        }
    }
}

proof fn lemma_first_match_push(s: Seq<Option<Seq<char>>>, o: Option<Seq<char>>)
    ensures
        first_match(s.push(o)) == if first_match(s) is Some {
            first_match(s)
        } else {
            o
        },
    decreases s.len(),
{
    assert(s.push(o).len() > 0);
    if s.len() == 0 {
        assert(s.push(o)[0] == o);
        assert(s.push(o).drop_first() =~= Seq::<Option<Seq<char>>>::empty());
        assert(first_match(s.push(o).drop_first()) is None);
        assert(first_match(s) is None);
    } else {
        assert(s.push(o)[0] == s[0]);
        assert(s.push(o).drop_first() =~= s.drop_first().push(o));
        lemma_first_match_push(s.drop_first(), o);
    }
}

/// When no walk finds a match, the search ends `NotFound` after every
/// volume has reported exactly once, and not before.
pub proof fn lemma_no_match_not_found(reports: Seq<Option<Seq<char>>>)
    requires
        forall|i: int| 0 <= i < reports.len() ==> reports[i] is None,
    ensures
        first_match(reports) is None,
    decreases reports.len(),
{
    if reports.len() > 0 {
        lemma_no_match_not_found(reports.drop_first());
    }
}

/// When exactly one walk finds a match, the search resolves to that match,
/// wherever its walk stands among the reports.
pub proof fn lemma_single_match_wins(reports: Seq<Option<Seq<char>>>, k: int)
    requires
        0 <= k < reports.len(),
        reports[k] is Some,
        forall|i: int| 0 <= i < reports.len() && i != k ==> reports[i] is None,
    ensures
        first_match(reports) == reports[k],
    decreases reports.len(),
{
    if k > 0 {
        lemma_single_match_wins(reports.drop_first(), k - 1);
    }
}

/// Resolves the install directory from the outcomes of the walks of all
/// volumes, taken in the order the walks completed: the first match, or
/// `NotFound` when no walk found one.
pub fn find_game_directory(outcomes: &Vec<Option<String>>) -> (r: Result<String, ResolveError>)
    ensures
        first_match(outcomes_view(outcomes@)) matches Some(w) ==> (r matches Ok(p) && p@ == w),
        first_match(outcomes_view(outcomes@)) is None ==> r == Err::<String, ResolveError>(ResolveError::NotFound),
{
    let ghost view = outcomes_view(outcomes@);
    let mut search = FirstMatch::new(outcomes.len());
    let mut i: usize = 0;
    while i < outcomes.len()
        invariant
            i <= outcomes.len(),
            view == outcomes_view(outcomes@),
            view.len() == outcomes@.len(),
            search.inv(),
            search.volumes() == outcomes.len(),
            search.reports() == view.take(i as int),
        decreases outcomes.len() - i,
    {
        let o = match &outcomes[i] {
            Some(p) => Some(p.clone()),
            None => None,
        };
        search.report(o);
        proof {
            assert(view.take(i + 1) =~= view.take(i as int).push(view[i as int]));
        }
        i = i + 1;
    }
    assert(view.take(i as int) =~= view);
    match search.status() {
        SearchStatus::Found(p) => Ok(p),
        _ => Err(ResolveError::NotFound),
    }
}

/// The path a walk tests when it visits directory `dir`: `dir/relative`.
pub fn candidate_directory(dir: &str, relative: &str) -> (r: String)
    ensures
        r@ == candidate(dir@, relative@),
{
    join_path(dir, relative)
}

/// The path of the marker file inside a candidate directory.
pub fn marker_path(dir: &str, marker: &str) -> (r: String)
    ensures
        r@ == joined(dir@, marker@),
{
    join_path(dir, marker)
}

/// A directory is an install directory when it exists and holds the marker
/// file; the caller probes both paths (`dir` and `marker_path(dir, marker)`).
pub fn is_game_directory(dir_exists: bool, marker_exists: bool) -> (r: bool)
    ensures
        r == (dir_exists && marker_exists),
{
    dir_exists && marker_exists
}

/// The desktop directory: `Desktop` placed under the home variable's value
/// by the platform's path join (`separator` is the platform's separator);
/// `MissingVariable` naming the variable when it is unset.
pub fn get_desktop_directory(variable: &str, home: Option<String>, separator: &str) -> (r: Result<String, ResolveError>)
    requires
        separator@.len() == 1,
    ensures
        home matches Some(h) ==> (r matches Ok(p) && p@ == path_joined(h@, "Desktop"@, separator@[0])),
        home is None ==> (r matches Err(ResolveError::MissingVariable(v)) && v@ == variable@),
{
    match home {
        Some(h) => Ok(join_relative(h.as_str(), "Desktop", separator)),
        None => Err(ResolveError::MissingVariable(String::from_str(variable))),
    }
}

/// The platform's temporary directory, when it is valid text.
pub fn get_temp_directory(temp: Option<String>) -> (r: Result<String, ResolveError>)
    ensures
        temp matches Some(t) ==> (r matches Ok(p) && p@ == t@),
        temp is None ==> r == Err::<String, ResolveError>(ResolveError::TempUnavailable),
{
    match temp {
        Some(t) => Ok(t),
        None => Err(ResolveError::TempUnavailable),
    }
}

} // verus!
