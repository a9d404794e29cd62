//! The typed model of a CI server's job state and the severity lattice that
//! folds a whole job list into one aggregate status.

use vstd::prelude::*;

verus! {

/// The server's per-job visual state: one base colour per severity class,
/// each with an `Anime` (build in progress) counterpart. At the aggregation
/// layer the `Anime` variants carry the same severity as their still
/// counterparts.
#[derive(Clone, Copy, Debug, PartialEq, Eq, Structural)]
pub enum Color {
    Red,
    RedAnime,
    Yellow,
    YellowAnime,
    Blue,
    BlueAnime,
    Grey,
    GreyAnime,
    Disabled,
    DisabledAnime,
    Aborted,
    AbortedAnime,
    NotBuilt,
    NotBuiltAnime,
}

/// Outcome of a job's most recent build attempt.
#[derive(Clone, Copy, Debug, PartialEq, Eq, Structural)]
pub enum BuildResult {
    Success,
    Unstable,
    Failure,
    NotBuilt,
    Aborted,
}

/// A job's most recent build: its number, its outcome (absent while the
/// server has not recorded one), and its start time in milliseconds since
/// the epoch.
#[derive(Clone, Copy, Debug, PartialEq, Eq, Structural)]
pub struct Build {
    pub number: u32,
    pub result: Option<BuildResult>,
    pub timestamp: u64,
}

/// One monitored job: its name, its current colour, and its most recent
/// build, if it ever built.
#[derive(Clone, Debug)]
pub struct Job {
    pub name: String,
    pub color: Color,
    pub last_build: Option<Build>,
}

impl Job {
    /// The timestamp a job contributes to recency comparisons: that of its
    /// last build, absent if it never built.
    pub open spec fn spec_build_timestamp(self) -> Option<u64> {
        match self.last_build {
            Some(b) => Some(b.timestamp),
            None => None,
        }
    }

    /// The timestamp used when two jobs of equal severity are compared:
    /// a job that never built counts as time zero.
    pub open spec fn spec_recency(self) -> u64 {
        match self.last_build {
            Some(b) => b.timestamp,
            None => 0u64,
        }
    }

    pub fn build_timestamp(&self) -> (r: Option<u64>)
        ensures
            r == self.spec_build_timestamp(),
    {
        match &self.last_build {
            Some(b) => Some(b.timestamp),
            None => None,
        }
    }
}

/// The aggregate health signal over a set of jobs. `Unstable` and `Failure`
/// carry the representative offending job, so a display can point at it.
#[derive(Clone, Debug)]
pub enum JenkinsStatus {
    Success,
    Unstable(Job),
    Failure(Job),
    NotBuilt,
    Unknown,
}

/// The severity rank that drives the merge:
/// `Failure > Unstable > Success > NotBuilt > Unknown`.
pub open spec fn spec_severity(s: JenkinsStatus) -> int {
    match s {
        JenkinsStatus::Unknown => 0,
        JenkinsStatus::NotBuilt => 1,
        JenkinsStatus::Success => 2,
        JenkinsStatus::Unstable(_) => 3,
        JenkinsStatus::Failure(_) => 4,
    }
}

/// The status a single job contributes: red means failing, yellow unstable,
/// blue passing, notbuilt not built, and every other colour (grey, disabled,
/// aborted) maps to `Unknown` by policy. An in-progress (`Anime`) colour
/// counts exactly as its still counterpart.
pub open spec fn spec_status_of(job: Job) -> JenkinsStatus {
    match job.color {
        Color::Red | Color::RedAnime => JenkinsStatus::Failure(job),
        Color::Yellow | Color::YellowAnime => JenkinsStatus::Unstable(job),
        Color::Blue | Color::BlueAnime => JenkinsStatus::Success,
        Color::NotBuilt | Color::NotBuiltAnime => JenkinsStatus::NotBuilt,
        _ => JenkinsStatus::Unknown,
    }
}

/// Of two jobs of equal severity, the one whose last build is newer wins;
/// on a tie the first (left) one is kept.
pub open spec fn spec_more_recent(job1: Job, job2: Job) -> Job {
    if job1.spec_recency() >= job2.spec_recency() {
        job1
    } else {
        job2
    }
}

/// The merge of two aggregate statuses: the one of strictly higher severity
/// wins; between two `Unstable` or two `Failure` the newer job is kept.
pub open spec fn spec_merge(a: JenkinsStatus, b: JenkinsStatus) -> JenkinsStatus {
    match a {
        JenkinsStatus::Unknown => b,
        JenkinsStatus::NotBuilt => match b {
            JenkinsStatus::Unknown => a,
            _ => b,
        },
        JenkinsStatus::Success => match b {
            JenkinsStatus::Unstable(_) | JenkinsStatus::Failure(_) => b,
            _ => a,
        },
        JenkinsStatus::Unstable(job1) => match b {
            JenkinsStatus::Failure(_) => b,
            JenkinsStatus::Unstable(job2) => JenkinsStatus::Unstable(
                spec_more_recent(job1, job2),
            ),
            _ => JenkinsStatus::Unstable(job1),
        },
        JenkinsStatus::Failure(job1) => match b {
            JenkinsStatus::Failure(job2) => JenkinsStatus::Failure(spec_more_recent(job1, job2)),
            _ => JenkinsStatus::Failure(job1),
        },
    }
}

/// The left-to-right fold of a job list through the merge, starting from
/// `Unknown`.
pub open spec fn spec_reduce(jobs: Seq<Job>) -> JenkinsStatus
    decreases jobs.len(),
{
    if jobs.len() == 0 {
        JenkinsStatus::Unknown
    } else {
        spec_merge(spec_reduce(jobs.drop_last()), spec_status_of(jobs.last()))
    }
}

impl JenkinsStatus {
    /// The singleton status of one job, as `spec_status_of` fixes it.
    pub fn from_job(job: Job) -> (r: JenkinsStatus)
        ensures
            r == spec_status_of(job),
    {
        match job.color {
            Color::Red | Color::RedAnime => JenkinsStatus::Failure(job),
            Color::Yellow | Color::YellowAnime => JenkinsStatus::Unstable(job),
            Color::Blue | Color::BlueAnime => JenkinsStatus::Success,
            Color::NotBuilt | Color::NotBuiltAnime => JenkinsStatus::NotBuilt,
            _ => JenkinsStatus::Unknown,
        }
    }

    /// Merge this status with another, worst case winning, as `spec_merge`
    /// fixes it.
    pub fn aggregate(self, other: JenkinsStatus) -> (r: JenkinsStatus)
        ensures
            r == spec_merge(self, other),
    {
        match self {
            JenkinsStatus::Unknown => other,
            JenkinsStatus::NotBuilt => match other {
                JenkinsStatus::Unknown => self,
                _ => other,
            },
            JenkinsStatus::Success => match other {
                JenkinsStatus::Unstable(_) | JenkinsStatus::Failure(_) => other,
                _ => self,
            },
            JenkinsStatus::Unstable(job1) => match other {
                JenkinsStatus::Failure(_) => other,
                JenkinsStatus::Unstable(job2) => JenkinsStatus::Unstable(
                    more_recent(job1, job2),
                ),
                _ => JenkinsStatus::Unstable(job1),
            },
            JenkinsStatus::Failure(job1) => match other {
                JenkinsStatus::Failure(job2) => JenkinsStatus::Failure(more_recent(job1, job2)),
                _ => JenkinsStatus::Failure(job1),
            },
        }
    }
}

/// Of two jobs, the one whose last build carries the larger timestamp; a job
/// that never built counts as time zero, and a tie keeps the first.
fn more_recent(job1: Job, job2: Job) -> (r: Job)
    ensures
        r == spec_more_recent(job1, job2),
{
    let t1 = match job1.build_timestamp() {
        Some(t) => t,
        None => 0,
    };
    let t2 = match job2.build_timestamp() {
        Some(t) => t,
        None => 0,
    };
    if t1 >= t2 {
        job1
    } else {
        job2
    }
}

/// Fold a whole job list into one aggregate status, starting from `Unknown`
/// and merging left to right; the empty list yields `Unknown`.
pub fn aggregate_status(jobs: Vec<Job>) -> (r: JenkinsStatus)
    ensures
        r == spec_reduce(jobs@),
{
    let mut state = JenkinsStatus::Unknown;
    let mut i: usize = 0;
    while i < jobs.len()
        invariant
            i <= jobs.len(),
            state == spec_reduce(jobs@.take(i as int)),
        decreases jobs.len() - i,
    {
        let next_state = JenkinsStatus::from_job(copy_job(&jobs[i]));
        state = state.aggregate(next_state);
        proof {
            assert(jobs@.take(i as int + 1).drop_last() =~= jobs@.take(i as int));
            assert(jobs@.take(i as int + 1).last() == jobs@[i as int]);
        }
        i = i + 1;
    }
    proof {
        assert(jobs@.take(jobs@.len() as int) =~= jobs@);
    }
    state
}

/// A field-wise copy of a job, equal to the original.
pub fn copy_job(job: &Job) -> (r: Job)
    ensures
        r == *job,
{
    Job { name: job.name.clone(), color: job.color, last_build: job.last_build }
}

/// A field-wise copy of a status, equal to the original.
pub fn copy_status(status: &JenkinsStatus) -> (r: JenkinsStatus)
    ensures
        r == *status,
{
    match status {
        JenkinsStatus::Success => JenkinsStatus::Success,
        JenkinsStatus::Unstable(job) => JenkinsStatus::Unstable(copy_job(job)),
        JenkinsStatus::Failure(job) => JenkinsStatus::Failure(copy_job(job)),
        JenkinsStatus::NotBuilt => JenkinsStatus::NotBuilt,
        JenkinsStatus::Unknown => JenkinsStatus::Unknown,
    }
}

impl PartialEq for JenkinsStatus {
    fn eq(&self, other: &JenkinsStatus) -> (r: bool) {
        match (self, other) {
            (JenkinsStatus::Success, JenkinsStatus::Success) => true,
            (JenkinsStatus::Unstable(a), JenkinsStatus::Unstable(b)) => a == b,
            (JenkinsStatus::Failure(a), JenkinsStatus::Failure(b)) => a == b,
            (JenkinsStatus::NotBuilt, JenkinsStatus::NotBuilt) => true,
            (JenkinsStatus::Unknown, JenkinsStatus::Unknown) => true,
            _ => false,
        }
    }
}

impl vstd::std_specs::cmp::PartialEqSpecImpl for JenkinsStatus {
    open spec fn obeys_eq_spec() -> bool {
        true
    }

    open spec fn eq_spec(&self, other: &JenkinsStatus) -> bool {
        match (self, other) {
            (JenkinsStatus::Success, JenkinsStatus::Success) => true,
            (JenkinsStatus::Unstable(a), JenkinsStatus::Unstable(b)) => spec_job_eq(a, b),
            (JenkinsStatus::Failure(a), JenkinsStatus::Failure(b)) => spec_job_eq(a, b),
            (JenkinsStatus::NotBuilt, JenkinsStatus::NotBuilt) => true,
            (JenkinsStatus::Unknown, JenkinsStatus::Unknown) => true,
            _ => false,
        }
    }
}

impl PartialEq for Job {
    fn eq(&self, other: &Job) -> (r: bool) {
        self.name == other.name && self.color == other.color && match (
            &self.last_build,
            &other.last_build,
        ) {
            (Some(a), Some(b)) => a == b,
            (None, None) => true,
            _ => false,
        }
    }
}

/// What equality of two jobs means: same name text, colour and last build.
pub open spec fn spec_job_eq(a: &Job, b: &Job) -> bool {
    a.name@ == b.name@ && a.color == b.color && a.last_build == b.last_build
}

impl vstd::std_specs::cmp::PartialEqSpecImpl for Job {
    open spec fn obeys_eq_spec() -> bool {
        true
    }

    open spec fn eq_spec(&self, other: &Job) -> bool {
        spec_job_eq(self, other)
    }
}

} // verus!
