//! The laws of the severity lattice: how the merge respects the severity
//! order, that a job's colour alone fixes its contribution, and that the
//! reduction of a job list is insensitive to the order of the list, up to
//! the identity of the retained job.

use vstd::prelude::*;

use crate::status::{
    spec_merge, spec_more_recent, spec_reduce, spec_severity, spec_status_of, Color, JenkinsStatus,
    Job,
};

verus! {

/// Reducing an empty job list yields `Unknown`.
pub proof fn lemma_reduce_empty()
    ensures
        spec_reduce(Seq::<Job>::empty()) is Unknown,
{
}

/// The merge follows the total severity order
/// `Failure > Unstable > Success > NotBuilt > Unknown`: the strictly more
/// severe operand wins outright; between two `Unstable` or two `Failure`
/// the job with the larger last-build timestamp is retained, a tie keeping
/// the left one; and between equal severities that carry no job the merge
/// is the left operand itself.
pub proof fn lemma_merge_total_order(a: JenkinsStatus, b: JenkinsStatus)
    ensures
        spec_severity(a) > spec_severity(b) ==> spec_merge(a, b) == a,
        spec_severity(b) > spec_severity(a) ==> spec_merge(a, b) == b,
        a matches JenkinsStatus::Unstable(j1) ==> b matches JenkinsStatus::Unstable(j2)
            ==> spec_merge(a, b) == JenkinsStatus::Unstable(spec_more_recent(j1, j2)),
        a matches JenkinsStatus::Failure(j1) ==> b matches JenkinsStatus::Failure(j2)
            ==> spec_merge(a, b) == JenkinsStatus::Failure(spec_more_recent(j1, j2)),
        a matches JenkinsStatus::Unstable(j1) ==> b matches JenkinsStatus::Unstable(j2)
            ==> j1.spec_recency() >= j2.spec_recency() ==> spec_merge(a, b)
            == JenkinsStatus::Unstable(j1),
        a matches JenkinsStatus::Failure(j1) ==> b matches JenkinsStatus::Failure(j2)
            ==> j1.spec_recency() < j2.spec_recency() ==> spec_merge(a, b)
            == JenkinsStatus::Failure(j2),
        spec_severity(a) == spec_severity(b) && spec_severity(a) <= 2 ==> spec_merge(a, b) == a,
{
}

/// A job's colour alone fixes its singleton status, totally and without
/// ambiguity: red means failure, yellow unstable, blue success, notbuilt
/// not built, and every remaining colour (grey, disabled, aborted) means
/// unknown — each with its in-progress counterpart counting the same.
pub proof fn lemma_status_of_total(job: Job)
    ensures
        job.color == Color::Red || job.color == Color::RedAnime <==> spec_status_of(job)
            == JenkinsStatus::Failure(job),
        job.color == Color::Yellow || job.color == Color::YellowAnime <==> spec_status_of(job)
            == JenkinsStatus::Unstable(job),
        job.color == Color::Blue || job.color == Color::BlueAnime <==> spec_status_of(job)
            is Success,
        job.color == Color::NotBuilt || job.color == Color::NotBuiltAnime <==> spec_status_of(job)
            is NotBuilt,
        job.color == Color::Grey || job.color == Color::GreyAnime || job.color == Color::Disabled
            || job.color == Color::DisabledAnime || job.color == Color::Aborted || job.color
            == Color::AbortedAnime <==> spec_status_of(job) is Unknown,
{
}

/// The still counterpart of a colour: the in-progress variants fold onto
/// their base colour, every other colour is itself.
pub open spec fn spec_still_color(c: Color) -> Color {
    match c {
        Color::RedAnime => Color::Red,
        Color::YellowAnime => Color::Yellow,
        Color::BlueAnime => Color::Blue,
        Color::GreyAnime => Color::Grey,
        Color::DisabledAnime => Color::Disabled,
        Color::AbortedAnime => Color::Aborted,
        Color::NotBuiltAnime => Color::NotBuilt,
        _ => c,
    }
}

/// An in-progress colour contributes exactly as its still counterpart:
/// the same severity and the same retained timestamp. Animation is a
/// display concern, not a severity distinction.
pub proof fn lemma_anime_class(job: Job)
    ensures
        spec_class(
            spec_status_of(
                Job { name: job.name, color: spec_still_color(job.color), last_build: job.last_build },
            ),
        ) == spec_class(spec_status_of(job)),
{
}

/// The observable class of an aggregate status: its severity rank and, for
/// the job-carrying ranks, the retained job's recency timestamp. Two
/// statuses of one class differ at most in which job instance they retain.
pub open spec fn spec_class(s: JenkinsStatus) -> (int, Option<u64>) {
    match s {
        JenkinsStatus::Unknown => (0int, None::<u64>),
        JenkinsStatus::NotBuilt => (1int, None::<u64>),
        JenkinsStatus::Success => (2int, None::<u64>),
        JenkinsStatus::Unstable(j) => (3int, Some(j.spec_recency())),
        JenkinsStatus::Failure(j) => (4int, Some(j.spec_recency())),
    }
}

/// The timestamp a class contributes to a recency comparison.
pub open spec fn spec_class_ts(c: (int, Option<u64>)) -> u64 {
    match c.1 {
        Some(t) => t,
        None => 0u64,
    }
}

/// The larger of two timestamps.
pub open spec fn spec_max_ts(a: u64, b: u64) -> u64 {
    if a >= b {
        a
    } else {
        b
    }
}

/// A class in canonical form: a timestamp is carried exactly by the
/// job-carrying ranks.
pub open spec fn spec_class_norm(c: (int, Option<u64>)) -> (int, Option<u64>) {
    (c.0, if c.0 >= 3 { Some(spec_class_ts(c)) } else { None::<u64> })
}

/// The merge, seen at the level of classes: the higher severity wins, and
/// equal job-carrying severities keep the larger timestamp.
pub open spec fn spec_class_merge(a: (int, Option<u64>), b: (int, Option<u64>)) -> (
    int,
    Option<u64>,
) {
    if a.0 > b.0 {
        spec_class_norm(a)
    } else if b.0 > a.0 {
        spec_class_norm(b)
    } else if a.0 >= 3 {
        (a.0, Some(spec_max_ts(spec_class_ts(a), spec_class_ts(b))))
    } else {
        (a.0, None::<u64>)
    }
}

/// One folding step at the class level: merge in the class of one more job.
pub open spec fn class_step_fn() -> spec_fn((int, Option<u64>), Job) -> (int, Option<u64>) {
    |c: (int, Option<u64>), j: Job| spec_class_merge(c, spec_class(spec_status_of(j)))
}

/// The class of a merge is the class-level merge of the classes: the class
/// abstraction commutes with the merge.
pub proof fn lemma_class_of_merge(a: JenkinsStatus, b: JenkinsStatus)
    ensures
        spec_class(spec_merge(a, b)) == spec_class_merge(spec_class(a), spec_class(b)),
{
}

/// The merge is commutative up to the recency tie-break: swapping the
/// operands can change at most which of two equally severe, equally recent
/// jobs is retained, never the severity or the retained timestamp.
pub proof fn lemma_merge_commutative(a: JenkinsStatus, b: JenkinsStatus)
    ensures
        spec_class(spec_merge(a, b)) == spec_class(spec_merge(b, a)),
{
}

/// The merge is associative up to the same allowance: regrouping three
/// operands never changes the severity or the retained timestamp.
pub proof fn lemma_merge_associative(a: JenkinsStatus, b: JenkinsStatus, c: JenkinsStatus)
    ensures
        spec_class(spec_merge(spec_merge(a, b), c)) == spec_class(
            spec_merge(a, spec_merge(b, c)),
        ),
{
}

/// The class-level folding step may be applied in either order: merging in
/// job `x` and then job `y` lands on the same class as the reverse.
pub proof fn lemma_class_step_commutative()
    ensures
        vstd::seq_lib::commutative_foldl(class_step_fn()),
{
    let f = class_step_fn();
    assert forall|x: Job, y: Job, v: (int, Option<u64>)| #[trigger] f(f(v, x), y) == f(
        f(v, y),
        x,
    ) by {
        assert(f(f(v, x), y) == f(f(v, y), x));
    }
}

/// The class of the reduction is the class-level fold of the job list.
pub proof fn lemma_reduce_class(jobs: Seq<Job>)
    ensures
        spec_class(spec_reduce(jobs)) == jobs.fold_left(
            (0int, None::<u64>),
            class_step_fn(),
        ),
    decreases jobs.len(),
{
    if jobs.len() > 0 {
        lemma_reduce_class(jobs.drop_last());
        lemma_class_of_merge(spec_reduce(jobs.drop_last()), spec_status_of(jobs.last()));
    }
}

/// Reducing any permutation of a job list yields the same class: the same
/// severity, and for the job-carrying severities the same retained
/// timestamp. Only which job instance of that timestamp is retained may
/// depend on the order; whenever the result carries no job it is the very
/// same status.
pub proof fn lemma_reduce_permutation(l1: Seq<Job>, l2: Seq<Job>)
    requires
        l1.to_multiset() == l2.to_multiset(),
    ensures
        spec_class(spec_reduce(l1)) == spec_class(spec_reduce(l2)),
        spec_severity(spec_reduce(l1)) <= 2 ==> spec_reduce(l1) == spec_reduce(l2),
{
    lemma_class_step_commutative();
    lemma_reduce_class(l1);
    lemma_reduce_class(l2);
    vstd::seq_lib::lemma_fold_left_permutation(l1, l2, class_step_fn(), (0int, None::<u64>));
}

/// The job a reduction retains is a job of the list, and its colour is the
/// one that put it in that class: a retained `Failure` job is red, a
/// retained `Unstable` job is yellow.
pub proof fn lemma_reduce_retained_job(jobs: Seq<Job>)
    ensures
        spec_reduce(jobs) matches JenkinsStatus::Unstable(j) ==> jobs.contains(j) && (j.color
            == Color::Yellow || j.color == Color::YellowAnime),
        spec_reduce(jobs) matches JenkinsStatus::Failure(j) ==> jobs.contains(j) && (j.color
            == Color::Red || j.color == Color::RedAnime),
    decreases jobs.len(),
{
    if jobs.len() > 0 {
        lemma_reduce_retained_job(jobs.drop_last());
        assert forall|x: Job| jobs.drop_last().contains(x) implies jobs.contains(x) by {
            let i = choose|i: int|
                0 <= i < jobs.drop_last().len() && jobs.drop_last()[i] == x;
            assert(jobs[i] == x);
        }
        assert(jobs[jobs.len() - 1] == jobs.last());
    }
}

} // verus!
