use jenkins_tray::{aggregate_status, Build, BuildResult, Color, JenkinsStatus, Job};

fn job(name: &str, color: Color, ts: Option<u64>) -> Job {
    Job {
        name: name.to_string(),
        color,
        last_build: ts.map(|t| Build { number: 1, result: Some(BuildResult::Success), timestamp: t }),
    }
}

#[test]
fn aggregate_status_no_job() {
    assert_eq!(JenkinsStatus::Unknown, aggregate_status(Vec::new()));
}

#[test]
fn aggregate_status_one_job() {
    let job = Job {
        name: "test".to_string(),
        color: Color::NotBuilt,
        last_build: None,
    };
    let jobs = vec![job];
    assert_eq!(JenkinsStatus::NotBuilt, aggregate_status(jobs));
}

#[test]
fn build_timestamp_of_built_job() {
    assert_eq!(job("a", Color::Blue, Some(42)).build_timestamp(), Some(42));
    assert_eq!(job("a", Color::Blue, None).build_timestamp(), None);
}

#[test]
fn merge_severity_order() {
    let failure = job("f", Color::Red, Some(10));
    let unstable = job("u", Color::Yellow, Some(10));

    // Failure > Unstable > Success > NotBuilt > Unknown, in both operand orders.
    let f = JenkinsStatus::Failure(failure.clone());
    let u = JenkinsStatus::Unstable(unstable.clone());
    assert_eq!(f.clone().aggregate(u.clone()), f);
    assert_eq!(u.clone().aggregate(f.clone()), f);
    assert_eq!(u.clone().aggregate(JenkinsStatus::Success), u);
    assert_eq!(JenkinsStatus::Success.aggregate(u.clone()), u);
    assert_eq!(
        JenkinsStatus::Success.aggregate(JenkinsStatus::NotBuilt),
        JenkinsStatus::Success
    );
    assert_eq!(
        JenkinsStatus::NotBuilt.aggregate(JenkinsStatus::Success),
        JenkinsStatus::Success
    );
    assert_eq!(
        JenkinsStatus::NotBuilt.aggregate(JenkinsStatus::Unknown),
        JenkinsStatus::NotBuilt
    );
    assert_eq!(
        JenkinsStatus::Unknown.aggregate(JenkinsStatus::NotBuilt),
        JenkinsStatus::NotBuilt
    );
    assert_eq!(
        JenkinsStatus::Unknown.aggregate(JenkinsStatus::Unknown),
        JenkinsStatus::Unknown
    );
}

#[test]
fn merge_equal_severity_keeps_newer_job() {
    let older = job("older", Color::Red, Some(50));
    let newer = job("newer", Color::Red, Some(200));
    let merged = JenkinsStatus::Failure(older.clone()).aggregate(JenkinsStatus::Failure(newer.clone()));
    assert_eq!(merged, JenkinsStatus::Failure(newer.clone()));
    let merged = JenkinsStatus::Failure(newer.clone()).aggregate(JenkinsStatus::Failure(older.clone()));
    assert_eq!(merged, JenkinsStatus::Failure(newer));
}

#[test]
fn merge_equal_severity_tie_keeps_left() {
    let left = job("left", Color::Yellow, Some(100));
    let right = job("right", Color::Yellow, Some(100));
    let merged = JenkinsStatus::Unstable(left.clone()).aggregate(JenkinsStatus::Unstable(right));
    assert_eq!(merged, JenkinsStatus::Unstable(left));
}

#[test]
fn merge_never_built_counts_as_time_zero() {
    let never = job("never", Color::Red, None);
    let once = job("once", Color::Red, Some(1));
    let merged = JenkinsStatus::Failure(never.clone()).aggregate(JenkinsStatus::Failure(once.clone()));
    assert_eq!(merged, JenkinsStatus::Failure(once));
}

#[test]
fn reduce_blue_and_yellow_is_unstable() {
    let passing = job("passing", Color::Blue, None);
    let flaky = job("flaky", Color::Yellow, Some(100));
    let status = aggregate_status(vec![passing, flaky.clone()]);
    assert_eq!(status, JenkinsStatus::Unstable(flaky));
}

#[test]
fn reduce_two_failures_keeps_newest() {
    let old_failure = job("old", Color::Red, Some(50));
    let new_failure = job("new", Color::Red, Some(200));
    let status = aggregate_status(vec![old_failure, new_failure.clone()]);
    assert_eq!(status, JenkinsStatus::Failure(new_failure));
}

#[test]
fn reduce_grey_and_notbuilt_is_notbuilt() {
    let grey = job("grey", Color::Grey, None);
    let fresh = job("fresh", Color::NotBuilt, None);
    assert_eq!(aggregate_status(vec![grey, fresh]), JenkinsStatus::NotBuilt);
}

#[test]
fn anime_colors_count_as_their_still_counterpart() {
    let running = job("running", Color::RedAnime, Some(7));
    let status = aggregate_status(vec![running.clone()]);
    assert_eq!(status, JenkinsStatus::Failure(running));

    let building = job("building", Color::NotBuiltAnime, None);
    assert_eq!(aggregate_status(vec![building]), JenkinsStatus::NotBuilt);
}

#[test]
fn reduce_order_changes_only_the_retained_instance() {
    let a = job("a", Color::Red, Some(200));
    let b = job("b", Color::Red, Some(200));
    let c = job("c", Color::Yellow, Some(500));

    // Same multiset, both orders: a failure retaining timestamp 200, only
    // the retained instance may differ.
    let left = aggregate_status(vec![a.clone(), b.clone(), c.clone()]);
    let right = aggregate_status(vec![c, b, a]);
    match (&left, &right) {
        (JenkinsStatus::Failure(x), JenkinsStatus::Failure(y)) => {
            assert_eq!(x.build_timestamp(), Some(200));
            assert_eq!(y.build_timestamp(), Some(200));
        }
        _ => panic!("both orders must reduce to a failure"),
    }
    assert_eq!(left, JenkinsStatus::Failure(job("a", Color::Red, Some(200))));
    assert_eq!(right, JenkinsStatus::Failure(job("b", Color::Red, Some(200))));
}

#[test]
fn every_color_maps_to_exactly_one_status() {
    let cases = [
        (Color::Red, JenkinsStatus::Failure(job("j", Color::Red, None))),
        (Color::RedAnime, JenkinsStatus::Failure(job("j", Color::RedAnime, None))),
        (Color::Yellow, JenkinsStatus::Unstable(job("j", Color::Yellow, None))),
        (Color::YellowAnime, JenkinsStatus::Unstable(job("j", Color::YellowAnime, None))),
        (Color::Blue, JenkinsStatus::Success),
        (Color::BlueAnime, JenkinsStatus::Success),
        (Color::Grey, JenkinsStatus::Unknown),
        (Color::GreyAnime, JenkinsStatus::Unknown),
        (Color::Disabled, JenkinsStatus::Unknown),
        (Color::DisabledAnime, JenkinsStatus::Unknown),
        (Color::Aborted, JenkinsStatus::Unknown),
        (Color::AbortedAnime, JenkinsStatus::Unknown),
        (Color::NotBuilt, JenkinsStatus::NotBuilt),
        (Color::NotBuiltAnime, JenkinsStatus::NotBuilt),
    ];
    for (color, expected) in cases {
        assert_eq!(JenkinsStatus::from_job(job("j", color, None)), expected);
    }
}

#[test]
fn disabled_and_aborted_map_to_unknown() {
    for color in [Color::Grey, Color::GreyAnime, Color::Disabled, Color::DisabledAnime,
        Color::Aborted, Color::AbortedAnime]
    {
        let j = job("idle", color, Some(3));
        assert_eq!(aggregate_status(vec![j]), JenkinsStatus::Unknown);
    }
}
