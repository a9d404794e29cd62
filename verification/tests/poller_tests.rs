use jenkins_tray::client::{poll_url, wants_basic_auth};
use jenkins_tray::poller::cycle_status;
use jenkins_tray::{Color, JenkinsConfig, JenkinsError, JenkinsStatus, Job, Outbox, TrayStatus};

fn failing_job() -> Job {
    Job { name: "broken".to_string(), color: Color::Red, last_build: None }
}

#[test]
fn fresh_outbox_is_empty() {
    let mut outbox = Outbox::new();
    assert_eq!(outbox.latest(), None);
}

#[test]
fn latest_consumes_the_value() {
    let mut outbox = Outbox::new();
    outbox.publish(JenkinsStatus::Success);
    assert_eq!(outbox.latest(), Some(JenkinsStatus::Success));
    assert_eq!(outbox.latest(), None);
}

#[test]
fn publish_overwrites_unconsumed_value() {
    let mut outbox = Outbox::new();
    outbox.publish(JenkinsStatus::Success);
    outbox.publish(JenkinsStatus::Failure(failing_job()));
    assert_eq!(outbox.latest(), Some(JenkinsStatus::Failure(failing_job())));
    assert_eq!(outbox.latest(), None);
}

#[test]
fn failed_cycle_leaves_outbox_untouched() {
    let mut outbox = Outbox::new();
    outbox.publish(JenkinsStatus::Success);
    outbox.apply_cycle(Err(JenkinsError::TransportError));
    assert_eq!(outbox.latest(), Some(JenkinsStatus::Success));

    // A subsequent successful cycle still publishes correctly.
    outbox.apply_cycle(Ok(vec![failing_job()]));
    assert_eq!(outbox.latest(), Some(JenkinsStatus::Failure(failing_job())));
}

#[test]
fn cycle_status_reduces_successful_fetches() {
    assert_eq!(cycle_status(Err(JenkinsError::TransportError)), None);
    assert_eq!(cycle_status(Ok(Vec::new())), Some(JenkinsStatus::Unknown));
    assert_eq!(
        cycle_status(Ok(vec![failing_job()])),
        Some(JenkinsStatus::Failure(failing_job()))
    );
}

#[test]
fn poll_url_joins_the_fixed_query() {
    let url = poll_url("https://ci.example.com/").unwrap();
    assert_eq!(
        url,
        "https://ci.example.com/api/json?tree=jobs[name,color,lastBuild[number,result,timestamp]]"
    );
}

#[test]
fn poll_url_rejects_a_malformed_base() {
    assert_eq!(poll_url("not a url"), Err(JenkinsError::UrlError));
    assert_eq!(poll_url(""), Err(JenkinsError::UrlError));
}

#[test]
fn basic_auth_needs_both_credentials() {
    let user = Some("username".to_string());
    let token = Some("token".to_string());
    assert!(wants_basic_auth(&user, &token));
    assert!(!wants_basic_auth(&user, &None));
    assert!(!wants_basic_auth(&None, &token));
    assert!(!wants_basic_auth(&None, &None));
}

#[test]
fn config_credentials_need_both_parts() {
    let mut config = JenkinsConfig {
        url: "https://ci.example.com/".to_string(),
        user: Some("username".to_string()),
        access_token: Some("token".to_string()),
        name: None,
    };
    assert!(config.has_credentials());
    config.access_token = None;
    assert!(!config.has_credentials());
}

#[test]
fn tray_status_mirrors_the_aggregate() {
    assert_eq!(TrayStatus::from(JenkinsStatus::Success), TrayStatus::Success);
    assert_eq!(
        TrayStatus::from(JenkinsStatus::Unstable(failing_job())),
        TrayStatus::Unstable
    );
    assert_eq!(
        TrayStatus::from(JenkinsStatus::Failure(failing_job())),
        TrayStatus::Failure
    );
    assert_eq!(TrayStatus::from(JenkinsStatus::NotBuilt), TrayStatus::NotBuilt);
    assert_eq!(TrayStatus::from(JenkinsStatus::Unknown), TrayStatus::Unknown);
}

#[test]
fn tray_status_icon_names() {
    assert_eq!(TrayStatus::Unknown.icon_name(), "grey.png");
    assert_eq!(TrayStatus::NotBuilt.icon_name(), "grey.png");
    assert_eq!(TrayStatus::Success.icon_name(), "blue.png");
    assert_eq!(TrayStatus::Unstable.icon_name(), "yellow.png");
    assert_eq!(TrayStatus::Failure.icon_name(), "red.png");
}

#[test]
fn tray_status_descriptions() {
    assert_eq!(TrayStatus::Unknown.desc(), "Unknown");
    assert_eq!(TrayStatus::Success.desc(), "Success");
    assert_eq!(TrayStatus::Unstable.desc(), "Unstable");
    assert_eq!(TrayStatus::Failure.desc(), "Failure");
    assert_eq!(TrayStatus::NotBuilt.desc(), "NotBuilt");
}
