use matrix_notify::config::ConfigInfo;
use matrix_notify::error::Error;

#[test]
fn a_configuration_keeps_its_entries() {
    let config = ConfigInfo::new(
        "compute-notify".to_string(),
        "hunter2".to_string(),
        "https://matrix.org".to_string(),
        "@compute-notify:matrix.org",
    )
    .expect("a configuration");
    assert_eq!(config.matrix_username, "compute-notify");
    assert_eq!(config.matrix_password, "hunter2");
    assert_eq!(config.homeserver_url, "https://matrix.org");
    assert_eq!(config.matrix_id.as_str(), "@compute-notify:matrix.org");
}

#[test]
fn a_configuration_needs_a_user_id() {
    let refused = ConfigInfo::new(
        "compute-notify".to_string(),
        "hunter2".to_string(),
        "https://matrix.org".to_string(),
        "compute-notify",
    );
    match refused {
        Err(Error::SerdeError(said)) => assert!(!said.is_empty()),
        other => panic!("not refused as a configuration: {:?}", other),
    }
}
