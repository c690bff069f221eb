use async_ssh2_lite::session::{first_accepted_identity, select_first_identity, ConfigStep};
use async_ssh2_lite::{get_session, Error, SessionConfiguration};

#[test]
fn new_configuration_has_every_field_absent() {
    let config = SessionConfiguration::new();
    assert_eq!(config.banner, None);
    assert_eq!(config.allow_sigpipe, None);
    assert_eq!(config.compress, None);
    assert_eq!(config.timeout_ms, None);
    assert_eq!(config.keepalive, None);
    assert_eq!(SessionConfiguration::default(), config);
}

#[test]
fn setters_store_their_field_and_leave_the_rest() {
    let mut config = SessionConfiguration::new();
    config.set_banner("SSH-2.0-testbanner");
    assert_eq!(config.banner.as_deref(), Some("SSH-2.0-testbanner"));
    assert_eq!(config.compress, None);
    config.set_allow_sigpipe(true);
    config.set_compress(true);
    config.set_timeout(5000);
    config.set_keepalive(true, 30);
    assert_eq!(config.banner.as_deref(), Some("SSH-2.0-testbanner"));
    assert_eq!(config.allow_sigpipe, Some(true));
    assert_eq!(config.compress, Some(true));
    assert_eq!(config.timeout_ms, Some(5000));
    let keepalive = config.keepalive.unwrap();
    assert!(keepalive.want_reply);
    assert_eq!(keepalive.interval, 30);
}

#[test]
fn full_configuration_yields_steps_in_fixed_order() {
    let mut config = SessionConfiguration::new();
    config.set_keepalive(false, 60);
    config.set_timeout(2500);
    config.set_compress(false);
    config.set_allow_sigpipe(true);
    config.set_banner("SSH-2.0-testbanner");
    let steps = config.configuration_steps();
    assert_eq!(
        steps,
        vec![
            ConfigStep::SetBanner("SSH-2.0-testbanner".to_string()),
            ConfigStep::SetAllowSigpipe(true),
            ConfigStep::SetCompress(false),
            ConfigStep::SetTimeout(2500),
            ConfigStep::SetKeepalive(false, 60),
        ]
    );
}

#[test]
fn absent_fields_yield_no_steps() {
    let config = SessionConfiguration::new();
    assert!(config.configuration_steps().is_empty());

    let mut config = SessionConfiguration::new();
    config.set_timeout(1000);
    assert_eq!(
        config.configuration_steps(),
        vec![ConfigStep::SetTimeout(1000)]
    );
}

#[test]
fn empty_identity_list_is_a_distinguishable_usage_error() {
    let identities: Vec<String> = Vec::new();
    match select_first_identity(identities) {
        Err(Error::Other(message)) => {
            assert_eq!(message, "no identities found in the ssh agent");
        }
        other => panic!("expected the no-identities error, got {:?}", other),
    }
}

#[test]
fn the_first_listed_identity_is_selected() {
    let identities = vec!["key-a".to_string(), "key-b".to_string()];
    assert_eq!(select_first_identity(identities), Ok("key-a".to_string()));
}

#[test]
fn try_next_takes_the_first_identity_that_authenticates() {
    assert_eq!(first_accepted_identity(&vec![false, true, true]), Ok(1));
    assert_eq!(first_accepted_identity(&vec![true]), Ok(0));
}

#[test]
fn try_next_reports_when_every_identity_fails() {
    match first_accepted_identity(&vec![false, false]) {
        Err(Error::Other(message)) => {
            assert_eq!(message, "all identities cannot authenticated");
        }
        other => panic!("expected the all-identities error, got {:?}", other),
    }
    match first_accepted_identity(&Vec::new()) {
        Err(Error::Other(message)) => {
            assert_eq!(message, "no identities found in the ssh agent");
        }
        other => panic!("expected the no-identities error, got {:?}", other),
    }
}

#[test]
fn get_session_builds_a_non_blocking_engine_instance() {
    let session = get_session(None).expect("engine initialization");
    assert!(!session.is_blocking());
}

#[test]
fn get_session_applies_the_configuration() {
    let mut config = SessionConfiguration::new();
    config.set_banner("SSH-2.0-testbanner");
    config.set_compress(true);
    config.set_timeout(5000);
    config.set_keepalive(true, 30);
    let session = get_session(Some(config)).expect("engine initialization");
    assert!(!session.is_blocking());
    assert_eq!(session.timeout(), 5000);
}
