use rime_api::{
    finalize, full_deploy_begin, initialize, notify, set_notification_handler, setup,
    start_maintenance, DeployResult, EngineState, Error, Traits,
};

#[test]
fn fresh_state_has_no_deploy_result() {
    let st = EngineState::new();
    assert_eq!(st.deploy_result(), None);
    assert!(!st.setup_done);
    assert!(!st.initialized);
    assert!(!st.maintenance_running);
}

#[test]
fn setup_initialize_maintenance_order() {
    let mut st = EngineState::new();
    let traits = Traits::new();
    setup(&mut st, &traits);
    assert!(st.setup_done);
    initialize(&mut st, &traits);
    assert!(st.initialized);
    assert!(st.handler_registered);
    let started = start_maintenance(&mut st, true, true);
    assert!(started.is_ok());
    assert!(st.maintenance_running);
}

#[test]
fn maintenance_rejection_is_reported() {
    let mut st = EngineState::new();
    let traits = Traits::new();
    setup(&mut st, &traits);
    initialize(&mut st, &traits);
    let started = start_maintenance(&mut st, true, false);
    assert_eq!(started, Err(Error::StartMaintenance));
    assert!(!st.maintenance_running);
}

#[test]
fn deploy_success_notification_records_success() {
    let mut st = EngineState::new();
    notify(&mut st, "deploy", "success");
    assert_eq!(st.deploy_result(), Some(DeployResult::Success));
}

#[test]
fn deploy_failure_notification_records_failure() {
    let mut st = EngineState::new();
    notify(&mut st, "deploy", "failure");
    assert_eq!(st.deploy_result(), Some(DeployResult::Failure));
}

#[test]
fn garbage_deploy_value_changes_nothing() {
    let mut st = EngineState::new();
    notify(&mut st, "deploy", "success");
    notify(&mut st, "deploy", "garbage");
    assert_eq!(st.deploy_result(), Some(DeployResult::Success));
    let mut fresh = EngineState::new();
    notify(&mut fresh, "deploy", "garbage");
    assert_eq!(fresh.deploy_result(), None);
}

#[test]
fn other_category_never_touches_result() {
    let mut st = EngineState::new();
    notify(&mut st, "other", "success");
    notify(&mut st, "schema", "failure");
    assert_eq!(st.deploy_result(), None);
    notify(&mut st, "deploy", "failure");
    notify(&mut st, "other", "success");
    assert_eq!(st.deploy_result(), Some(DeployResult::Failure));
}

#[test]
fn notification_ends_maintenance_run() {
    let mut st = EngineState::new();
    let traits = Traits::new();
    setup(&mut st, &traits);
    initialize(&mut st, &traits);
    start_maintenance(&mut st, true, true).expect("maintenance accepted");
    assert!(st.maintenance_running);
    notify(&mut st, "deploy", "success");
    assert!(!st.maintenance_running);
}

#[test]
fn forwarding_follows_installed_observer() {
    let mut st = EngineState::new();
    assert!(!notify(&mut st, "deploy", "success"));
    set_notification_handler(&mut st);
    assert!(notify(&mut st, "deploy", "failure"));
}

#[test]
fn full_deploy_resets_slot_and_waits() {
    let mut st = EngineState::new();
    let traits = Traits::new();
    setup(&mut st, &traits);
    initialize(&mut st, &traits);
    notify(&mut st, "deploy", "failure");
    assert_eq!(st.deploy_result(), Some(DeployResult::Failure));
    let immediate = full_deploy_begin(&mut st, true);
    assert_eq!(immediate, None);
    assert_eq!(st.deploy_result(), None);
    notify(&mut st, "deploy", "success");
    assert_eq!(st.deploy_result(), Some(DeployResult::Success));
}

#[test]
fn full_deploy_rejection_fails_fast() {
    let mut st = EngineState::new();
    let immediate = full_deploy_begin(&mut st, false);
    assert_eq!(immediate, Some(DeployResult::Failure));
}

#[test]
fn finalize_releases_global_state() {
    let mut st = EngineState::new();
    let traits = Traits::new();
    setup(&mut st, &traits);
    initialize(&mut st, &traits);
    notify(&mut st, "deploy", "success");
    finalize(&mut st);
    assert!(!st.initialized);
    assert!(!st.maintenance_running);
    assert_eq!(st.deploy_result(), None);
    assert!(st.setup_done);
    assert!(st.handler_registered);
}

#[test]
fn error_names_render() {
    assert_eq!(Error::StartMaintenance.describe(), "StartMaintenance");
    assert_eq!(Error::CStringNul.describe(), "CStringNul");
    assert_eq!(Error::SessionNotExists.describe(), "SessionNotExists");
}
