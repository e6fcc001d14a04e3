use rime_api::{
    create_session, initialize, invalidate_session, notify, setup, DeployResult, Engine,
    EngineState, Error, KeyEvent, KeyStatus, Traits,
};

fn running_state() -> EngineState {
    let mut st = EngineState::new();
    let traits = Traits::new();
    setup(&mut st, &traits);
    initialize(&mut st, &traits);
    st
}

#[test]
fn create_fails_before_initialization() {
    let mut st = EngineState::new();
    assert_eq!(create_session(&mut st, true), Err(Error::CreateSession));
}

#[test]
fn create_fails_on_dead_native_handle() {
    let mut st = running_state();
    assert_eq!(create_session(&mut st, false), Err(Error::CreateSession));
}

#[test]
fn probe_is_true_after_create_and_false_after_close() {
    let mut st = running_state();
    let mut session = create_session(&mut st, true).expect("creation succeeds");
    assert!(session.find_session(&st));
    session.close(&mut st).expect("close succeeds");
    assert!(!session.find_session(&st));
}

#[test]
fn second_close_is_a_noop() {
    let mut st = running_state();
    let mut session = create_session(&mut st, true).expect("creation succeeds");
    assert_eq!(session.close(&mut st), Ok(()));
    let live_after_first = st.live_sessions.len();
    assert_eq!(session.close(&mut st), Ok(()));
    assert_eq!(st.live_sessions.len(), live_after_first);
}

#[test]
fn closing_a_stale_session_is_refused() {
    let mut st = running_state();
    let mut session = create_session(&mut st, true).expect("creation succeeds");
    invalidate_session(&mut st, session.session_id);
    assert!(!session.find_session(&st));
    assert_eq!(session.close(&mut st), Err(Error::CloseSession));
}

#[test]
fn process_key_maps_native_answer() {
    let mut st = running_state();
    let session = create_session(&mut st, true).expect("creation succeeds");
    let key = KeyEvent::new(0x61, 0);
    assert_eq!(session.process_key(&st, key, 1), Ok(KeyStatus::Accept));
    assert_eq!(session.process_key(&st, key, 0), Ok(KeyStatus::Pass));
}

#[test]
fn process_key_refuses_closed_or_stale_session() {
    let mut st = running_state();
    let session = create_session(&mut st, true).expect("creation succeeds");
    let key = KeyEvent::new(0x61, 0);
    invalidate_session(&mut st, session.session_id);
    assert_eq!(session.process_key(&st, key, 1), Err(Error::SessionNotExists));
    let mut st2 = running_state();
    let mut closed = create_session(&mut st2, true).expect("creation succeeds");
    closed.close(&mut st2).expect("close succeeds");
    assert_eq!(closed.process_key(&st2, key, 1), Err(Error::SessionNotExists));
}

#[test]
fn select_schema_reports_unknown_schema() {
    let mut st = running_state();
    let session = create_session(&mut st, true).expect("creation succeeds");
    assert_eq!(session.select_schema(&st, "luna_pinyin", 1), Ok(()));
    assert_eq!(
        session.select_schema(&st, "no_such_schema", 0),
        Err(Error::SelectSchema)
    );
}

#[test]
fn simulate_key_sequence_outcomes() {
    let mut st = running_state();
    let session = create_session(&mut st, true).expect("creation succeeds");
    assert_eq!(session.simulate_key_sequence(&st, "nihao", 1), Ok(()));
    assert_eq!(
        session.simulate_key_sequence(&st, "nihao", 0),
        Err(Error::SimulateKeySequence)
    );
    assert_eq!(
        session.simulate_key_sequence(&st, "ni\0hao", 1),
        Err(Error::CStringNul)
    );
}

#[test]
fn key_event_packs_fields() {
    let event = KeyEvent::new(0xff0d, 0x4);
    assert_eq!(event.key_code, 0xff0d);
    assert_eq!(event.modifiers, 0x4);
}

#[test]
fn engine_keeps_at_most_one_session() {
    let mut st = EngineState::new();
    let mut engine = Engine::new(&mut st, Traits::new(), true);
    assert!(engine.session().is_none());
    engine
        .create_session(&mut st, true)
        .expect("creation succeeds");
    let first_id = engine.session().expect("session stored").session_id;
    assert!(st.live_sessions.contains(&first_id));
    engine
        .create_session(&mut st, true)
        .expect("creation succeeds");
    let second_id = engine.session().expect("session stored").session_id;
    assert_ne!(first_id, second_id);
    assert!(!st.live_sessions.contains(&first_id));
    assert!(st.live_sessions.contains(&second_id));
}

#[test]
fn engine_create_failure_keeps_closed_prior_session() {
    let mut st = EngineState::new();
    let mut engine = Engine::new(&mut st, Traits::new(), true);
    engine
        .create_session(&mut st, true)
        .expect("creation succeeds");
    let first_id = engine.session().expect("session stored").session_id;
    let failed = engine.create_session(&mut st, false);
    assert_eq!(failed, Err(Error::CreateSession));
    let stored = engine.session().expect("prior handle stays stored");
    assert_eq!(stored.session_id, first_id);
    assert!(stored.closed);
    assert!(!st.live_sessions.contains(&first_id));
}

#[test]
fn silently_close_skips_stale_sessions() {
    let mut st = EngineState::new();
    let mut engine = Engine::new(&mut st, Traits::new(), true);
    engine
        .create_session(&mut st, true)
        .expect("creation succeeds");
    let id = engine.session().expect("session stored").session_id;
    invalidate_session(&mut st, id);
    engine.silently_close_session(&mut st);
    let stored = engine.session().expect("handle still stored");
    assert!(!stored.closed);
}

#[test]
fn engine_construction_runs_lifecycle() {
    let mut st = EngineState::new();
    let engine = Engine::new(&mut st, Traits::new(), true);
    assert!(st.setup_done);
    assert!(st.initialized);
    assert!(st.handler_registered);
    assert!(st.maintenance_running);
    assert!(engine.session().is_none());
    notify(&mut st, "deploy", "success");
    assert_eq!(st.deploy_result(), Some(DeployResult::Success));
}

#[test]
fn engine_observer_flag_via_callback_setter() {
    let mut st = EngineState::new();
    let mut engine = Engine::new(&mut st, Traits::new(), true);
    assert!(!st.observer_installed);
    engine.set_notification_callback(&mut st);
    assert!(st.observer_installed);
}
