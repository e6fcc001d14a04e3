use rime_api::config::DATA_SIZE_FIELD_BYTES;
use rime_api::snapshot::{
    COMMIT_DATA_SIZE, COMMIT_STRUCT_BYTES, CONTEXT_DATA_SIZE, CONTEXT_STRUCT_BYTES,
    STATUS_DATA_SIZE, STATUS_STRUCT_BYTES,
};
use rime_api::{
    create_session, initialize, setup, Candidate, EngineState, Error, RawCommit, RawComposition,
    RawContext, RawMenu, RawStatus, Session, Traits,
};

fn running_session() -> (EngineState, Session) {
    let mut st = EngineState::new();
    let traits = Traits::new();
    setup(&mut st, &traits);
    initialize(&mut st, &traits);
    let session = create_session(&mut st, true).expect("creation succeeds");
    (st, session)
}

fn candidate(text: &str, comment: Option<&str>) -> Candidate {
    Candidate {
        text: text.to_owned(),
        comment: comment.map(|c| c.to_owned()),
    }
}

fn sample_context() -> RawContext {
    let mut raw = RawContext::new();
    raw.composition = RawComposition {
        length: 5,
        cursor_pos: 5,
        sel_start: 0,
        sel_end: 5,
        preedit: Some("nihao".to_owned()),
    };
    raw.menu = RawMenu {
        page_size: 5,
        page_no: 0,
        is_last_page: 1,
        highlighted_candidate_index: 0,
        num_candidates: 3,
        candidates: vec![
            candidate("first", Some("one")),
            candidate("second", None),
            candidate("third", Some("three")),
            candidate("overallocated", None),
            candidate("overallocated", None),
        ],
        select_keys: Some("12345".to_owned()),
    };
    raw.select_labels = Some(vec![
        "a".to_owned(),
        "b".to_owned(),
        "c".to_owned(),
        "d".to_owned(),
        "e".to_owned(),
    ]);
    raw
}

#[test]
fn raw_structures_declare_their_sizes() {
    assert_eq!(RawContext::new().data_size, CONTEXT_DATA_SIZE);
    assert_eq!(CONTEXT_DATA_SIZE, CONTEXT_STRUCT_BYTES - DATA_SIZE_FIELD_BYTES);
    assert_eq!(RawCommit::new().data_size, COMMIT_DATA_SIZE);
    assert_eq!(COMMIT_DATA_SIZE, COMMIT_STRUCT_BYTES - DATA_SIZE_FIELD_BYTES);
    assert_eq!(RawStatus::new().data_size, STATUS_DATA_SIZE);
    assert_eq!(STATUS_DATA_SIZE, STATUS_STRUCT_BYTES - DATA_SIZE_FIELD_BYTES);
}

#[test]
fn absent_context_is_not_an_error() {
    let (mut st, session) = running_session();
    let ctx = session.context(&mut st, None);
    assert!(ctx.is_none());
    assert_eq!(st.context_acquired, 0);
}

#[test]
fn menu_decodes_exactly_the_reported_count() {
    let (mut st, session) = running_session();
    let ctx = session
        .context(&mut st, Some(sample_context()))
        .expect("filled-in context decodes");
    let menu = ctx.menu();
    assert_eq!(menu.num_candidates, 3);
    assert_eq!(menu.candidates.len(), 3);
    assert_eq!(menu.candidates[0].text, "first");
    assert_eq!(menu.candidates[0].comment.as_deref(), Some("one"));
    assert_eq!(menu.candidates[1].text, "second");
    assert_eq!(menu.candidates[1].comment, None);
    assert_eq!(menu.candidates[2].text, "third");
    assert_eq!(menu.page_size, 5);
    assert_eq!(menu.page_no, 0);
    assert!(menu.is_last_page);
    assert_eq!(menu.highlighted_candidate_index, 0);
    assert_eq!(menu.select_keys.as_deref(), Some("12345"));
}

#[test]
fn select_labels_stop_at_reported_count() {
    let (mut st, session) = running_session();
    let ctx = session
        .context(&mut st, Some(sample_context()))
        .expect("filled-in context decodes");
    let labels = ctx.select_labels().expect("labels present");
    assert_eq!(labels, vec!["a".to_owned(), "b".to_owned(), "c".to_owned()]);
}

#[test]
fn composition_decodes_positions_and_preedit() {
    let (mut st, session) = running_session();
    let ctx = session
        .context(&mut st, Some(sample_context()))
        .expect("filled-in context decodes");
    let composition = ctx.composition();
    assert_eq!(composition.length, 5);
    assert_eq!(composition.cursor_pos, 5);
    assert_eq!(composition.sel_start, 0);
    assert_eq!(composition.sel_end, 5);
    assert_eq!(composition.preedit.as_deref(), Some("nihao"));
}

#[test]
fn commit_text_reads_back() {
    let (mut st, session) = running_session();
    assert!(session.commit(&mut st, None).is_none());
    let raw = RawCommit {
        text: "你好".to_owned(),
        ..RawCommit::new()
    };
    let commit = session
        .commit(&mut st, Some(raw))
        .expect("pending commit decodes");
    assert_eq!(commit.text(), "你好");
}

#[test]
fn status_decodes_flags_and_schema() {
    let (mut st, session) = running_session();
    assert_eq!(
        session.status(&mut st, None).map(|_| ()),
        Err(Error::GetStatus)
    );
    let raw = RawStatus {
        schema_id: "luna_pinyin".to_owned(),
        schema_name: "Luna Pinyin".to_owned(),
        is_composing: 1,
        is_ascii_mode: 0,
        is_simplified: 1,
        ..RawStatus::new()
    };
    let status = session
        .status(&mut st, Some(raw))
        .expect("status allocation succeeded");
    assert_eq!(status.schema_id(), "luna_pinyin");
    assert_eq!(status.schema_name(), "Luna Pinyin");
    assert!(status.is_composing);
    assert!(!status.is_ascii_mode);
    assert!(status.is_simplified);
    assert!(!status.is_disabled);
    assert!(!status.is_full_shape);
    assert!(!status.is_traditional);
    assert!(!status.is_ascii_punct);
}

#[test]
fn every_acquisition_pairs_with_one_release() {
    let (mut st, session) = running_session();

    let mut ctx = session
        .context(&mut st, Some(sample_context()))
        .expect("filled-in context decodes");
    assert!(session.context(&mut st, None).is_none());
    let mut ctx2 = session
        .context(&mut st, Some(sample_context()))
        .expect("filled-in context decodes");

    assert!(session.commit(&mut st, None).is_none());
    let raw_commit = RawCommit {
        text: "hao".to_owned(),
        ..RawCommit::new()
    };
    let mut commit = session
        .commit(&mut st, Some(raw_commit))
        .expect("pending commit decodes");

    assert!(session.status(&mut st, None).is_err());
    let mut status = session
        .status(&mut st, Some(RawStatus::new()))
        .expect("status allocation succeeded");

    assert_eq!(st.context_acquired, 2);
    assert_eq!(st.commit_acquired, 1);
    assert_eq!(st.status_acquired, 1);
    assert_eq!(st.context_released, 0);

    ctx.release(&mut st);
    ctx.release(&mut st);
    ctx2.release(&mut st);
    commit.release(&mut st);
    status.release(&mut st);
    status.release(&mut st);

    assert_eq!(st.context_released, st.context_acquired);
    assert_eq!(st.commit_released, st.commit_acquired);
    assert_eq!(st.status_released, st.status_acquired);
    assert!(ctx.is_released());
    assert!(ctx2.is_released());
    assert!(commit.is_released());
    assert!(status.is_released());
}
