use vstd::prelude::*;

verus! {

use crate::config::Traits;
use crate::errors::Error;
use crate::session::{close_transition, create_session, create_session_transition, Session};
use crate::state::{
    initialize, initialize_transition, set_notification_handler, install_observer_transition,
    setup, setup_transition, start_maintenance, start_maintenance_transition, EngineState,
    StateView,
};

/// The high-level controller: drives the process-wide lifecycle and owns at
/// most one session at a time, closing any prior session before creating a
/// new one.
pub struct Engine {
    pub session: Option<Session>,
}

/// The state after constructing a controller: setup runs only if it never ran
/// in this process, then the engine is initialized (registering the
/// process-wide callback) and a full-check maintenance run is requested;
/// whether the native engine accepted that request is `maintenance_accepted`,
/// and its immediate answer is deliberately not surfaced — callers that need
/// the outcome poll the deployment slot fed by the notification channel.
pub open spec fn engine_new_transition(v: StateView, maintenance_accepted: bool) -> StateView {
    let v1 = if v.setup_done {
        v
    } else {
        setup_transition(v)
    };
    let v2 = initialize_transition(v1);
    start_maintenance_transition(v2, maintenance_accepted).0
}

/// The state and stored handle after closing any prior live session: a handle
/// the native layer still considers live is closed; a stale or already-closed
/// one is left untouched, so nothing is ever destroyed twice.
pub open spec fn silently_close_transition(v: StateView, sess: Option<Session>) -> (
    StateView,
    Option<Session>,
) {
    match sess {
        None => (v, None),
        Some(s) => {
            if v.live.contains(s.session_id) {
                let (v2, s2, r) = close_transition(v, s);
                (v2, Some(s2))
            } else {
                (v, Some(s))
            }
        },
    }
}

/// The state, stored handle and result of replacing the controller's session:
/// any prior live session is closed first, then a fresh one is created; on
/// failure the (now closed) prior handle stays stored.
pub open spec fn engine_create_transition(
    v: StateView,
    sess: Option<Session>,
    native_live: bool,
) -> (StateView, Option<Session>, Result<(), Error>) {
    let (v1, closed) = silently_close_transition(v, sess);
    let (v2, r) = create_session_transition(v1, native_live);
    match r {
        Ok(s) => (v2, Some(s), Ok(())),
        Err(e) => (v2, closed, Err(e)),
    }
}

/// Law: the controller serializes sessions.  When replacing the stored session
/// succeeds, the new handle probes live and the prior one no longer does — at
/// most one live session is held at a time.  (A handle already marked closed
/// is no longer live; that is what closing ensures.)
pub proof fn lemma_at_most_one_live_session(v: StateView, s0: Session, native_live: bool)
    requires
        s0.closed ==> !v.live.contains(s0.session_id),
        engine_create_transition(v, Some(s0), native_live).2 is Ok,
    ensures
        ({
            let (v2, sess2, r) = engine_create_transition(v, Some(s0), native_live);
            sess2 matches Some(s) && v2.live.contains(s.session_id) && (s.session_id
                != s0.session_id ==> !v2.live.contains(s0.session_id))
        }),
{
}

impl Engine {
    /// Builds the controller: runs native setup exactly once per process
    /// (guarded by the process-wide flag), initializes the engine with the
    /// given configuration — which registers the notification callback — and
    /// requests a full-check maintenance run.  `maintenance_accepted` is the
    /// native engine's immediate answer to that request; completion arrives
    /// through the notification channel.
    pub fn new(st: &mut EngineState, traits: Traits, maintenance_accepted: bool) -> (e: Engine)
        requires
            old(st).wf(),
        ensures
            final(st).wf(),
            final(st)@ == engine_new_transition(old(st)@, maintenance_accepted),
            e.session is None,
    {
        if !st.setup_done {
            setup(st, &traits);
        }
        initialize(st, &traits);
        let _ = start_maintenance(st, true, maintenance_accepted);
        Engine { session: None }
    }

    /// Installs (or replaces) the observer that receives every notification
    /// pair after its deployment content is recorded.  The function itself
    /// stays with the unverified shell; dispatch decisions only depend on one
    /// being installed.
    pub fn set_notification_callback(&mut self, st: &mut EngineState)
        requires
            old(st).wf(),
        ensures
            final(st).wf(),
            final(st)@ == install_observer_transition(old(st)@),
            *final(self) == *old(self),
    {
        set_notification_handler(st);
    }

    /// Closes the stored session if the native layer still considers it live.
    /// Used before replacing the session and on teardown: an invalidated
    /// handle is never destroyed, and nothing is ever destroyed twice.
    pub fn silently_close_session(&mut self, st: &mut EngineState)
        requires
            old(st).wf(),
        ensures
            final(st).wf(),
            ({
                let (v2, sess2) = silently_close_transition(old(st)@, old(self).session);
                final(st)@ == v2 && final(self).session == sess2
            }),
    {
        match self.session {
            None => {},
            Some(mut s) => {
                if s.find_session(st) {
                    let _ = s.close(st);
                }
                self.session = Some(s);
            },
        }
    }

    /// Closes any prior live session, then creates a fresh native session and
    /// stores it.  `native_live` is the native layer's answer to the liveness
    /// probe on the identifier it returned — it may hand out a dead one under
    /// resource pressure — and only a live handle counts as success.
    pub fn create_session(&mut self, st: &mut EngineState, native_live: bool) -> (r: Result<
        (),
        Error,
    >)
        requires
            old(st).wf(),
        ensures
            final(st).wf(),
            ({
                let (v2, sess2, r2) = engine_create_transition(
                    old(st)@,
                    old(self).session,
                    native_live,
                );
                final(st)@ == v2 && final(self).session == sess2 && r == r2
            }),
    {
        self.silently_close_session(st);
        match create_session(st, native_live) {
            Ok(s) => {
                self.session = Some(s);
                Ok(())
            },
            Err(e) => Err(e),
        }
    }

    /// The stored session, if one was created.
    pub fn session(&self) -> (r: Option<&Session>)
        ensures
            r is Some <==> self.session is Some,
            self.session matches Some(s0) ==> (r matches Some(s) && *s == s0),
    {
        match &self.session {
            Some(s) => Some(s),
            None => None,
        }
    }
}

} // verus!
