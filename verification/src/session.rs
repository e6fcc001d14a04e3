use vstd::prelude::*;

verus! {

use crate::errors::Error;
use crate::state::{unique_seq, EngineState, StateView};
use crate::text::{contains_nul, has_nul};

/// One key event: a key code plus a modifier bitmask, exactly as the native
/// key-processing entry point takes them.
#[derive(Clone, Copy, Debug, PartialEq, Eq)]
pub struct KeyEvent {
    pub key_code: i32,
    pub modifiers: i32,
}

impl KeyEvent {
    /// Packs a key code and a modifier mask.
    pub fn new(key_code: i32, modifiers: i32) -> (r: KeyEvent)
        ensures
            r.key_code == key_code,
            r.modifiers == modifiers,
    {
        KeyEvent { key_code, modifiers }
    }
}

/// Whether the engine consumed a key ("accept") or passed it through.  Both
/// are valid steady-state outcomes of key processing, not success and failure.
#[derive(Clone, Copy, Debug, PartialEq, Eq)]
pub enum KeyStatus {
    Accept,
    Pass,
}

/// An owned handle to a native session resource.
///
/// The identifier references state inside the native engine; the `closed` flag
/// makes destruction idempotent at the wrapper level.  A handle can also go
/// stale without being closed — the native engine may invalidate sessions when
/// it redeploys — so liveness is queryable at any time through the probe.
#[derive(Clone, Copy, Debug, PartialEq, Eq)]
pub struct Session {
    pub session_id: u64,
    pub closed: bool,
}

/// The state and result of requesting a new native session.  The native layer
/// may, under resource pressure, return an identifier it already considers
/// dead; `native_live` is its answer to the immediate liveness probe, and only
/// a live handle counts as success.
pub open spec fn create_session_transition(v: StateView, native_live: bool) -> (StateView, Result<
    Session,
    Error,
>) {
    if v.initialized && native_live && v.next_session_id < u64::MAX {
        (
            StateView {
                next_session_id: (v.next_session_id + 1) as u64,
                live: v.live.insert(v.next_session_id),
                ..v
            },
            Ok(Session { session_id: v.next_session_id, closed: false }),
        )
    } else {
        (v, Err(Error::CreateSession))
    }
}

/// Requests a new native session and verifies, before declaring success, that
/// the returned identifier denotes a live session.
pub fn create_session(st: &mut EngineState, native_live: bool) -> (r: Result<Session, Error>)
    requires
        old(st).wf(),
    ensures
        final(st).wf(),
        ({
            let (v2, r2) = create_session_transition(old(st)@, native_live);
            final(st)@ == v2 && r == r2
        }),
        r matches Ok(s) ==> final(st)@.live.contains(s.session_id) && !s.closed,
{
    if st.initialized && native_live && st.next_session_id < u64::MAX {
        let id: u64 = st.next_session_id;
        st.next_session_id = id + 1;
        st.live_sessions.push(id);
        proof {
            lemma_push_to_set(old(st).live_sessions@, id);
            assert(st@ =~= create_session_transition(old(st)@, native_live).0);
        }
        Ok(Session { session_id: id, closed: false })
    } else {
        Err(Error::CreateSession)
    }
}

/// The state, handle and result of closing a session: an already-closed handle
/// is a no-op that succeeds (never a second native destroy); a live one is
/// destroyed and leaves the live set; a stale one is refused by the native
/// layer.
pub open spec fn close_transition(v: StateView, s: Session) -> (StateView, Session, Result<
    (),
    Error,
>) {
    if s.closed {
        (v, s, Ok(()))
    } else if v.live.contains(s.session_id) {
        (
            StateView { live: v.live.remove(s.session_id), ..v },
            Session { closed: true, ..s },
            Ok(()),
        )
    } else {
        (v, s, Err(Error::CloseSession))
    }
}

impl Session {
    /// The liveness probe: whether this handle still denotes a live native
    /// session.
    pub fn find_session(&self, st: &EngineState) -> (r: bool)
        ensures
            r == st@.live.contains(self.session_id),
    {
        st.session_live(self.session_id)
    }

    /// Destroys the native session.  Idempotent at the wrapper level: closing
    /// an already-closed handle is a no-op that succeeds, so the native
    /// resource can never be destroyed twice through one handle.
    pub fn close(&mut self, st: &mut EngineState) -> (r: Result<(), Error>)
        requires
            old(st).wf(),
        ensures
            final(st).wf(),
            ({
                let (v2, s2, r2) = close_transition(old(st)@, *old(self));
                final(st)@ == v2 && *final(self) == s2 && r == r2
            }),
    {
        if self.closed {
            return Ok(());
        }
        if remove_live(st, self.session_id) {
            self.closed = true;
            Ok(())
        } else {
            Err(Error::CloseSession)
        }
    }

    /// Submits one key event.  `native_handled` is the native engine's answer:
    /// nonzero when it consumed the key.  A closed or stale handle is refused
    /// before anything reaches the native layer.
    #[allow(unused_variables)]
    pub fn process_key(&self, st: &EngineState, key: KeyEvent, native_handled: i32) -> (r: Result<
        KeyStatus,
        Error,
    >)
        ensures
            r == process_key_outcome(*self, st@, native_handled),
    {
        if self.closed || !self.find_session(st) {
            Err(Error::SessionNotExists)
        } else if native_handled != 0 {
            Ok(KeyStatus::Accept)
        } else {
            Ok(KeyStatus::Pass)
        }
    }

    /// Switches the active schema.  `native_ok` is the native engine's answer;
    /// an unknown schema identifier is reported, not fatal.  The identifier
    /// must hold no embedded null byte.
    pub fn select_schema(&self, st: &EngineState, id: &str, native_ok: i32) -> (r: Result<
        (),
        Error,
    >)
        requires
            !has_nul(id@),
        ensures
            r == select_schema_outcome(*self, st@, native_ok),
    {
        if self.closed || !self.find_session(st) {
            Err(Error::SessionNotExists)
        } else if native_ok == 0 {
            Err(Error::SelectSchema)
        } else {
            Ok(())
        }
    }

    /// Feeds a whole string as a sequence of key events.  Fails on an embedded
    /// null byte (the sequence crosses the native boundary as a
    /// null-terminated buffer), on a closed or stale handle, and when the
    /// native layer rejects the sequence (`native_ok` is its answer).
    pub fn simulate_key_sequence(&self, st: &EngineState, key_sequence: &str, native_ok: i32) -> (r:
        Result<(), Error>)
        ensures
            r == simulate_key_sequence_outcome(*self, st@, key_sequence@, native_ok),
    {
        if contains_nul(key_sequence) {
            Err(Error::CStringNul)
        } else if self.closed || !self.find_session(st) {
            Err(Error::SessionNotExists)
        } else if native_ok == 1 {
            Ok(())
        } else {
            Err(Error::SimulateKeySequence)
        }
    }
}

/// The outcome of submitting one key event.
pub open spec fn process_key_outcome(s: Session, v: StateView, native_handled: i32) -> Result<
    KeyStatus,
    Error,
> {
    if s.closed || !v.live.contains(s.session_id) {
        Err(Error::SessionNotExists)
    } else if native_handled != 0 {
        Ok(KeyStatus::Accept)
    } else {
        Ok(KeyStatus::Pass)
    }
}

/// The outcome of a schema selection.
pub open spec fn select_schema_outcome(s: Session, v: StateView, native_ok: i32) -> Result<
    (),
    Error,
> {
    if s.closed || !v.live.contains(s.session_id) {
        Err(Error::SessionNotExists)
    } else if native_ok == 0 {
        Err(Error::SelectSchema)
    } else {
        Ok(())
    }
}

/// The outcome of simulating a key sequence.
pub open spec fn simulate_key_sequence_outcome(
    s: Session,
    v: StateView,
    key_sequence: Seq<char>,
    native_ok: i32,
) -> Result<(), Error> {
    if has_nul(key_sequence) {
        Err(Error::CStringNul)
    } else if s.closed || !v.live.contains(s.session_id) {
        Err(Error::SessionNotExists)
    } else if native_ok == 1 {
        Ok(())
    } else {
        Err(Error::SimulateKeySequence)
    }
}

/// The native engine invalidated a session — this happens on redeploy — so its
/// identifier stops denoting a live session without any handle being closed.
pub fn invalidate_session(st: &mut EngineState, session_id: u64)
    requires
        old(st).wf(),
    ensures
        final(st).wf(),
        final(st)@ == (StateView { live: old(st)@.live.remove(session_id), ..old(st)@ }),
{
    let removed = remove_live(st, session_id);
    proof {
        if !removed {
            assert(old(st)@.live.remove(session_id) =~= old(st)@.live);
            assert(st@ =~= (StateView { live: old(st)@.live.remove(session_id), ..old(st)@ }));
        }
    }
}

/// Removes an identifier from the live table if present; reports whether it
/// was there.  This is the model of one native destroy call: it succeeds
/// exactly on live identifiers.
fn remove_live(st: &mut EngineState, session_id: u64) -> (r: bool)
    requires
        old(st).wf(),
    ensures
        final(st).wf(),
        r == old(st)@.live.contains(session_id),
        r ==> final(st)@ == (StateView { live: old(st)@.live.remove(session_id), ..old(st)@ }),
        !r ==> final(st)@ == old(st)@,
{
    let n: usize = st.live_sessions.len();
    let mut i: usize = 0;
    while i < n
        invariant
            i <= n,
            n == st.live_sessions@.len(),
            *st == *old(st),
            st.wf(),
            forall|j: int| 0 <= j < i ==> st.live_sessions@[j] != session_id,
        decreases n - i,
    {
        if st.live_sessions[i] == session_id {
            proof {
                lemma_remove_unique_to_set(st.live_sessions@, i as int);
            }
            st.live_sessions.remove(i);
            proof {
                assert(st@ =~= (StateView {
                    live: old(st)@.live.remove(session_id),
                    ..old(st)@
                }));
            }
            return true;
        }
        i = i + 1;
    }
    proof {
        assert(!st.live_sessions@.contains(session_id));
    }
    false
}

/// Pushing a fresh element onto a sequence inserts it into the set of the
/// sequence's elements.
proof fn lemma_push_to_set(s: Seq<u64>, x: u64)
    ensures
        s.push(x).to_set() =~= s.to_set().insert(x),
{
    assert forall|a: u64| s.push(x).contains(a) implies s.contains(a) || a == x by {
        let i = choose|i: int| 0 <= i < s.push(x).len() && s.push(x)[i] == a;
        if i < s.len() {
            assert(s[i] == a);
        }
    }
    assert forall|a: u64| s.contains(a) implies s.push(x).contains(a) by {
        let i = choose|i: int| 0 <= i < s.len() && s[i] == a;
        assert(s.push(x)[i] == a);
    }
    assert(s.push(x)[s.len() as int] == x);
    assert(s.push(x).contains(x));
}

/// Removing position `i` from a duplicate-free sequence removes exactly the
/// element at that position from the set of the sequence's elements.
proof fn lemma_remove_unique_to_set(s: Seq<u64>, i: int)
    requires
        unique_seq(s),
        0 <= i < s.len(),
    ensures
        s.remove(i).to_set() =~= s.to_set().remove(s[i]),
        unique_seq(s.remove(i)),
        forall|j: int| 0 <= j < s.remove(i).len() ==> s.contains(s.remove(i)[j]),
{
    let r = s.remove(i);
    let x = s[i];
    assert forall|j: int| 0 <= j < r.len() implies s.contains(r[j]) by {
        if j < i {
            assert(r[j] == s[j]);
        } else {
            assert(r[j] == s[j + 1]);
        }
    }
    assert forall|a: u64| r.contains(a) implies s.to_set().remove(x).contains(a) by {
        let j = choose|j: int| 0 <= j < r.len() && r[j] == a;
        if j < i {
            assert(s[j] == a);
            assert(a != x);
        } else {
            assert(s[j + 1] == a);
            assert(a != x);
        }
    }
    assert forall|a: u64| s.contains(a) && a != x implies r.contains(a) by {
        let j = choose|j: int| 0 <= j < s.len() && s[j] == a;
        if j < i {
            assert(r[j] == a);
        } else {
            assert(j != i);
            assert(r[j - 1] == a);
        }
    }
    assert forall|j: int, k: int| 0 <= j < k < r.len() implies r[j] != r[k] by {
        if k < i {
            assert(r[j] == s[j] && r[k] == s[k]);
        } else if j < i {
            assert(r[j] == s[j] && r[k] == s[k + 1]);
        } else {
            assert(r[j] == s[j + 1] && r[k] == s[k + 1]);
        }
    }
}

/// Law: when session creation succeeds, the liveness probe on the returned
/// handle answers true.
pub proof fn lemma_probe_true_after_create(v: StateView, native_live: bool)
    requires
        create_session_transition(v, native_live).1 is Ok,
    ensures
        ({
            let (v2, r) = create_session_transition(v, native_live);
            v2.live.contains(r->Ok_0.session_id)
        }),
{
}

/// Law: when closing succeeds on a not-yet-closed handle, the liveness probe
/// on that handle answers false afterwards, and the handle is marked closed.
pub proof fn lemma_probe_false_after_close(v: StateView, s: Session)
    requires
        !s.closed,
        close_transition(v, s).2 is Ok,
    ensures
        ({
            let (v2, s2, r) = close_transition(v, s);
            !v2.live.contains(s.session_id) && s2.closed
        }),
{
}

/// Law: closing an already-closed handle changes nothing and succeeds — the
/// second close of any handle is a no-op, so no native resource is ever
/// destroyed twice.
pub proof fn lemma_close_idempotent(v: StateView, s: Session)
    requires
        s.closed,
    ensures
        close_transition(v, s) == (v, s, Ok::<(), Error>(())),
{
}

/// Law: two successive closes have exactly the effect of the first one; the
/// second never frees anything further.
pub proof fn lemma_second_close_no_effect(v: StateView, s: Session)
    requires
        close_transition(v, s).2 is Ok,
    ensures
        ({
            let (v1, s1, r1) = close_transition(v, s);
            let (v2, s2, r2) = close_transition(v1, s1);
            v2 == v1 && s2 == s1 && r2 is Ok
        }),
{
}

} // verus!
