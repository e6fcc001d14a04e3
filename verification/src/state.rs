use vstd::prelude::*;

verus! {

use crate::config::Traits;
use crate::errors::Error;
use crate::text::str_chars_eq;

/// Terminal outcome of a deployment/maintenance run, as reported through the
/// notification channel.
#[derive(Clone, Copy, Debug, PartialEq, Eq)]
pub enum DeployResult {
    Success,
    Failure,
}

/// Which kind of native snapshot an acquire/release pair concerns.
#[derive(Clone, Copy, Debug, PartialEq, Eq)]
pub enum SnapshotKind {
    Context,
    Commit,
    Status,
}

/// The first session identifier the model hands out; the native layer treats
/// zero as "no session".
pub const FIRST_SESSION_ID: u64 = 1;

/// The mathematical model of the process-wide engine state: the lifecycle
/// flags, the deployment-result slot, the set of live session identifiers and
/// the snapshot acquire/release counters.
#[verifier::ext_equal]
pub struct StateView {
    pub setup_done: bool,
    pub initialized: bool,
    pub handler_registered: bool,
    pub observer_installed: bool,
    pub maintenance_running: bool,
    pub deploy_result: Option<DeployResult>,
    pub next_session_id: u64,
    pub live: Set<u64>,
    pub context_acquired: int,
    pub context_released: int,
    pub commit_acquired: int,
    pub commit_released: int,
    pub status_acquired: int,
    pub status_released: int,
}

/// The state of a process that has not touched the native engine yet.
pub open spec fn initial_state() -> StateView {
    StateView {
        setup_done: false,
        initialized: false,
        handler_registered: false,
        observer_installed: false,
        maintenance_running: false,
        deploy_result: None,
        next_session_id: FIRST_SESSION_ID,
        live: Set::empty(),
        context_acquired: 0,
        context_released: 0,
        commit_acquired: 0,
        commit_released: 0,
        status_acquired: 0,
        status_released: 0,
    }
}

/// Process-wide shared state of the binding layer.
///
/// The design keeps one such value per process, behind a mutual-exclusion
/// lock, because the native notification callback mutates it from the native
/// layer's own threads.  The locking shell is unverified plumbing; everything
/// the shell may do to the state goes through the verified transitions below.
pub struct EngineState {
    pub setup_done: bool,
    pub initialized: bool,
    pub handler_registered: bool,
    pub observer_installed: bool,
    pub maintenance_running: bool,
    pub deploy_result: Option<DeployResult>,
    pub next_session_id: u64,
    pub live_sessions: Vec<u64>,
    pub context_acquired: u64,
    pub context_released: u64,
    pub commit_acquired: u64,
    pub commit_released: u64,
    pub status_acquired: u64,
    pub status_released: u64,
}

impl View for EngineState {
    type V = StateView;

    open spec fn view(&self) -> StateView {
        StateView {
            setup_done: self.setup_done,
            initialized: self.initialized,
            handler_registered: self.handler_registered,
            observer_installed: self.observer_installed,
            maintenance_running: self.maintenance_running,
            deploy_result: self.deploy_result,
            next_session_id: self.next_session_id,
            live: self.live_sessions@.to_set(),
            context_acquired: self.context_acquired as int,
            context_released: self.context_released as int,
            commit_acquired: self.commit_acquired as int,
            commit_released: self.commit_released as int,
            status_acquired: self.status_acquired as int,
            status_released: self.status_released as int,
        }
    }
}

/// No identifier occurs twice.
pub open spec fn unique_seq(s: Seq<u64>) -> bool {
    forall|i: int, j: int| 0 <= i < j < s.len() ==> s[i] != s[j]
}

impl EngineState {
    /// Internal well-formedness: the live-session table holds no duplicates
    /// and only identifiers below the allocation cursor.
    pub open spec fn wf(&self) -> bool {
        &&& unique_seq(self.live_sessions@)
        &&& forall|i: int|
            0 <= i < self.live_sessions@.len() ==> self.live_sessions@[i] < self.next_session_id
    }

    /// The state of a process that has not touched the native engine yet.
    pub fn new() -> (st: EngineState)
        ensures
            st@ == initial_state(),
            st.wf(),
    {
        let st = EngineState {
            setup_done: false,
            initialized: false,
            handler_registered: false,
            observer_installed: false,
            maintenance_running: false,
            deploy_result: None,
            next_session_id: FIRST_SESSION_ID,
            live_sessions: Vec::new(),
            context_acquired: 0,
            context_released: 0,
            commit_acquired: 0,
            commit_released: 0,
            status_acquired: 0,
            status_released: 0,
        };
        proof {
            assert(st.live_sessions@.to_set() =~= Set::<u64>::empty());
            assert(st@ =~= initial_state());
        }
        st
    }

    /// One poll of the deployment-result slot: the most recently recorded
    /// terminal outcome, or nothing while a run is still pending.
    pub fn deploy_result(&self) -> (r: Option<DeployResult>)
        ensures
            r == self@.deploy_result,
    {
        self.deploy_result
    }

    /// The liveness probe: whether an identifier still denotes a live native
    /// session.
    pub fn session_live(&self, session_id: u64) -> (r: bool)
        ensures
            r == self@.live.contains(session_id),
    {
        let n: usize = self.live_sessions.len();
        let mut i: usize = 0;
        while i < n
            invariant
                i <= n,
                n == self.live_sessions@.len(),
                forall|j: int| 0 <= j < i ==> self.live_sessions@[j] != session_id,
            decreases n - i,
        {
            if self.live_sessions[i] == session_id {
                return true;
            }
            i = i + 1;
        }
        proof {
            assert(!self.live_sessions@.contains(session_id));
        }
        false
    }
}

/// The state after native pre-initialization setup.
pub open spec fn setup_transition(v: StateView) -> StateView {
    StateView { setup_done: true, ..v }
}

/// Runs native pre-initialization setup with the given configuration.  Setup
/// may run at most once per process — re-running it in the native layer is
/// undefined — so the caller must show it has not run yet; the controller
/// guards this with the process-wide flag.
#[allow(unused_variables)]
pub fn setup(st: &mut EngineState, traits: &Traits)
    requires
        old(st).wf(),
        !old(st)@.setup_done,
    ensures
        final(st)@ == setup_transition(old(st)@),
        final(st).wf(),
{
    st.setup_done = true;
}

/// The state after initialization: the engine is running and the process-wide
/// notification callback is registered with the native layer.
pub open spec fn initialize_transition(v: StateView) -> StateView {
    StateView { initialized: true, handler_registered: true, ..v }
}

/// Initializes the native engine with the given configuration and registers
/// the single process-wide notification callback.  Must follow `setup`.
#[allow(unused_variables)]
pub fn initialize(st: &mut EngineState, traits: &Traits)
    requires
        old(st).wf(),
        old(st)@.setup_done,
    ensures
        final(st)@ == initialize_transition(old(st)@),
        final(st).wf(),
{
    st.initialized = true;
    st.handler_registered = true;
}

/// The state after finalization: engine-global state is released; the
/// setup-once guard and the registered callback survive for the process's
/// remaining lifetime.
pub open spec fn finalize_transition(v: StateView) -> StateView {
    StateView { initialized: false, maintenance_running: false, deploy_result: None, ..v }
}

/// Releases all native global state.  Must not be called while sessions are
/// open.
pub fn finalize(st: &mut EngineState)
    requires
        old(st).wf(),
        old(st).live_sessions@.len() == 0,
    ensures
        final(st)@ == finalize_transition(old(st)@),
        final(st).wf(),
{
    st.initialized = false;
    st.maintenance_running = false;
    st.deploy_result = None;
}

/// The state and result of asking the native engine to start maintenance:
/// either the run begins, or the request is rejected outright and nothing
/// changes.
pub open spec fn start_maintenance_transition(v: StateView, accepted: bool) -> (StateView, Result<
    (),
    Error,
>) {
    if accepted {
        (StateView { maintenance_running: true, ..v }, Ok(()))
    } else {
        (v, Err(Error::StartMaintenance))
    }
}

/// Asks the native engine to start its asynchronous deployment/maintenance
/// run; `accepted` is the native layer's immediate answer.  An immediate
/// rejection (bad configuration, a run already in progress) surfaces as a
/// distinct error, so callers never block on a completion notification that
/// will never arrive.  When `full_check` is true, completion itself is
/// reported only through the notification channel, never through this return
/// value.
#[allow(unused_variables)]
pub fn start_maintenance(st: &mut EngineState, full_check: bool, accepted: bool) -> (r: Result<
    (),
    Error,
>)
    requires
        old(st).wf(),
    ensures
        final(st).wf(),
        ({
            let (v2, r2) = start_maintenance_transition(old(st)@, accepted);
            final(st)@ == v2 && r == r2
        }),
{
    if accepted {
        st.maintenance_running = true;
        Ok(())
    } else {
        Err(Error::StartMaintenance)
    }
}

/// What one delivered notification does to the state: a "deploy" message with
/// a terminal value records that outcome and ends the maintenance run; every
/// other category or value changes nothing.
pub open spec fn notify_transition(v: StateView, category: Seq<char>, value: Seq<char>) -> StateView {
    if category == "deploy"@ {
        if value == "success"@ {
            StateView {
                deploy_result: Some(DeployResult::Success),
                maintenance_running: false,
                ..v
            }
        } else if value == "failure"@ {
            StateView {
                deploy_result: Some(DeployResult::Failure),
                maintenance_running: false,
                ..v
            }
        } else {
            v
        }
    } else {
        v
    }
}

/// The notification dispatcher.  The native layer invokes the registered
/// callback — from whichever thread it likes — with a message category and a
/// message value; the unverified shell hands both here under the state lock.
/// A "deploy" message with value "success" or "failure" records the terminal
/// deployment result first; unknown categories and values are no-ops, never
/// errors.  The returned flag tells the shell whether an observer is installed
/// and the raw pair should be forwarded to it — after the result is recorded,
/// so a misbehaving observer cannot corrupt it.
pub fn notify(st: &mut EngineState, category: &str, value: &str) -> (forward: bool)
    requires
        old(st).wf(),
    ensures
        final(st)@ == notify_transition(old(st)@, category@, value@),
        forward == old(st)@.observer_installed,
        final(st).wf(),
{
    if str_chars_eq(category, "deploy") {
        if str_chars_eq(value, "success") {
            st.deploy_result = Some(DeployResult::Success);
            st.maintenance_running = false;
        } else if str_chars_eq(value, "failure") {
            st.deploy_result = Some(DeployResult::Failure);
            st.maintenance_running = false;
        }
    }
    st.observer_installed
}

/// The state once an observer is installed.
pub open spec fn install_observer_transition(v: StateView) -> StateView {
    StateView { observer_installed: true, ..v }
}

/// Installs (or replaces) the process-wide notification observer.  The
/// observer function itself lives with the unverified shell; the verified
/// state records only whether one is installed, which is all dispatch
/// decisions depend on.  The native-level callback is registered once at
/// initialization and never re-registered; only this observer is swappable.
pub fn set_notification_handler(st: &mut EngineState)
    requires
        old(st).wf(),
    ensures
        final(st)@ == install_observer_transition(old(st)@),
        final(st).wf(),
{
    st.observer_installed = true;
}

/// The state at the start of a new full-deploy request: the result slot is
/// explicitly reset to absent.
pub open spec fn reset_deploy_transition(v: StateView) -> StateView {
    StateView { deploy_result: None, ..v }
}

/// The state and immediate outcome of beginning a full deployment: the slot is
/// reset, then maintenance is requested; `Some(Failure)` reports an immediate
/// native rejection, `None` means the run started and the outcome must be
/// awaited.
pub open spec fn full_deploy_begin_transition(v: StateView, accepted: bool) -> (StateView, Option<
    DeployResult,
>) {
    let (v2, r) = start_maintenance_transition(reset_deploy_transition(v), accepted);
    if r is Ok {
        (v2, None)
    } else {
        (v2, Some(DeployResult::Failure))
    }
}

/// Begins a full deployment request: resets the deployment-result slot to
/// absent, then asks the native engine for a maintenance run with a full
/// check.  Returns `Some(Failure)` if the native engine rejected the request
/// immediately — so the caller does not wait forever for a notification that
/// will never arrive — and `None` when the run started; the terminal outcome
/// then arrives through the notification channel and is read by polling
/// `EngineState::deploy_result`.
pub fn full_deploy_begin(st: &mut EngineState, accepted: bool) -> (r: Option<DeployResult>)
    requires
        old(st).wf(),
    ensures
        final(st).wf(),
        ({
            let (v2, r2) = full_deploy_begin_transition(old(st)@, accepted);
            final(st)@ == v2 && r == r2
        }),
{
    st.deploy_result = None;
    match start_maintenance(st, true, accepted) {
        Ok(()) => None,
        Err(_) => Some(DeployResult::Failure),
    }
}

/// Law: in a fresh process the deployment-result slot is absent.
pub proof fn lemma_deploy_slot_starts_absent()
    ensures
        initial_state().deploy_result is None,
{
}

/// Law: notification delivery never reverts the deployment-result slot to
/// absent; once a terminal outcome is recorded, only an explicit reset by a
/// new full-deploy request removes it.
pub proof fn lemma_notify_never_clears_deploy_result(
    v: StateView,
    category: Seq<char>,
    value: Seq<char>,
)
    requires
        v.deploy_result is Some,
    ensures
        notify_transition(v, category, value).deploy_result is Some,
{
}

/// Law: whenever a notification changes the slot at all, what it writes is one
/// of the two terminal outcomes.
pub proof fn lemma_notify_writes_only_terminal(v: StateView, category: Seq<char>, value: Seq<char>)
    ensures
        ({
            let after = notify_transition(v, category, value).deploy_result;
            after == v.deploy_result || after == Some(DeployResult::Success) || after == Some(
                DeployResult::Failure,
            )
        }),
{
}

/// Law: a message of any category other than "deploy" never touches the state.
pub proof fn lemma_notify_other_category_unchanged(
    v: StateView,
    category: Seq<char>,
    value: Seq<char>,
)
    requires
        category != "deploy"@,
    ensures
        notify_transition(v, category, value) == v,
{
}

/// Law: a "deploy" message with an unrecognized value leaves the state
/// unchanged — it is a no-op, not an error.
pub proof fn lemma_notify_unknown_value_unchanged(
    v: StateView,
    category: Seq<char>,
    value: Seq<char>,
)
    requires
        value != "success"@,
        value != "failure"@,
    ensures
        notify_transition(v, category, value) == v,
{
}

/// Law: delivering category "deploy" with value "success" records success.
pub proof fn lemma_notify_deploy_success(v: StateView)
    ensures
        notify_transition(v, "deploy"@, "success"@).deploy_result == Some(DeployResult::Success),
{
}

/// Law: delivering category "deploy" with value "failure" records failure.
pub proof fn lemma_notify_deploy_failure(v: StateView)
    ensures
        notify_transition(v, "deploy"@, "failure"@).deploy_result == Some(DeployResult::Failure),
{
    reveal_strlit("success");
    reveal_strlit("failure");
    assert("success"@[0] == 's');
    assert("failure"@[0] == 'f');
    assert("failure"@ != "success"@);
}

/// Law: a full-deploy request begins with the slot absent unless the native
/// engine rejected the request on the spot.
pub proof fn lemma_full_deploy_resets_slot(v: StateView, accepted: bool)
    ensures
        accepted ==> full_deploy_begin_transition(v, accepted).0.deploy_result is None,
{
}

} // verus!
