use vstd::prelude::*;

verus! {

use crate::config::DATA_SIZE_FIELD_BYTES;
use crate::errors::Error;
use crate::session::Session;
use crate::state::{EngineState, SnapshotKind, StateView};

/// Total bytes of the native context structure in the 64-bit layout the
/// binding targets: the 4-byte size header plus 4 bytes of padding, the
/// 24-byte composition block, the 40-byte menu block, the commit-text-preview
/// pointer and the select-labels pointer.
pub const CONTEXT_STRUCT_BYTES: i32 = 88;

/// The context structure's self-declared size: its byte size minus the header
/// field.
pub const CONTEXT_DATA_SIZE: i32 = CONTEXT_STRUCT_BYTES - DATA_SIZE_FIELD_BYTES;

/// Total bytes of the native commit structure: the 4-byte size header plus 4
/// bytes of padding and the text pointer.
pub const COMMIT_STRUCT_BYTES: i32 = 16;

/// The commit structure's self-declared size.
pub const COMMIT_DATA_SIZE: i32 = COMMIT_STRUCT_BYTES - DATA_SIZE_FIELD_BYTES;

/// Total bytes of the native status structure: the 4-byte size header plus 4
/// bytes of padding, two schema string pointers, and seven 4-byte flags plus
/// 4 bytes of padding.
pub const STATUS_STRUCT_BYTES: i32 = 56;

/// The status structure's self-declared size.
pub const STATUS_DATA_SIZE: i32 = STATUS_STRUCT_BYTES - DATA_SIZE_FIELD_BYTES;

/// The composition block of a native context structure, as plain values: the
/// preedit text when one is present, and byte positions within it.
pub struct RawComposition {
    pub length: i32,
    pub cursor_pos: i32,
    pub sel_start: i32,
    pub sel_end: i32,
    pub preedit: Option<String>,
}

/// One candidate: its text and an optional comment.
pub struct Candidate {
    pub text: String,
    pub comment: Option<String>,
}

/// The menu block of a native context structure, as plain values.  The
/// candidate vector stands for the native backing allocation, which may hold
/// more entries than the reported `num_candidates`; only the reported count is
/// ever decoded.
pub struct RawMenu {
    pub page_size: i32,
    pub page_no: i32,
    pub is_last_page: i32,
    pub highlighted_candidate_index: i32,
    pub num_candidates: i32,
    pub candidates: Vec<Candidate>,
    pub select_keys: Option<String>,
}

impl RawMenu {
    /// What the native layer guarantees of a menu it filled in: counts are
    /// non-negative and the backing allocation covers the reported candidate
    /// count.
    pub open spec fn wf(&self) -> bool {
        &&& 0 <= self.page_size
        &&& 0 <= self.page_no
        &&& 0 <= self.highlighted_candidate_index
        &&& 0 <= self.num_candidates
        &&& self.num_candidates <= self.candidates@.len()
    }
}

/// A native context structure as plain values: composition, candidate menu,
/// commit-text preview and selection labels.
pub struct RawContext {
    pub data_size: i32,
    pub composition: RawComposition,
    pub menu: RawMenu,
    pub commit_text_preview: Option<String>,
    pub select_labels: Option<Vec<String>>,
}

impl RawContext {
    /// What the native layer guarantees of a context it filled in.  The
    /// select-labels allocation, when present, also covers the reported
    /// candidate count.
    pub open spec fn wf(&self) -> bool {
        &&& 0 <= self.composition.length
        &&& 0 <= self.composition.cursor_pos
        &&& 0 <= self.composition.sel_start
        &&& 0 <= self.composition.sel_end
        &&& self.menu.wf()
        &&& (self.select_labels matches Some(ls) ==> self.menu.num_candidates <= ls@.len())
    }

    /// A zeroed context structure with its size header set, ready to be
    /// filled in by the native layer.
    pub fn new() -> (r: RawContext)
        ensures
            r.data_size == CONTEXT_DATA_SIZE,
            r.composition.length == 0,
            r.composition.cursor_pos == 0,
            r.composition.sel_start == 0,
            r.composition.sel_end == 0,
            r.composition.preedit is None,
            r.menu.page_size == 0,
            r.menu.page_no == 0,
            r.menu.is_last_page == 0,
            r.menu.highlighted_candidate_index == 0,
            r.menu.num_candidates == 0,
            r.menu.candidates@ == Seq::<Candidate>::empty(),
            r.menu.select_keys is None,
            r.commit_text_preview is None,
            r.select_labels is None,
            r.wf(),
    {
        RawContext {
            data_size: CONTEXT_DATA_SIZE,
            composition: RawComposition {
                length: 0,
                cursor_pos: 0,
                sel_start: 0,
                sel_end: 0,
                preedit: None,
            },
            menu: RawMenu {
                page_size: 0,
                page_no: 0,
                is_last_page: 0,
                highlighted_candidate_index: 0,
                num_candidates: 0,
                candidates: Vec::new(),
                select_keys: None,
            },
            commit_text_preview: None,
            select_labels: None,
        }
    }
}

/// A native commit structure as plain values.
pub struct RawCommit {
    pub data_size: i32,
    pub text: String,
}

impl RawCommit {
    /// A zeroed commit structure with its size header set.
    pub fn new() -> (r: RawCommit)
        ensures
            r.data_size == COMMIT_DATA_SIZE,
            r.text@ == Seq::<char>::empty(),
    {
        RawCommit { data_size: COMMIT_DATA_SIZE, text: String::new() }
    }
}

/// A native status structure as plain values: the active schema and the mode
/// flags, each flag an integer as the native layer reports it.
pub struct RawStatus {
    pub data_size: i32,
    pub schema_id: String,
    pub schema_name: String,
    pub is_disabled: i32,
    pub is_composing: i32,
    pub is_ascii_mode: i32,
    pub is_full_shape: i32,
    pub is_simplified: i32,
    pub is_traditional: i32,
    pub is_ascii_punct: i32,
}

impl RawStatus {
    /// A zeroed status structure with its size header set.
    pub fn new() -> (r: RawStatus)
        ensures
            r.data_size == STATUS_DATA_SIZE,
            r.schema_id@ == Seq::<char>::empty(),
            r.schema_name@ == Seq::<char>::empty(),
            r.is_disabled == 0,
            r.is_composing == 0,
            r.is_ascii_mode == 0,
            r.is_full_shape == 0,
            r.is_simplified == 0,
            r.is_traditional == 0,
            r.is_ascii_punct == 0,
    {
        RawStatus {
            data_size: STATUS_DATA_SIZE,
            schema_id: String::new(),
            schema_name: String::new(),
            is_disabled: 0,
            is_composing: 0,
            is_ascii_mode: 0,
            is_full_shape: 0,
            is_simplified: 0,
            is_traditional: 0,
            is_ascii_punct: 0,
        }
    }
}

/// The state after one successful snapshot acquisition: one more native
/// allocation of that kind is outstanding.
pub open spec fn acquire_transition(v: StateView, kind: SnapshotKind) -> StateView {
    match kind {
        SnapshotKind::Context => StateView { context_acquired: v.context_acquired + 1, ..v },
        SnapshotKind::Commit => StateView { commit_acquired: v.commit_acquired + 1, ..v },
        SnapshotKind::Status => StateView { status_acquired: v.status_acquired + 1, ..v },
    }
}

/// The state and flag after releasing a snapshot whose released flag is
/// `released`: the first release of a snapshot is counted, any further one
/// changes nothing.
pub open spec fn release_transition(v: StateView, kind: SnapshotKind, released: bool) -> (
    StateView,
    bool,
) {
    if released {
        (v, true)
    } else {
        (
            match kind {
                SnapshotKind::Context => StateView {
                    context_released: v.context_released + 1,
                    ..v
                },
                SnapshotKind::Commit => StateView { commit_released: v.commit_released + 1, ..v },
                SnapshotKind::Status => StateView { status_released: v.status_released + 1, ..v },
            },
            true,
        )
    }
}

/// How many snapshots of one kind were ever acquired.
pub open spec fn acquired_count(v: StateView, kind: SnapshotKind) -> int {
    match kind {
        SnapshotKind::Context => v.context_acquired,
        SnapshotKind::Commit => v.commit_acquired,
        SnapshotKind::Status => v.status_acquired,
    }
}

/// How many snapshots of one kind were ever released.
pub open spec fn released_count(v: StateView, kind: SnapshotKind) -> int {
    match kind {
        SnapshotKind::Context => v.context_released,
        SnapshotKind::Commit => v.commit_released,
        SnapshotKind::Status => v.status_released,
    }
}

/// A point-in-time snapshot of a session's composition state and candidate
/// menu.  It owns the native allocation behind it: `release` frees that
/// allocation, exactly once, however often it is called.
pub struct Context {
    raw: RawContext,
    released: bool,
}

/// Decoded composition state: positions as indexes, and the preedit text.
pub struct Composition {
    pub length: usize,
    pub cursor_pos: usize,
    pub sel_start: usize,
    pub sel_end: usize,
    pub preedit: Option<String>,
}

/// Decoded candidate menu.
pub struct Menu {
    pub page_size: usize,
    pub page_no: usize,
    pub is_last_page: bool,
    pub highlighted_candidate_index: usize,
    pub num_candidates: usize,
    pub candidates: Vec<Candidate>,
    pub select_keys: Option<String>,
}

impl Context {
    /// The raw structure backing this snapshot, for specification purposes.
    pub closed spec fn raw_spec(&self) -> RawContext {
        self.raw
    }

    /// Whether the native allocation behind this snapshot was released.
    pub closed spec fn released_spec(&self) -> bool {
        self.released
    }

    /// Read access to the raw structure backing this snapshot.
    pub fn raw(&self) -> (r: &RawContext)
        ensures
            *r == self.raw_spec(),
    {
        &self.raw
    }

    /// Whether this snapshot's native allocation was already released.
    pub fn is_released(&self) -> (r: bool)
        ensures
            r == self.released_spec(),
    {
        self.released
    }

    /// Decodes the composition block.
    pub fn composition(&self) -> (r: Composition)
        requires
            self.raw_spec().wf(),
        ensures
            r.length == self.raw_spec().composition.length,
            r.cursor_pos == self.raw_spec().composition.cursor_pos,
            r.sel_start == self.raw_spec().composition.sel_start,
            r.sel_end == self.raw_spec().composition.sel_end,
            r.preedit == self.raw_spec().composition.preedit,
    {
        Composition {
            length: self.raw.composition.length as usize,
            cursor_pos: self.raw.composition.cursor_pos as usize,
            sel_start: self.raw.composition.sel_start as usize,
            sel_end: self.raw.composition.sel_end as usize,
            preedit: clone_opt_string(&self.raw.composition.preedit),
        }
    }

    /// Decodes the candidate menu.  Decoding stops at the native-reported
    /// candidate count: exactly `num_candidates` entries come out, however
    /// large the backing allocation is, and nothing past the count is read.
    pub fn menu(&self) -> (r: Menu)
        requires
            self.raw_spec().wf(),
        ensures
            r.page_size == self.raw_spec().menu.page_size,
            r.page_no == self.raw_spec().menu.page_no,
            r.is_last_page == (self.raw_spec().menu.is_last_page != 0),
            r.highlighted_candidate_index == self.raw_spec().menu.highlighted_candidate_index,
            r.num_candidates == self.raw_spec().menu.num_candidates,
            r.candidates@ == self.raw_spec().menu.candidates@.subrange(
                0,
                self.raw_spec().menu.num_candidates as int,
            ),
            r.select_keys == self.raw_spec().menu.select_keys,
    {
        let m = &self.raw.menu;
        let n: usize = m.num_candidates as usize;
        let mut candidates: Vec<Candidate> = Vec::new();
        let mut i: usize = 0;
        while i < n
            invariant
                i <= n,
                n == m.num_candidates,
                n <= m.candidates@.len(),
                candidates@ =~= m.candidates@.subrange(0, i as int),
                forall|j: int| 0 <= j < i ==> candidates@[j] == m.candidates@[j],
            decreases n - i,
        {
            let c = &m.candidates[i];
            candidates.push(
                Candidate { text: c.text.clone(), comment: clone_opt_string(&c.comment) },
            );
            proof {
                assert(candidates@ =~= m.candidates@.subrange(0, i + 1 as int));
            }
            i = i + 1;
        }
        Menu {
            page_size: m.page_size as usize,
            page_no: m.page_no as usize,
            is_last_page: m.is_last_page != 0,
            highlighted_candidate_index: m.highlighted_candidate_index as usize,
            num_candidates: n,
            candidates,
            select_keys: clone_opt_string(&m.select_keys),
        }
    }

    /// Decodes the selection labels, when the native layer provided any: one
    /// label per reported candidate, and no more, however large the backing
    /// allocation is.
    pub fn select_labels(&self) -> (r: Option<Vec<String>>)
        requires
            self.raw_spec().wf(),
        ensures
            r is Some <==> self.raw_spec().select_labels is Some,
            self.raw_spec().select_labels matches Some(ls) ==> (r matches Some(out) && out@
                =~= ls@.subrange(0, self.raw_spec().menu.num_candidates as int)),
    {
        match &self.raw.select_labels {
            None => None,
            Some(ls) => {
                let n: usize = self.raw.menu.num_candidates as usize;
                let mut out: Vec<String> = Vec::new();
                let mut i: usize = 0;
                while i < n
                    invariant
                        i <= n,
                        n <= ls@.len(),
                        out@ =~= ls@.subrange(0, i as int),
                    decreases n - i,
                {
                    out.push(ls[i].clone());
                    proof {
                        assert(out@ =~= ls@.subrange(0, i + 1 as int));
                    }
                    i = i + 1;
                }
                Some(out)
            },
        }
    }

    /// Releases the native allocation behind this snapshot.  The first call
    /// frees and is counted; any further call is a no-op, so the allocation
    /// can never be freed twice.
    pub fn release(&mut self, st: &mut EngineState)
        requires
            old(st).wf(),
            old(st).context_released < u64::MAX,
        ensures
            final(st).wf(),
            final(self).raw_spec() == old(self).raw_spec(),
            ({
                let (v2, rel) = release_transition(
                    old(st)@,
                    SnapshotKind::Context,
                    old(self).released_spec(),
                );
                final(st)@ == v2 && final(self).released_spec() == rel
            }),
    {
        if !self.released {
            self.released = true;
            st.context_released = st.context_released + 1;
        }
    }
}

/// A committed text snapshot.  It owns the native allocation behind it:
/// `release` frees that allocation, exactly once, however often it is called.
pub struct Commit {
    raw: RawCommit,
    released: bool,
}

impl Commit {
    /// The raw structure backing this snapshot, for specification purposes.
    pub closed spec fn raw_spec(&self) -> RawCommit {
        self.raw
    }

    /// Whether the native allocation behind this snapshot was released.
    pub closed spec fn released_spec(&self) -> bool {
        self.released
    }

    /// The committed text.
    pub fn text(&self) -> (r: &str)
        ensures
            r@ == self.raw_spec().text@,
    {
        self.raw.text.as_str()
    }

    /// Whether this snapshot's native allocation was already released.
    pub fn is_released(&self) -> (r: bool)
        ensures
            r == self.released_spec(),
    {
        self.released
    }

    /// Releases the native allocation behind this snapshot.  The first call
    /// frees and is counted; any further call is a no-op, so the allocation
    /// can never be freed twice.
    pub fn release(&mut self, st: &mut EngineState)
        requires
            old(st).wf(),
            old(st).commit_released < u64::MAX,
        ensures
            final(st).wf(),
            final(self).raw_spec() == old(self).raw_spec(),
            ({
                let (v2, rel) = release_transition(
                    old(st)@,
                    SnapshotKind::Commit,
                    old(self).released_spec(),
                );
                final(st)@ == v2 && final(self).released_spec() == rel
            }),
    {
        if !self.released {
            self.released = true;
            st.commit_released = st.commit_released + 1;
        }
    }
}

/// A status snapshot: the decoded mode flags, plus the raw structure with the
/// schema strings.  It owns the native allocation behind it: `release` frees
/// that allocation, exactly once, however often it is called.
pub struct Status {
    pub raw: RawStatus,
    pub released: bool,
    pub is_disabled: bool,
    pub is_composing: bool,
    pub is_ascii_mode: bool,
    pub is_full_shape: bool,
    pub is_simplified: bool,
    pub is_traditional: bool,
    pub is_ascii_punct: bool,
}

impl Status {
    /// The raw structure backing this snapshot, for specification purposes.
    pub open spec fn raw_spec(&self) -> RawStatus {
        self.raw
    }

    /// Whether the native allocation behind this snapshot was released.
    pub open spec fn released_spec(&self) -> bool {
        self.released
    }

    /// Decodes a filled-in native status structure: each nonzero flag becomes
    /// true, and the structure itself (with its schema strings) stays owned by
    /// the snapshot.
    pub fn from_rime(raw: RawStatus) -> (r: Status)
        ensures
            r.raw_spec() == raw,
            !r.released_spec(),
            r.is_disabled == (raw.is_disabled != 0),
            r.is_composing == (raw.is_composing != 0),
            r.is_ascii_mode == (raw.is_ascii_mode != 0),
            r.is_full_shape == (raw.is_full_shape != 0),
            r.is_simplified == (raw.is_simplified != 0),
            r.is_traditional == (raw.is_traditional != 0),
            r.is_ascii_punct == (raw.is_ascii_punct != 0),
    {
        let is_disabled = raw.is_disabled != 0;
        let is_composing = raw.is_composing != 0;
        let is_ascii_mode = raw.is_ascii_mode != 0;
        let is_full_shape = raw.is_full_shape != 0;
        let is_simplified = raw.is_simplified != 0;
        let is_traditional = raw.is_traditional != 0;
        let is_ascii_punct = raw.is_ascii_punct != 0;
        Status {
            raw,
            released: false,
            is_disabled,
            is_composing,
            is_ascii_mode,
            is_full_shape,
            is_simplified,
            is_traditional,
            is_ascii_punct,
        }
    }

    /// The identifier of the active schema.
    pub fn schema_id(&self) -> (r: &str)
        ensures
            r@ == self.raw_spec().schema_id@,
    {
        self.raw.schema_id.as_str()
    }

    /// The display name of the active schema.
    pub fn schema_name(&self) -> (r: &str)
        ensures
            r@ == self.raw_spec().schema_name@,
    {
        self.raw.schema_name.as_str()
    }

    /// Whether this snapshot's native allocation was already released.
    pub fn is_released(&self) -> (r: bool)
        ensures
            r == self.released_spec(),
    {
        self.released
    }

    /// Releases the native allocation behind this snapshot.  The first call
    /// frees and is counted; any further call is a no-op, so the allocation
    /// can never be freed twice.
    pub fn release(&mut self, st: &mut EngineState)
        requires
            old(st).wf(),
            old(st).status_released < u64::MAX,
        ensures
            final(st).wf(),
            final(self).raw_spec() == old(self).raw_spec(),
            ({
                let (v2, rel) = release_transition(
                    old(st)@,
                    SnapshotKind::Status,
                    old(self).released_spec(),
                );
                final(st)@ == v2 && final(self).released_spec() == rel
            }),
    {
        if !self.released {
            self.released = true;
            st.status_released = st.status_released + 1;
        }
    }
}

impl Session {
    /// Pulls a context snapshot.  `native` is the structure the native layer
    /// filled in for this session, or nothing when there is no active
    /// composition — a valid absence, not an error.  Every filled-in answer is
    /// one native allocation, counted as acquired; the returned snapshot must
    /// be released exactly once.
    pub fn context(&self, st: &mut EngineState, native: Option<RawContext>) -> (r: Option<Context>)
        requires
            old(st).wf(),
            old(st).context_acquired < u64::MAX,
            native matches Some(c) ==> c.wf(),
        ensures
            final(st).wf(),
            native is None ==> r is None && final(st)@ == old(st)@,
            native matches Some(raw) ==> (r matches Some(c) && c.raw_spec() == raw
                && !c.released_spec() && c.raw_spec().wf() && final(st)@ == acquire_transition(
                old(st)@,
                SnapshotKind::Context,
            )),
    {
        match native {
            None => None,
            Some(raw) => {
                st.context_acquired = st.context_acquired + 1;
                Some(Context { raw, released: false })
            },
        }
    }

    /// Pulls a commit snapshot.  `native` is the structure the native layer
    /// filled in, or nothing when no commit is pending — a valid absence, not
    /// an error.  Every filled-in answer is one native allocation, counted as
    /// acquired; the returned snapshot must be released exactly once.
    pub fn commit(&self, st: &mut EngineState, native: Option<RawCommit>) -> (r: Option<Commit>)
        requires
            old(st).wf(),
            old(st).commit_acquired < u64::MAX,
        ensures
            final(st).wf(),
            native is None ==> r is None && final(st)@ == old(st)@,
            native matches Some(raw) ==> (r matches Some(c) && c.raw_spec() == raw
                && !c.released_spec() && final(st)@ == acquire_transition(
                old(st)@,
                SnapshotKind::Commit,
            )),
    {
        match native {
            None => None,
            Some(raw) => {
                st.commit_acquired = st.commit_acquired + 1;
                Some(Commit { raw, released: false })
            },
        }
    }

    /// Pulls a status snapshot.  `native` is the structure the native layer
    /// filled in; nothing means the native layer could not allocate one, which
    /// is a genuine failure, distinct from the valid absences above.  Every
    /// filled-in answer is one native allocation, counted as acquired; the
    /// returned snapshot must be released exactly once.
    pub fn status(&self, st: &mut EngineState, native: Option<RawStatus>) -> (r: Result<
        Status,
        Error,
    >)
        requires
            old(st).wf(),
            old(st).status_acquired < u64::MAX,
        ensures
            final(st).wf(),
            native is None ==> r == Err::<Status, Error>(Error::GetStatus) && final(st)@ == old(
                st,
            )@,
            native matches Some(raw) ==> (r matches Ok(s) && s.raw_spec() == raw
                && !s.released_spec() && s.is_disabled == (raw.is_disabled != 0) && s.is_composing
                == (raw.is_composing != 0) && s.is_ascii_mode == (raw.is_ascii_mode != 0)
                && s.is_full_shape == (raw.is_full_shape != 0) && s.is_simplified
                == (raw.is_simplified != 0) && s.is_traditional == (raw.is_traditional != 0)
                && s.is_ascii_punct == (raw.is_ascii_punct != 0) && final(st)@
                == acquire_transition(old(st)@, SnapshotKind::Status)),
    {
        match native {
            None => Err(Error::GetStatus),
            Some(raw) => {
                st.status_acquired = st.status_acquired + 1;
                Ok(Status::from_rime(raw))
            },
        }
    }
}

/// Clones an optional string, preserving its value.
fn clone_opt_string(s: &Option<String>) -> (r: Option<String>)
    ensures
        r == *s,
{
    match s {
        Some(x) => Some(x.clone()),
        None => None,
    }
}

/// Law: releasing a snapshot a second time has no further effect; together
/// with the release contract this pairs each acquisition with at most one
/// counted release.
pub proof fn lemma_release_at_most_once(v: StateView, kind: SnapshotKind, released: bool)
    ensures
        ({
            let (v1, r1) = release_transition(v, kind, released);
            let (v2, r2) = release_transition(v1, kind, r1);
            v2 == v1 && r2 == r1
        }),
{
}

/// Law: one acquisition followed by the release of the still-unreleased
/// snapshot moves both counters of that kind by exactly one, and leaves the
/// balance of every kind where it was — acquisitions and releases stay paired
/// over any such round trip.
pub proof fn lemma_acquire_release_paired(v: StateView, kind: SnapshotKind)
    ensures
        ({
            let v1 = acquire_transition(v, kind);
            let (v2, r2) = release_transition(v1, kind, false);
            acquired_count(v2, kind) == acquired_count(v, kind) + 1 && released_count(v2, kind)
                == released_count(v, kind) + 1 && acquired_count(v2, kind) - released_count(
                v2,
                kind,
            ) == acquired_count(v, kind) - released_count(v, kind)
        }),
{
}

} // verus!
