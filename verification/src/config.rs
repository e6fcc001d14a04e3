use vstd::prelude::*;

verus! {

use vstd::string::StringExecFns;
use crate::text::has_nul;

/// Identifies one of the string-valued configuration fields of the native
/// initialization structure.
#[derive(Clone, Copy, Debug, PartialEq, Eq)]
pub enum TraitsField {
    SharedDataDir,
    UserDataDir,
    DistributionName,
    DistributionCodeName,
    DistributionVersion,
    AppName,
    LogDir,
    PrebuiltDataDir,
    StagingDir,
}

/// Bytes taken by the size header itself at the front of every native
/// structure the binding passes across the boundary.
pub const DATA_SIZE_FIELD_BYTES: i32 = 4;

/// Total bytes of the native configuration structure in the 64-bit layout the
/// binding targets: the 4-byte size header plus 4 bytes of padding, six 8-byte
/// string pointers, the 8-byte module-list pointer, the 4-byte log level plus
/// 4 bytes of padding, and three more 8-byte string pointers.
pub const TRAITS_STRUCT_BYTES: i32 = 96;

/// Value of the configuration structure's size header: the structure's own
/// byte size minus the header field.  The native library versions its
/// structures by this self-declared length (not by a version number) to detect
/// which optional trailing fields are present, so it must be set on
/// construction, before the structure is ever passed across.
pub const TRAITS_DATA_SIZE: i32 = TRAITS_STRUCT_BYTES - DATA_SIZE_FIELD_BYTES;

/// The mathematical view of a configuration value: the size header, the log
/// level, the current contents of each string field and of the module list,
/// and the arena of every buffer ever handed to the native layer, in the order
/// it was stored.
#[verifier::ext_equal]
pub struct TraitsView {
    pub data_size: int,
    pub min_log_level: int,
    pub shared_data_dir: Option<Seq<char>>,
    pub user_data_dir: Option<Seq<char>>,
    pub distribution_name: Option<Seq<char>>,
    pub distribution_code_name: Option<Seq<char>>,
    pub distribution_version: Option<Seq<char>>,
    pub app_name: Option<Seq<char>>,
    pub log_dir: Option<Seq<char>>,
    pub prebuilt_data_dir: Option<Seq<char>>,
    pub staging_dir: Option<Seq<char>>,
    pub modules: Option<Seq<Seq<char>>>,
    pub resources: Seq<Seq<char>>,
}

impl TraitsView {
    /// The current contents of one string field.
    pub open spec fn field(self, f: TraitsField) -> Option<Seq<char>> {
        match f {
            TraitsField::SharedDataDir => self.shared_data_dir,
            TraitsField::UserDataDir => self.user_data_dir,
            TraitsField::DistributionName => self.distribution_name,
            TraitsField::DistributionCodeName => self.distribution_code_name,
            TraitsField::DistributionVersion => self.distribution_version,
            TraitsField::AppName => self.app_name,
            TraitsField::LogDir => self.log_dir,
            TraitsField::PrebuiltDataDir => self.prebuilt_data_dir,
            TraitsField::StagingDir => self.staging_dir,
        }
    }
}

/// The view after one setter call: the new buffer joins the arena (the buffer
/// it replaces, if any, stays there) and the field now reads the new contents.
pub open spec fn set_field_transition(v: TraitsView, f: TraitsField, s: Seq<char>) -> TraitsView {
    let pushed = TraitsView { resources: v.resources.push(s), ..v };
    match f {
        TraitsField::SharedDataDir => TraitsView { shared_data_dir: Some(s), ..pushed },
        TraitsField::UserDataDir => TraitsView { user_data_dir: Some(s), ..pushed },
        TraitsField::DistributionName => TraitsView { distribution_name: Some(s), ..pushed },
        TraitsField::DistributionCodeName => TraitsView { distribution_code_name: Some(s), ..pushed },
        TraitsField::DistributionVersion => TraitsView { distribution_version: Some(s), ..pushed },
        TraitsField::AppName => TraitsView { app_name: Some(s), ..pushed },
        TraitsField::LogDir => TraitsView { log_dir: Some(s), ..pushed },
        TraitsField::PrebuiltDataDir => TraitsView { prebuilt_data_dir: Some(s), ..pushed },
        TraitsField::StagingDir => TraitsView { staging_dir: Some(s), ..pushed },
    }
}

/// The view of a freshly constructed configuration: every field absent, the
/// log level zero, the arena empty, and the size header already declaring the
/// structure's layout.
pub open spec fn empty_traits() -> TraitsView {
    TraitsView {
        data_size: TRAITS_DATA_SIZE as int,
        min_log_level: 0,
        shared_data_dir: None,
        user_data_dir: None,
        distribution_name: None,
        distribution_code_name: None,
        distribution_version: None,
        app_name: None,
        log_dir: None,
        prebuilt_data_dir: None,
        staging_dir: None,
        modules: None,
        resources: Seq::empty(),
    }
}

/// Initialization parameters for the native engine: data directories,
/// distribution metadata and the log level.
///
/// The native layer retains raw pointers into these strings without copying,
/// so the configuration owns every buffer it ever handed over for its whole
/// lifetime.  Buffers live in an insertion-ordered arena; each string field
/// holds the arena index of its current buffer.  Setting a field again leaves
/// the replaced buffer in the arena, so every buffer is released exactly once,
/// together with the configuration value itself — never earlier, never twice.
pub struct Traits {
    pub data_size: i32,
    pub min_log_level: i32,
    pub shared_data_dir: Option<usize>,
    pub user_data_dir: Option<usize>,
    pub distribution_name: Option<usize>,
    pub distribution_code_name: Option<usize>,
    pub distribution_version: Option<usize>,
    pub app_name: Option<usize>,
    pub log_dir: Option<usize>,
    pub prebuilt_data_dir: Option<usize>,
    pub staging_dir: Option<usize>,
    pub modules: Option<Vec<String>>,
    pub resources: Vec<(TraitsField, String)>,
}

impl View for Traits {
    type V = TraitsView;

    open spec fn view(&self) -> TraitsView {
        TraitsView {
            data_size: self.data_size as int,
            min_log_level: self.min_log_level as int,
            shared_data_dir: field_view(self.shared_data_dir, self.resources@),
            user_data_dir: field_view(self.user_data_dir, self.resources@),
            distribution_name: field_view(self.distribution_name, self.resources@),
            distribution_code_name: field_view(self.distribution_code_name, self.resources@),
            distribution_version: field_view(self.distribution_version, self.resources@),
            app_name: field_view(self.app_name, self.resources@),
            log_dir: field_view(self.log_dir, self.resources@),
            prebuilt_data_dir: field_view(self.prebuilt_data_dir, self.resources@),
            staging_dir: field_view(self.staging_dir, self.resources@),
            modules: match self.modules {
                Some(ms) => Some(ms@.map_values(|m: String| m@)),
                None => None,
            },
            resources: self.resources@.map_values(|p: (TraitsField, String)| p.1@),
        }
    }
}

/// What a string field reads through its stored arena index.
pub open spec fn field_view(idx: Option<usize>, arena: Seq<(TraitsField, String)>) -> Option<
    Seq<char>,
> {
    match idx {
        Some(i) => Some(arena[i as int].1@),
        None => None,
    }
}

impl Traits {
    /// Internal well-formedness: every stored arena index is in bounds.
    pub open spec fn wf(&self) -> bool {
        &&& (self.shared_data_dir matches Some(i) ==> i < self.resources@.len())
        &&& (self.user_data_dir matches Some(i) ==> i < self.resources@.len())
        &&& (self.distribution_name matches Some(i) ==> i < self.resources@.len())
        &&& (self.distribution_code_name matches Some(i) ==> i < self.resources@.len())
        &&& (self.distribution_version matches Some(i) ==> i < self.resources@.len())
        &&& (self.app_name matches Some(i) ==> i < self.resources@.len())
        &&& (self.log_dir matches Some(i) ==> i < self.resources@.len())
        &&& (self.prebuilt_data_dir matches Some(i) ==> i < self.resources@.len())
        &&& (self.staging_dir matches Some(i) ==> i < self.resources@.len())
    }

    /// A configuration with every field zero-initialized and the size header
    /// set for the structure's layout.
    pub fn new() -> (t: Traits)
        ensures
            t@ == empty_traits(),
            t.wf(),
    {
        let t = Traits {
            data_size: TRAITS_DATA_SIZE,
            min_log_level: 0,
            shared_data_dir: None,
            user_data_dir: None,
            distribution_name: None,
            distribution_code_name: None,
            distribution_version: None,
            app_name: None,
            log_dir: None,
            prebuilt_data_dir: None,
            staging_dir: None,
            modules: None,
            resources: Vec::new(),
        };
        proof {
            assert(t@ =~= empty_traits());
        }
        t
    }

    /// Sets the numeric log level.
    pub fn set_min_log_level(&mut self, level: u8)
        ensures
            final(self)@ == (TraitsView { min_log_level: level as int, ..old(self)@ }),
            old(self).wf() ==> final(self).wf(),
    {
        self.min_log_level = level as i32;
        proof {
            assert(self@ =~= (TraitsView { min_log_level: level as int, ..old(self)@ }));
        }
    }

    /// Stores the list of native modules to load.  Each name must hold no
    /// embedded null byte, as each becomes a null-terminated native buffer.
    pub fn set_modules(&mut self, modules: &[&str])
        requires
            forall|i: int| 0 <= i < modules@.len() ==> !has_nul(modules@[i]@),
        ensures
            final(self)@ == (TraitsView {
                modules: Some(Seq::new(modules@.len(), |i: int| modules@[i]@)),
                ..old(self)@
            }),
            old(self).wf() ==> final(self).wf(),
    {
        let n: usize = modules.len();
        let mut owned: Vec<String> = Vec::new();
        let mut i: usize = 0;
        while i < n
            invariant
                i <= n,
                n == modules@.len(),
                owned@.len() == i,
                forall|j: int| 0 <= j < i ==> owned@[j]@ == modules@[j]@,
            decreases n - i,
        {
            owned.push(modules[i].to_owned());
            i = i + 1;
        }
        self.modules = Some(owned);
        proof {
            assert(self@.modules matches Some(ms) && ms =~= Seq::new(
                modules@.len(),
                |i: int| modules@[i]@,
            ));
            assert(self@ =~= (TraitsView {
                modules: Some(Seq::new(modules@.len(), |i: int| modules@[i]@)),
                ..old(self)@
            }));
        }
    }

    /// Reads one string field back through its stored buffer: exactly the
    /// bytes the native layer sees through the corresponding pointer.
    pub fn field_value(&self, f: TraitsField) -> (r: Option<&str>)
        requires
            self.wf(),
        ensures
            r is Some <==> self@.field(f) is Some,
            r matches Some(s) ==> self@.field(f) == Some(s@),
    {
        let idx = match f {
            TraitsField::SharedDataDir => self.shared_data_dir,
            TraitsField::UserDataDir => self.user_data_dir,
            TraitsField::DistributionName => self.distribution_name,
            TraitsField::DistributionCodeName => self.distribution_code_name,
            TraitsField::DistributionVersion => self.distribution_version,
            TraitsField::AppName => self.app_name,
            TraitsField::LogDir => self.log_dir,
            TraitsField::PrebuiltDataDir => self.prebuilt_data_dir,
            TraitsField::StagingDir => self.staging_dir,
        };
        match idx {
            Some(i) => Some(self.resources[i].1.as_str()),
            None => None,
        }
    }
}

/// One setter per native string field.  Each stores the new buffer in the
/// arena and points the field at it; a replaced buffer stays owned until the
/// configuration itself is destroyed.  The caller-supplied string must hold no
/// embedded null byte: the native boundary reads null-terminated buffers, and
/// truncating silently is not acceptable here.
impl Traits {
    /// Sets the directory of shared, distribution-provided engine data.
    pub fn set_shared_data_dir(&mut self, path: &str)
        requires
            !has_nul(path@),
            old(self).wf(),
        ensures
            final(self)@ == set_field_transition(old(self)@, TraitsField::SharedDataDir, path@),
            final(self).wf(),
    {
        let idx: usize = self.resources.len();
        self.resources.push((TraitsField::SharedDataDir, path.to_owned()));
        self.shared_data_dir = Some(idx);
        proof {
            lemma_setter_view(*old(self), *self, TraitsField::SharedDataDir, path@);
        }
    }

    /// Sets the directory of per-user engine data.
    pub fn set_user_data_dir(&mut self, path: &str)
        requires
            !has_nul(path@),
            old(self).wf(),
        ensures
            final(self)@ == set_field_transition(old(self)@, TraitsField::UserDataDir, path@),
            final(self).wf(),
    {
        let idx: usize = self.resources.len();
        self.resources.push((TraitsField::UserDataDir, path.to_owned()));
        self.user_data_dir = Some(idx);
        proof {
            lemma_setter_view(*old(self), *self, TraitsField::UserDataDir, path@);
        }
    }

    /// Sets the distribution's display name.
    pub fn set_distribution_name(&mut self, path: &str)
        requires
            !has_nul(path@),
            old(self).wf(),
        ensures
            final(self)@ == set_field_transition(old(self)@, TraitsField::DistributionName, path@),
            final(self).wf(),
    {
        let idx: usize = self.resources.len();
        self.resources.push((TraitsField::DistributionName, path.to_owned()));
        self.distribution_name = Some(idx);
        proof {
            lemma_setter_view(*old(self), *self, TraitsField::DistributionName, path@);
        }
    }

    /// Sets the distribution's code name.
    pub fn set_distribution_code_name(&mut self, path: &str)
        requires
            !has_nul(path@),
            old(self).wf(),
        ensures
            final(self)@ == set_field_transition(
                old(self)@,
                TraitsField::DistributionCodeName,
                path@,
            ),
            final(self).wf(),
    {
        let idx: usize = self.resources.len();
        self.resources.push((TraitsField::DistributionCodeName, path.to_owned()));
        self.distribution_code_name = Some(idx);
        proof {
            lemma_setter_view(*old(self), *self, TraitsField::DistributionCodeName, path@);
        }
    }

    /// Sets the distribution's version string.
    pub fn set_distribution_version(&mut self, path: &str)
        requires
            !has_nul(path@),
            old(self).wf(),
        ensures
            final(self)@ == set_field_transition(
                old(self)@,
                TraitsField::DistributionVersion,
                path@,
            ),
            final(self).wf(),
    {
        let idx: usize = self.resources.len();
        self.resources.push((TraitsField::DistributionVersion, path.to_owned()));
        self.distribution_version = Some(idx);
        proof {
            lemma_setter_view(*old(self), *self, TraitsField::DistributionVersion, path@);
        }
    }

    /// Sets the name the application registers with the engine.
    pub fn set_app_name(&mut self, path: &str)
        requires
            !has_nul(path@),
            old(self).wf(),
        ensures
            final(self)@ == set_field_transition(old(self)@, TraitsField::AppName, path@),
            final(self).wf(),
    {
        let idx: usize = self.resources.len();
        self.resources.push((TraitsField::AppName, path.to_owned()));
        self.app_name = Some(idx);
        proof {
            lemma_setter_view(*old(self), *self, TraitsField::AppName, path@);
        }
    }

    /// Sets the directory for engine log files.
    pub fn set_log_dir(&mut self, path: &str)
        requires
            !has_nul(path@),
            old(self).wf(),
        ensures
            final(self)@ == set_field_transition(old(self)@, TraitsField::LogDir, path@),
            final(self).wf(),
    {
        let idx: usize = self.resources.len();
        self.resources.push((TraitsField::LogDir, path.to_owned()));
        self.log_dir = Some(idx);
        proof {
            lemma_setter_view(*old(self), *self, TraitsField::LogDir, path@);
        }
    }

    /// Sets the directory of prebuilt engine data.
    pub fn set_prebuilt_data_dir(&mut self, path: &str)
        requires
            !has_nul(path@),
            old(self).wf(),
        ensures
            final(self)@ == set_field_transition(old(self)@, TraitsField::PrebuiltDataDir, path@),
            final(self).wf(),
    {
        let idx: usize = self.resources.len();
        self.resources.push((TraitsField::PrebuiltDataDir, path.to_owned()));
        self.prebuilt_data_dir = Some(idx);
        proof {
            lemma_setter_view(*old(self), *self, TraitsField::PrebuiltDataDir, path@);
        }
    }

    /// Sets the staging directory for deployment.
    pub fn set_staging_dir(&mut self, path: &str)
        requires
            !has_nul(path@),
            old(self).wf(),
        ensures
            final(self)@ == set_field_transition(old(self)@, TraitsField::StagingDir, path@),
            final(self).wf(),
    {
        let idx: usize = self.resources.len();
        self.resources.push((TraitsField::StagingDir, path.to_owned()));
        self.staging_dir = Some(idx);
        proof {
            lemma_setter_view(*old(self), *self, TraitsField::StagingDir, path@);
        }
    }
}

/// Shared proof step for the nine setters: pushing the new buffer and pointing
/// the one field at it produces exactly the setter transition's view.
proof fn lemma_setter_view(pre: Traits, post: Traits, f: TraitsField, s: Seq<char>)
    requires
        pre.wf(),
        pre.resources@.len() <= usize::MAX,
        post.resources@.len() == pre.resources@.len() + 1,
        forall|i: int| 0 <= i < pre.resources@.len() ==> post.resources@[i] == pre.resources@[i],
        post.resources@[pre.resources@.len() as int].1@ == s,
        post.data_size == pre.data_size,
        post.min_log_level == pre.min_log_level,
        post.modules == pre.modules,
        field_idx(post, f) == Some(pre.resources@.len() as usize),
        forall|g: TraitsField| g != f ==> field_idx(post, g) == field_idx(pre, g),
    ensures
        post@ == set_field_transition(pre@, f, s),
        post.wf(),
{
    assert(post@.resources =~= pre@.resources.push(s));
    assert(f == TraitsField::SharedDataDir || field_idx(post, TraitsField::SharedDataDir)
        == field_idx(pre, TraitsField::SharedDataDir));
    assert(f == TraitsField::UserDataDir || field_idx(post, TraitsField::UserDataDir)
        == field_idx(pre, TraitsField::UserDataDir));
    assert(f == TraitsField::DistributionName || field_idx(post, TraitsField::DistributionName)
        == field_idx(pre, TraitsField::DistributionName));
    assert(f == TraitsField::DistributionCodeName || field_idx(
        post,
        TraitsField::DistributionCodeName,
    ) == field_idx(pre, TraitsField::DistributionCodeName));
    assert(f == TraitsField::DistributionVersion || field_idx(
        post,
        TraitsField::DistributionVersion,
    ) == field_idx(pre, TraitsField::DistributionVersion));
    assert(f == TraitsField::AppName || field_idx(post, TraitsField::AppName) == field_idx(
        pre,
        TraitsField::AppName,
    ));
    assert(f == TraitsField::LogDir || field_idx(post, TraitsField::LogDir) == field_idx(
        pre,
        TraitsField::LogDir,
    ));
    assert(f == TraitsField::PrebuiltDataDir || field_idx(post, TraitsField::PrebuiltDataDir)
        == field_idx(pre, TraitsField::PrebuiltDataDir));
    assert(f == TraitsField::StagingDir || field_idx(post, TraitsField::StagingDir) == field_idx(
        pre,
        TraitsField::StagingDir,
    ));
    match pre.shared_data_dir {
        Some(i) => {
            assert(post.resources@[i as int] == pre.resources@[i as int]);
        },
        None => {},
    }
    match pre.user_data_dir {
        Some(i) => {
            assert(post.resources@[i as int] == pre.resources@[i as int]);
        },
        None => {},
    }
    match pre.distribution_name {
        Some(i) => {
            assert(post.resources@[i as int] == pre.resources@[i as int]);
        },
        None => {},
    }
    match pre.distribution_code_name {
        Some(i) => {
            assert(post.resources@[i as int] == pre.resources@[i as int]);
        },
        None => {},
    }
    match pre.distribution_version {
        Some(i) => {
            assert(post.resources@[i as int] == pre.resources@[i as int]);
        },
        None => {},
    }
    match pre.app_name {
        Some(i) => {
            assert(post.resources@[i as int] == pre.resources@[i as int]);
        },
        None => {},
    }
    match pre.log_dir {
        Some(i) => {
            assert(post.resources@[i as int] == pre.resources@[i as int]);
        },
        None => {},
    }
    match pre.prebuilt_data_dir {
        Some(i) => {
            assert(post.resources@[i as int] == pre.resources@[i as int]);
        },
        None => {},
    }
    match pre.staging_dir {
        Some(i) => {
            assert(post.resources@[i as int] == pre.resources@[i as int]);
        },
        None => {},
    }
    assert(post@ =~= set_field_transition(pre@, f, s));
}

/// The arena index a configuration stores for one field.
pub open spec fn field_idx(t: Traits, f: TraitsField) -> Option<usize> {
    match f {
        TraitsField::SharedDataDir => t.shared_data_dir,
        TraitsField::UserDataDir => t.user_data_dir,
        TraitsField::DistributionName => t.distribution_name,
        TraitsField::DistributionCodeName => t.distribution_code_name,
        TraitsField::DistributionVersion => t.distribution_version,
        TraitsField::AppName => t.app_name,
        TraitsField::LogDir => t.log_dir,
        TraitsField::PrebuiltDataDir => t.prebuilt_data_dir,
        TraitsField::StagingDir => t.staging_dir,
    }
}

/// The tag under which each field's buffer is recorded in the arena.
pub open spec fn field_tag(f: TraitsField) -> Seq<char> {
    match f {
        TraitsField::SharedDataDir => "shared_data_dir"@,
        TraitsField::UserDataDir => "user_data_dir"@,
        TraitsField::DistributionName => "distribution_name"@,
        TraitsField::DistributionCodeName => "distribution_code_name"@,
        TraitsField::DistributionVersion => "distribution_version"@,
        TraitsField::AppName => "app_name"@,
        TraitsField::LogDir => "log_dir"@,
        TraitsField::PrebuiltDataDir => "prebuilt_data_dir"@,
        TraitsField::StagingDir => "staging_dir"@,
    }
}

/// The rendering tag for one field.
pub fn field_tag_str(f: TraitsField) -> (r: &'static str)
    ensures
        r@ == field_tag(f),
{
    match f {
        TraitsField::SharedDataDir => "shared_data_dir",
        TraitsField::UserDataDir => "user_data_dir",
        TraitsField::DistributionName => "distribution_name",
        TraitsField::DistributionCodeName => "distribution_code_name",
        TraitsField::DistributionVersion => "distribution_version",
        TraitsField::AppName => "app_name",
        TraitsField::LogDir => "log_dir",
        TraitsField::PrebuiltDataDir => "prebuilt_data_dir",
        TraitsField::StagingDir => "staging_dir",
    }
}

/// One rendered line of the configuration's debugging view.
pub open spec fn tagged_line(f: TraitsField, s: Seq<char>) -> Seq<char> {
    field_tag(f) + ": "@ + s
}

/// The rendering of a whole arena: one line per buffer, newline-separated, in
/// insertion order.
pub open spec fn describe_entries(entries: Seq<(TraitsField, Seq<char>)>) -> Seq<char>
    decreases entries.len(),
{
    if entries.len() == 0 {
        Seq::empty()
    } else if entries.len() == 1 {
        tagged_line(entries[0].0, entries[0].1)
    } else {
        tagged_line(entries[0].0, entries[0].1) + "\n"@ + describe_entries(entries.drop_first())
    }
}

/// Appending one entry appends one line (with a separator once the rendering
/// is non-empty).
proof fn lemma_describe_push(entries: Seq<(TraitsField, Seq<char>)>, e: (TraitsField, Seq<char>))
    ensures
        describe_entries(entries.push(e)) == if entries.len() == 0 {
            tagged_line(e.0, e.1)
        } else {
            describe_entries(entries) + "\n"@ + tagged_line(e.0, e.1)
        },
    decreases entries.len(),
{
    if entries.len() == 0 {
        assert(entries.push(e)[0] == e);
    } else {
        assert(entries.push(e)[0] == entries[0]);
        assert(entries.push(e).drop_first() =~= entries.drop_first().push(e));
        lemma_describe_push(entries.drop_first(), e);
        assert(describe_entries(entries.push(e)) =~= (if entries.len() == 0 {
            tagged_line(e.0, e.1)
        } else {
            describe_entries(entries) + "\n"@ + tagged_line(e.0, e.1)
        }));
    }
}

impl Traits {
    /// The arena with each buffer's contents, for specification purposes.
    pub open spec fn tagged_entries(self) -> Seq<(TraitsField, Seq<char>)> {
        self.resources@.map_values(|p: (TraitsField, String)| (p.0, p.1@))
    }

    /// Renders every stored buffer as "tag: value", one line per buffer,
    /// newline-separated and in insertion order: the debugging view of
    /// everything the configuration owns, replaced buffers included.
    pub fn describe(&self) -> (r: String)
        ensures
            r@ == describe_entries(self.tagged_entries()),
    {
        let mut out = String::new();
        let n: usize = self.resources.len();
        let mut i: usize = 0;
        while i < n
            invariant
                i <= n,
                n == self.resources@.len(),
                out@ == describe_entries(self.tagged_entries().take(i as int)),
            decreases n - i,
        {
            if i > 0 {
                out.append("\n");
            }
            let tag = self.resources[i].0;
            out.append(field_tag_str(tag));
            out.append(": ");
            out.append(self.resources[i].1.as_str());
            proof {
                let entries = self.tagged_entries();
                assert(entries.take(i + 1 as int) =~= entries.take(i as int).push(
                    entries[i as int],
                ));
                lemma_describe_push(entries.take(i as int), entries[i as int]);
                assert(out@ =~= describe_entries(entries.take(i + 1 as int)));
            }
            i = i + 1;
        }
        proof {
            assert(self.tagged_entries().take(n as int) =~= self.tagged_entries());
        }
        out
    }
}

impl Default for Traits {
    /// A configuration equal to `Traits::new()`.
    fn default() -> (t: Self)
        ensures
            t@ == empty_traits(),
            t.wf(),
    {
        Traits::new()
    }
}

/// Law: after setting a field, reading it back through the structure yields
/// exactly the character sequence that was set.
pub proof fn lemma_set_then_read(v: TraitsView, f: TraitsField, s: Seq<char>)
    ensures
        set_field_transition(v, f, s).field(f) == Some(s),
{
}

/// Law: setting one field leaves the readable value of every other field
/// unchanged, so values set earlier still read back identically later.
pub proof fn lemma_set_preserves_other_fields(v: TraitsView, f: TraitsField, g: TraitsField, s: Seq<char>)
    requires
        f != g,
    ensures
        set_field_transition(v, f, s).field(g) == v.field(g),
{
}

/// Law: a setter only ever grows the arena.  In particular the buffer a
/// repeated setter replaces stays tracked, to be released exactly once with
/// the configuration value itself.
pub proof fn lemma_set_retains_replaced_buffers(v: TraitsView, f: TraitsField, s: Seq<char>)
    ensures
        set_field_transition(v, f, s).resources == v.resources.push(s),
{
}

} // verus!
