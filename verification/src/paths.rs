use vstd::prelude::*;

verus! {

use vstd::string::StringExecFns;

/// The path, relative to a home directory, where per-user engine data lives
/// on the target platform.
pub open spec fn user_data_suffix() -> Seq<char> {
    "/.local/share/fcitx5/rime"@
}

/// Relies on home::home_dir: the platform home directory, drawn from the
/// process environment.  Nothing can be promised of it — it depends on the
/// environment — so the callers state what holds of every outcome.
#[verifier::external_body]
fn home_dir_string() -> Option<String> {
    match home::home_dir() {
        None => None,
        Some(p) => match p.to_str() {
            None => None,
            Some(s) => Some(s.to_owned()),
        },
    }
}

/// The per-user data directory that belongs under a given home directory.
pub fn user_data_dir_under(home_dir: &str) -> (r: String)
    ensures
        r@ == home_dir@ + user_data_suffix(),
{
    let mut out = home_dir.to_owned();
    out.append("/.local/share/fcitx5/rime");
    out
}

/// The default per-user data directory: the platform home directory joined
/// with the per-user data path, or empty when no home directory is known.
pub fn default_user_data_dir() -> (r: String)
    ensures
        r@.len() == 0 || exists|h: Seq<char>| r@ == #[trigger] (h + user_data_suffix()),
{
    match home_dir_string() {
        None => String::new(),
        Some(h) => {
            let out = user_data_dir_under(h.as_str());
            proof {
                assert(out@ == h@ + user_data_suffix());
            }
            out
        },
    }
}

/// The default directory of shared, distribution-provided engine data on the
/// target platform.
pub fn default_shared_data_dir() -> (r: String)
    ensures
        r@ == "/usr/share/rime-data/"@,
{
    String::from_str("/usr/share/rime-data/")
}

} // verus!
