//! Placing the executable in the bin dir: how the source is treated, what
//! placement reports, and which names in the bin dir are leftovers. The
//! file operations are the caller's.

use crate::self_install::env::Os;
use crate::self_install::layout::{binary_file_name, binary_file_name_spec};
use crate::text::{
    chars_of, contains, contains_seq, ends_with, is_prefix_of, is_suffix_of, owned, push_str,
    starts_with, str_eq, to_lowercase, unicode_lower,
};
use vstd::prelude::*;

verus! {

/// Whether the source file survives placement.
#[derive(Debug, Clone, Copy, PartialEq, Eq, Structural)]
pub enum PlaceMode {
    /// A person ran a downloaded binary: copy it and say it can be deleted.
    Copy,
    /// An installer script ran it from its temp dir: move it, so the download
    /// leaves nothing behind.
    Move,
}

/// What placement did.
#[derive(Debug, Clone, PartialEq, Eq)]
pub struct PlaceResult {
    /// The source already was the destination; nothing moved.
    pub already_in_place: bool,
    /// A previous binary at the destination was replaced.
    pub replaced_existing: bool,
    /// Windows could not delete the replaced binary because it is running;
    /// it was renamed here and is removed at the next start.
    pub parked_old: Option<String>,
}

impl Default for PlaceResult {
    fn default() -> (r: Self)
        ensures
            !r.already_in_place,
            !r.replaced_existing,
            r.parked_old is None,
    {
        PlaceResult { already_in_place: false, replaced_existing: false, parked_old: None }
    }
}

/// Whether a bin-dir entry is a leftover: a `.old` executable, an
/// installer-script temp dir, a staging file, or the update lock.
pub open spec fn is_stale(name: Seq<char>, app: Seq<char>, os: Os) -> bool {
    let binary = binary_file_name_spec(app, os);
    ||| is_prefix_of(binary + ".old"@, name)
    ||| is_prefix_of("."@ + app + "-install."@, name)
    ||| is_prefix_of("."@ + binary + ".tmp-"@, name)
    ||| name == "."@ + app + ".lock"@
}

/// Whether a bin-dir entry is a leftover of this app.
pub fn is_stale_name(name: &str, app: &str, os: Os) -> (r: bool)
    ensures
        r == is_stale(name@, app@, os),
{
    let binary = binary_file_name(app, os);
    let n = chars_of(name);
    let mut old_prefix = binary.clone();
    push_str(&mut old_prefix, ".old");
    let mut script_tmp = owned(".");
    push_str(&mut script_tmp, app);
    push_str(&mut script_tmp, "-install.");
    let mut staging = owned(".");
    push_str(&mut staging, binary.as_str());
    push_str(&mut staging, ".tmp-");
    let mut lock = owned(".");
    push_str(&mut lock, app);
    push_str(&mut lock, ".lock");
    starts_with(n.as_slice(), chars_of(old_prefix.as_str()).as_slice())
        || starts_with(n.as_slice(), chars_of(script_tmp.as_str()).as_slice())
        || starts_with(n.as_slice(), chars_of(staging.as_str()).as_slice())
        || str_eq(name, lock.as_str())
}

/// Whether a directory entry is another program's executable: an `.exe`
/// that is not ours and not a parked `.exe.old`, compared lower-cased.
pub open spec fn is_other_executable(name: Seq<char>, ours: Seq<char>) -> bool {
    let n = unicode_lower(name);
    &&& n != unicode_lower(ours)
    &&& is_suffix_of(".exe"@, n)
    &&& !contains_seq(n, ".exe.old"@)
}

/// Whether a directory entry is another program's executable.
pub fn other_executable(name: &str, ours: &str) -> (r: bool)
    ensures
        r == is_other_executable(name@, ours@),
{
    let n = to_lowercase(name);
    let o = to_lowercase(ours);
    let nc = chars_of(n.as_str());
    !str_eq(n.as_str(), o.as_str()) && ends_with(nc.as_slice(), chars_of(".exe").as_slice())
        && !contains(nc.as_slice(), chars_of(".exe.old").as_slice())
}

} // verus!
