//! Where things go: bin dir, binary name, receipt path.

use crate::self_install::env::{env_var, InstallEnv, Os};
use crate::telemetry::policy::env_prefix;
use crate::telemetry::init::trim_end_char;
use crate::text::{
    chars_of, is_prefix_of, join_path, owned, path_join, push_str, replace_all, replace_vec, seq_eq,
    string_of, to_lowercase, unicode_lower,
};
use vstd::prelude::*;

verus! {

/// The `HKEY_CURRENT_USER` subkey holding the per-user `Path`.
pub open spec fn user_path_registry_key() -> Seq<char> {
    "Environment"@
}

/// The receipt's file name inside `<state_root>/<app>`.
pub open spec fn receipt_file() -> Seq<char> {
    "install-receipt.json"@
}

/// `myapp` becomes `MYAPP`, `my-app.x` becomes `MY_APP_X`: the rule the
/// telemetry variables use, so an app's variables share one prefix.
pub fn env_var_prefix(app: &str) -> (r: String)
    ensures
        r@ == env_prefix(app@),
{
    crate::telemetry::policy::env_var_prefix(app)
}

pub open spec fn binary_file_name_spec(app: Seq<char>, os: Os) -> Seq<char> {
    if os == Os::Windows {
        app + ".exe"@
    } else {
        app
    }
}

/// `myapp` on Unix, `myapp.exe` on Windows.
pub fn binary_file_name(app: &str, os: Os) -> (r: String)
    ensures
        r@ == binary_file_name_spec(app@, os),
{
    let mut s = owned(app);
    if os.is_windows() {
        push_str(&mut s, ".exe");
    }
    s
}

/// An absolute path by the Unix rule: it starts at the root.
pub open spec fn is_absolute(p: Seq<char>) -> bool {
    p.len() > 0 && p[0] == '/'
}

/// Whether a path is absolute on an OS: rooted at `/` on Unix; on Windows
/// a drive letter with a separator (`C:\bin`), or a UNC path (`\\server\share`).
pub open spec fn is_absolute_on(p: Seq<char>, os: Os) -> bool {
    if os == Os::Windows {
        ||| (p.len() >= 3 && (('a' <= p[0] && p[0] <= 'z') || ('A' <= p[0] && p[0] <= 'Z')) && p[1] == ':'
            && (p[2] == '\\' || p[2] == '/'))
        ||| (p.len() >= 2 && (p[0] == '\\' || p[0] == '/') && (p[1] == '\\' || p[1] == '/'))
    } else {
        is_absolute(p)
    }
}

/// Whether a path is absolute on an OS.
pub fn is_absolute_exec(p: &str, os: Os) -> (r: bool)
    ensures
        r == is_absolute_on(p@, os),
{
    let v = crate::text::chars_of(p);
    let sep = |c: char| -> (b: bool)
        ensures
            b == (c == '\\' || c == '/'),
        { c == '\\' || c == '/' };
    if os == Os::Windows {
        (v.len() >= 3 && (('a' <= v[0] && v[0] <= 'z') || ('A' <= v[0] && v[0] <= 'Z')) && v[1] == ':' && sep(v[2]))
            || (v.len() >= 2 && sep(v[0]) && sep(v[1]))
    } else {
        v.len() > 0 && v[0] == '/'
    }
}

pub open spec fn default_bin_dir_spec(e: InstallEnv) -> Option<Seq<char>> {
    if e.os != Os::Windows && (env_var(e.vars@, "XDG_BIN_HOME"@) matches Some(x) && is_absolute(x)) {
        env_var(e.vars@, "XDG_BIN_HOME"@)
    } else {
        match e.home {
            Some(h) => Some(path_join(path_join(h@, ".local"@), "bin"@)),
            None => None,
        }
    }
}

/// The per-user bin dir: an absolute `$XDG_BIN_HOME` or `~/.local/bin` on
/// Unix, `%USERPROFILE%\.local\bin` on Windows. `None` only without a home.
pub fn default_bin_dir(env: &InstallEnv) -> (r: Option<String>)
    ensures
        match r {
            Some(p) => default_bin_dir_spec(*env) == Some(p@),
            None => default_bin_dir_spec(*env) is None,
        },
{
    if !env.os.is_windows() {
        if let Some(xdg) = env.var("XDG_BIN_HOME") {
            let c = crate::text::chars_of(xdg);
            if c.len() > 0 && c[0] == '/' {
                return Some(owned(xdg));
            }
        }
    }
    match &env.home {
        Some(h) => {
            let local = join_path(h.as_str(), ".local");
            Some(join_path(local.as_str(), "bin"))
        },
        None => None,
    }
}

/// `<state_root>/<app>/install-receipt.json`.
pub fn receipt_path(env: &InstallEnv) -> (r: Option<String>)
    ensures
        match r {
            Some(p) => env.state_root matches Some(root) && p@ == path_join(
                path_join(root@, env.app@),
                receipt_file(),
            ),
            None => env.state_root is None,
        },
{
    match &env.state_root {
        Some(root) => {
            let dir = join_path(root.as_str(), env.app.as_str());
            Some(join_path(dir.as_str(), "install-receipt.json"))
        },
        None => None,
    }
}

/// The `\\?\\` prefix of a Windows verbatim path.
pub open spec fn verbatim_prefix() -> Seq<char> {
    seq!['\\', '\\', '?', '\\']
}

/// A Windows path as compared: separators made backslashes, lower-cased,
/// without a verbatim prefix and without trailing backslashes.
pub open spec fn normalized_windows(p: Seq<char>) -> Seq<char> {
    let s = unicode_lower(replace_all(p, seq!['/'], seq!['\\']));
    let s = if is_prefix_of(verbatim_prefix(), s) {
        s.subrange(4, s.len() as int)
    } else {
        s
    };
    trim_end_char(s, '\\')
}

pub fn normalize_windows(p: &str) -> (r: Vec<char>)
    ensures
        r@ == normalized_windows(p@),
{
    let from = ['/'];
    let to = ['\\'];
    assert(from@ =~= seq!['/']);
    assert(to@ =~= seq!['\\']);
    let slashed = replace_vec(chars_of(p).as_slice(), &from, &to);
    let lowered = to_lowercase(string_of(slashed.as_slice()).as_str());
    let s = chars_of(lowered.as_str());
    assert(s@ == unicode_lower(replace_all(p@, seq!['/'], seq!['\\'])));
    let prefix = ['\\', '\\', '?', '\\'];
    assert(prefix@ =~= verbatim_prefix());
    let mut start: usize = 0;
    if s.len() >= 4 && seq_eq(&s.as_slice()[0..4], &prefix) {
        assert(s@.subrange(0, 4) == verbatim_prefix());
        start = 4;
    } else {
        assert(s@.len() >= 4 ==> s@.subrange(0, 4) != verbatim_prefix());
    }
    let mut end: usize = s.len();
    assert(s@.subrange(start as int, end as int).subrange(0, (end - start) as int) =~= s@.subrange(
        start as int,
        end as int,
    ));
    while end > start && s[end - 1] == '\\'
        invariant
            start <= end <= s@.len(),
            trim_end_char(s@.subrange(start as int, end as int), '\\') == trim_end_char(
                s@.subrange(start as int, s@.len() as int),
                '\\',
            ),
        decreases end,
    {
        assert(s@.subrange(start as int, end as int).drop_last() =~= s@.subrange(start as int, end - 1));
        end = end - 1;
    }
    assert(trim_end_char(s@.subrange(start as int, end as int), '\\') == s@.subrange(
        start as int,
        end as int,
    ));
    assert(start == 0 ==> s@.subrange(start as int, s@.len() as int) =~= s@);
    let mut out: Vec<char> = Vec::new();
    let mut i = start;
    while i < end
        invariant
            start <= i <= end <= s@.len(),
            out@ == s@.subrange(start as int, i as int),
        decreases end - i,
    {
        out.push(s[i]);
        assert(s@.subrange(start as int, i + 1) =~= s@.subrange(start as int, i as int).push(s@[i as int]));
        i = i + 1;
    }
    out
}

/// Whether two canonical paths name the same file: equal, and compared
/// case-insensitively on Windows.
pub open spec fn same_path_spec(a: Seq<char>, b: Seq<char>, os: Os) -> bool {
    if os == Os::Windows {
        normalized_windows(a) == normalized_windows(b)
    } else {
        a == b
    }
}

/// Compare two paths the caller has canonicalized (or kept as given where
/// they do not exist).
pub fn same_path(a: &str, b: &str, os: Os) -> (r: bool)
    ensures
        r == same_path_spec(a@, b@, os),
{
    if os == Os::Windows {
        let na = normalize_windows(a);
        let nb = normalize_windows(b);
        seq_eq(na.as_slice(), nb.as_slice())
    } else {
        crate::text::str_eq(a, b)
    }
}

/// Path identity is an equivalence: every path is itself, and the
/// relation is symmetric and transitive on every platform.
pub proof fn law_same_path_is_an_equivalence(a: Seq<char>, b: Seq<char>, c: Seq<char>, os: Os)
    ensures
        same_path_spec(a, a, os),
        same_path_spec(a, b, os) == same_path_spec(b, a, os),
        same_path_spec(a, b, os) && same_path_spec(b, c, os) ==> same_path_spec(a, c, os),
{
}

} // verus!
