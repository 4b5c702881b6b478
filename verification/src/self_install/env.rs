//! A snapshot of the process facts every self-install operation reads.

use crate::text::{
    chars_of, lookup, lower_seq, lower_vec, owned, pair_get, seq_eq, seqs, split_char, split_on,
    string_of,
};
use vstd::prelude::*;

verus! {

/// The operating system family, as far as installation cares.
#[derive(Debug, Clone, Copy, PartialEq, Eq, Structural)]
pub enum Os {
    Linux,
    Macos,
    Windows,
    /// Any other Unix; treated like Linux.
    OtherUnix,
}

impl Os {
    pub fn is_windows(self) -> (r: bool)
        ensures
            r == (self == Os::Windows),
    {
        self == Os::Windows
    }
}

/// Everything an operation needs to know about the machine and process.
/// Paths are held as text.
#[derive(Debug, Clone)]
pub struct InstallEnv {
    pub app: String,
    pub version: String,
    pub os: Os,
    pub home: Option<String>,
    /// Environment variables, captured once, in key order, each key once.
    pub vars: Vec<(String, String)>,
    pub current_exe: String,
    pub stdout_is_terminal: bool,
    /// Effective uid 0 on Unix. Always false on Windows.
    pub is_root: bool,
    /// Machine-local state root; the receipt lives in `<state_root>/<app>`.
    pub state_root: Option<String>,
    /// Config root, touched only by `--purge`.
    pub config_root: Option<String>,
    /// Roaming data root, touched only by `--purge`.
    pub data_root: Option<String>,
    /// Registry key under `HKEY_CURRENT_USER` whose `Path` value is edited
    /// on Windows.
    pub user_path_key: String,
    /// The argv prefix that reaches the built-in `completion` command.
    pub completion_command: Option<Vec<String>>,
    /// How a person invokes the self group, used in messages.
    pub self_invocation: String,
}

/// A variable's value, an empty one counting as unset.
pub open spec fn env_var(vars: Seq<(String, String)>, key: Seq<char>) -> Option<Seq<char>> {
    match pair_get(vars, key) {
        Some(v) => if v.len() > 0 {
            Some(v)
        } else {
            None
        },
        None => None,
    }
}

/// The first variable whose name is `PATH` (any ASCII case on Windows).
pub open spec fn path_var(vars: Seq<(String, String)>, windows: bool) -> Seq<char>
    decreases vars.len(),
{
    if vars.len() == 0 {
        Seq::empty()
    } else if (windows && lower_seq(vars[0].0@) == "path"@) || (!windows && vars[0].0@ == "PATH"@) {
        vars[0].1@
    } else {
        path_var(vars.drop_first(), windows)
    }
}

/// The non-empty pieces, in order.
pub open spec fn non_empty(parts: Seq<Seq<char>>) -> Seq<Seq<char>>
    decreases parts.len(),
{
    if parts.len() == 0 {
        Seq::empty()
    } else {
        let rest = non_empty(parts.drop_last());
        if parts.last().len() > 0 {
            rest.push(parts.last())
        } else {
            rest
        }
    }
}

pub open spec fn path_sep(os: Os) -> char {
    if os == Os::Windows {
        ';'
    } else {
        ':'
    }
}

impl InstallEnv {
    /// A variable's value, treating empty as unset.
    pub fn var(&self, key: &str) -> (r: Option<&str>)
        ensures
            match r {
                Some(v) => env_var(self.vars@, key@) == Some(v@),
                None => env_var(self.vars@, key@) is None,
            },
    {
        match lookup(self.vars.as_slice(), key) {
            Some(v) => if v.unicode_len() > 0 {
                Some(v)
            } else {
                None
            },
            None => None,
        }
    }

    /// The `PATH` entries, in order, empty ones dropped.
    pub fn path_entries(&self) -> (out: Vec<String>)
        ensures
            crate::text::strings(out@) == non_empty(
                split_on(path_var(self.vars@, self.os == Os::Windows), path_sep(self.os)),
            ),
    {
        let windows = self.os.is_windows();
        let path_lower = chars_of("path");
        let path_upper = chars_of("PATH");
        let mut raw: &str = "";
        let mut i: usize = 0;
        let ghost vars = self.vars@;
        assert(vars.subrange(0, vars.len() as int) =~= vars);
        proof {
            reveal_strlit("");
        }
        while i < self.vars.len()
            invariant_except_break
                raw@ == Seq::<char>::empty(),
            invariant
                i <= vars.len(),
                vars == self.vars@,
                path_lower@ == "path"@,
                path_upper@ == "PATH"@,
                path_var(vars, windows) == path_var(vars.subrange(i as int, vars.len() as int), windows),
                windows == (self.os == Os::Windows),
            ensures
                raw@ == path_var(vars, windows),
            decreases self.vars.len() - i,
        {
            let ghost rest = vars.subrange(i as int, vars.len() as int);
            assert(rest.drop_first() =~= vars.subrange(i + 1, vars.len() as int));
            let k = chars_of(self.vars[i].0.as_str());
            let matched = if windows {
                seq_eq(lower_vec(k.as_slice()).as_slice(), path_lower.as_slice())
            } else {
                seq_eq(k.as_slice(), path_upper.as_slice())
            };
            if matched {
                raw = self.vars[i].1.as_str();
                assert(rest[0] == self.vars@[i as int]);
                break;
            }
            i = i + 1;
        }

        let sep = if windows { ';' } else { ':' };
        let parts = split_char(chars_of(raw).as_slice(), sep);
        let ghost ps = seqs(parts@);
        let mut out: Vec<String> = Vec::new();
        let mut j: usize = 0;
        while j < parts.len()
            invariant
                j <= parts@.len(),
                ps == seqs(parts@),
                crate::text::strings(out@) == non_empty(ps.take(j as int)),
            decreases parts.len() - j,
        {
            proof {
                assert(ps.take(j + 1).drop_last() =~= ps.take(j as int));
                assert(ps.take(j + 1).last() == parts@[j as int]@);
            }
            if parts[j].len() > 0 {
                let ghost before = crate::text::strings(out@);
                out.push(string_of(parts[j].as_slice()));
                assert(crate::text::strings(out@) =~= before.push(parts@[j as int]@));
            }
            j = j + 1;
        }
        assert(ps.take(ps.len() as int) =~= ps);
        out
    }
}

} // verus!
