//! Putting the bin dir on PATH for Unix shells: the file contents, and the
//! decisions about which files to write. Reading and writing them is the
//! caller's.
//!
//! The rules: a shared `env` file in the bin dir; one line sourcing it,
//! appended once to rc files that already exist; a per-app fish `conf.d`
//! file when fish is configured. No rc file is created or rewritten.

use crate::self_install::archive::{lines_of, named_pieces};
use crate::self_install::receipt::PathModification;
use crate::text::{
    chars_of, contains, contains_seq, ends_with, has_char, has_char_exec, is_prefix_of,
    is_suffix_of, join_path, join_with, owned, path_join, push_str, seq_eq, seqs, split_char,
    split_on, string_of, trim_seq, trim_vec, lemma_split_nonempty,
};
use vstd::prelude::*;

verus! {

/// What a PATH edit did.
#[derive(Debug, Clone, PartialEq, Eq)]
pub struct UnixPathReport {
    pub modifications: Vec<PathModification>,
    /// Things a person should know, such as a foreign `env` file left alone.
    pub notes: Vec<String>,
    /// The command that puts the bin dir on PATH in the current shell.
    pub current_shell_hint: String,
}

impl Default for UnixPathReport {
    fn default() -> (r: Self)
        ensures
            r.modifications@.len() == 0,
            r.notes@.len() == 0,
            r.current_shell_hint@ == Seq::<char>::empty(),
    {
        UnixPathReport { modifications: Vec::new(), notes: Vec::new(), current_shell_hint: String::new() }
    }
}

/// The named components of a path: pieces between `/`, without empty ones
/// and `.`.
pub open spec fn components(p: Seq<char>) -> Seq<Seq<char>> {
    named_pieces(split_on(p, '/'))
}

/// What is left of `dir` after `home`, component by component, when `home`
/// is a leading part of it.
pub open spec fn rest_after(home: Seq<char>, dir: Seq<char>) -> Option<Seq<Seq<char>>> {
    let h = components(home);
    let d = components(dir);
    let both_rooted = (home.len() > 0 && home[0] == '/') == (dir.len() > 0 && dir[0] == '/');
    if both_rooted && h.len() <= d.len() && d.take(h.len() as int) == h {
        Some(d.skip(h.len() as int))
    } else {
        None
    }
}

/// Characters that cannot stand inside double quotes in a shell file.
pub open spec fn unquotable(c: char) -> bool {
    c == '"' || c == '$' || c == '`' || c == '\\' || c == '\n'
}

/// `$HOME/...` when the directory is under home, the path itself otherwise;
/// `None` when what follows `$HOME` holds an unquotable character.
/// The expression for a directory, and the part of it after `$HOME`.
pub open spec fn expr_and_body(rest: Option<Seq<Seq<char>>>, dir: Seq<char>) -> (Seq<char>, Seq<char>) {
    match rest {
        Some(r) => if r.len() == 0 {
            ("$HOME"@, Seq::<char>::empty())
        } else {
            ("$HOME/"@ + join_with(r, "/"@), "/"@ + join_with(r, "/"@))
        },
        None => (dir, if is_prefix_of("$HOME"@, dir) {
            dir.skip(5)
        } else {
            dir
        }),
    }
}

pub open spec fn home_rest(home: Option<Seq<char>>, dir: Seq<char>) -> Option<Seq<Seq<char>>> {
    match home {
        Some(h) => rest_after(h, dir),
        None => None,
    }
}

/// `$HOME/...` when the directory is under home, the path itself otherwise;
/// `None` when what follows `$HOME` holds an unquotable character.
pub open spec fn shell_dir_expr_spec(home: Option<Seq<char>>, dir: Seq<char>) -> Option<Seq<char>> {
    let eb = expr_and_body(home_rest(home, dir), dir);
    if exists|i: int| 0 <= i < eb.1.len() && unquotable(#[trigger] eb.1[i]) {
        None
    } else {
        Some(eb.0)
    }
}

pub(crate) fn components_exec(p: &Vec<char>) -> (out: Vec<Vec<char>>)
    ensures
        seqs(out@) == components(p@),
{
    let parts = split_char(p.as_slice(), '/');
    let ghost ps = seqs(parts@);
    let dot = chars_of(".");
    let mut kept: Vec<Vec<char>> = Vec::new();
    let mut i: usize = 0;
    while i < parts.len()
        invariant
            i <= parts@.len(),
            ps == seqs(parts@),
            ps == split_on(p@, '/'),
            dot@ == "."@,
            seqs(kept@) == named_pieces(ps.take(i as int)),
        decreases parts.len() - i,
    {
        proof {
            assert(ps.take(i + 1).drop_last() =~= ps.take(i as int));
            assert(ps.take(i + 1).last() == parts@[i as int]@);
        }
        if parts[i].len() > 0 && !seq_eq(parts[i].as_slice(), dot.as_slice()) {
            let ghost before = seqs(kept@);
            let piece = crate::text::slice_range(parts[i].as_slice(), 0, parts[i].len());
            assert(piece@ =~= parts@[i as int]@);
            kept.push(piece);
            assert(seqs(kept@) =~= before.push(parts@[i as int]@));
        }
        i = i + 1;
    }
    assert(ps.take(ps.len() as int) =~= ps);
    kept
}

fn unquotable_in(s: &Vec<char>, from: usize) -> (r: bool)
    requires
        from <= s@.len(),
    ensures
        r == exists|i: int| 0 <= i < s@.skip(from as int).len() && unquotable(
            #[trigger] s@.skip(from as int)[i],
        ),
{
    let mut i: usize = from;
    while i < s.len()
        invariant
            from <= i <= s@.len(),
            forall|j: int| from <= j < i ==> !unquotable(#[trigger] s@[j]),
        decreases s.len() - i,
    {
        let c = s[i];
        if c == '"' || c == '$' || c == '`' || c == '\\' || c == '\n' {
            assert(s@.skip(from as int)[i - from] == c);
            return true;
        }
        i = i + 1;
    }
    assert forall|k: int| 0 <= k < s@.skip(from as int).len() implies !unquotable(
        #[trigger] s@.skip(from as int)[k],
    ) by {
        assert(s@.skip(from as int)[k] == s@[from + k]);
    }
    false
}

/// `$HOME/...` when the directory is under home, the path itself otherwise.
/// `None` when it holds characters that cannot be placed inside double
/// quotes safely.
pub fn shell_dir_expr(home: Option<&str>, dir: &str) -> (r: Option<String>)
    ensures
        match r {
            Some(e) => shell_dir_expr_spec(
                match home {
                    Some(h) => Some(h@),
                    None => None,
                },
                dir@,
            ) == Some(e@),
            None => shell_dir_expr_spec(
                match home {
                    Some(h) => Some(h@),
                    None => None,
                },
                dir@,
            ) is None,
        },
{
    let d = chars_of(dir);
    let ghost hs = match home {
        Some(h) => Some(h@),
        None => None::<Seq<char>>,
    };
    let mut rest: Option<Vec<Vec<char>>> = None;
    if let Some(h) = home {
        let hc = chars_of(h);
        let hcomp = components_exec(&hc);
        let dcomp = components_exec(&d);
        let h_rooted = hc.len() > 0 && hc[0] == '/';
        let d_rooted = d.len() > 0 && d[0] == '/';
        if h_rooted == d_rooted && hcomp.len() <= dcomp.len() {
            let mut k: usize = 0;
            let mut same = true;
            while k < hcomp.len()
                invariant
                    k <= hcomp@.len(),
                    hcomp@.len() <= dcomp@.len(),
                    same == forall|j: int| 0 <= j < k ==> hcomp@[j]@ == dcomp@[j]@,
                decreases hcomp.len() - k,
            {
                if !seq_eq(hcomp[k].as_slice(), dcomp[k].as_slice()) {
                    same = false;
                }
                k = k + 1;
            }
            proof {
                let hh = seqs(hcomp@);
                let dd = seqs(dcomp@);
                if same {
                    assert(dd.take(hh.len() as int) =~= hh) by {
                        assert forall|j: int| 0 <= j < hh.len() implies dd.take(hh.len() as int)[j]
                            == hh[j] by {
                            assert(hh[j] == hcomp@[j]@ && dd[j] == dcomp@[j]@);
                        }
                    }
                } else {
                    let j = choose|j: int| 0 <= j < hcomp@.len() && hcomp@[j]@ != dcomp@[j]@;
                    assert(dd.take(hh.len() as int)[j] != hh[j]);
                }
            }
            if same {
                let mut r: Vec<Vec<char>> = Vec::new();
                let mut m: usize = hcomp.len();
                while m < dcomp.len()
                    invariant
                        hcomp@.len() <= m <= dcomp@.len(),
                        seqs(r@) == seqs(dcomp@).subrange(hcomp@.len() as int, m as int),
                    decreases dcomp.len() - m,
                {
                    let piece = crate::text::slice_range(dcomp[m].as_slice(), 0, dcomp[m].len());
                    assert(piece@ =~= dcomp@[m as int]@);
                    let ghost before = seqs(r@);
                    r.push(piece);
                    assert(seqs(r@) =~= before.push(dcomp@[m as int]@));
                    assert(seqs(dcomp@)[m as int] == dcomp@[m as int]@);
                    assert(seqs(dcomp@).subrange(hcomp@.len() as int, m + 1) =~= seqs(dcomp@).subrange(
                        hcomp@.len() as int,
                        m as int,
                    ).push(seqs(dcomp@)[m as int]));
                    m = m + 1;
                }
                assert(seqs(r@) =~= seqs(dcomp@).skip(hcomp@.len() as int));
                rest = Some(r);
            }
        }
        proof {
            if rest is Some {
                assert(rest_after(h@, dir@) == Some(seqs(rest->0@)));
            } else {
                assert(rest_after(h@, dir@) is None);
            }
        }
    }
    proof {
        reveal_strlit("$HOME");
        reveal_strlit("$HOME/");
        reveal_strlit("/");
    }
    let (expr, bad) = match rest {
        Some(r) => {
            if r.len() == 0 {
                assert(shell_dir_expr_spec(hs, dir@) == Some("$HOME"@));
                (owned("$HOME"), false)
            } else {
                let slash = ['/'];
                let joined = crate::text::join_vec(&r, &slash);
                assert(slash@ =~= seq!['/']);
                assert(seq!['/'] =~= "/"@);
                let mut e = owned("$HOME/");
                crate::text::push_all(&mut e, joined.as_slice());
                let mut body: Vec<char> = Vec::new();
                body.push('/');
                crate::text::extend_vec(&mut body, joined.as_slice());
                assert(body@ =~= "/"@ + join_with(seqs(r@), "/"@));
                assert(body@.skip(0) =~= body@);
                let b = unquotable_in(&body, 0);
                assert(!b ==> shell_dir_expr_spec(hs, dir@) == Some(e@));
                proof {
                    if b {
                        let i = choose|i: int| 0 <= i < body@.skip(0).len() && unquotable(
                            #[trigger] body@.skip(0)[i],
                        );
                        assert(unquotable(body@[i]));
                        assert(expr_and_body(home_rest(hs, dir@), dir@).1 == body@);
                        assert(unquotable(expr_and_body(home_rest(hs, dir@), dir@).1[i]));
                    }
                }
                assert(b ==> shell_dir_expr_spec(hs, dir@) is None);
                (e, b)
            }
        },
        None => {
            let home_prefix = chars_of("$HOME");
            let from: usize = if crate::text::starts_with(d.as_slice(), home_prefix.as_slice()) {
                5
            } else {
                0
            };
            assert(d@.skip(0) =~= d@);
            let b = unquotable_in(&d, from);
            assert(!b ==> shell_dir_expr_spec(hs, dir@) == Some(dir@));
            proof {
                if b {
                    let i = choose|i: int| 0 <= i < d@.skip(from as int).len() && unquotable(
                        #[trigger] d@.skip(from as int)[i],
                    );
                    assert(unquotable(d@.skip(from as int)[i]));
                    assert(expr_and_body(home_rest(hs, dir@), dir@).1 =~= d@.skip(from as int));
                    assert(unquotable(expr_and_body(home_rest(hs, dir@), dir@).1[i]));
                }
            }
            assert(b ==> shell_dir_expr_spec(hs, dir@) is None);
            (owned(dir), b)
        },
    };
    assert(!bad ==> shell_dir_expr_spec(hs, dir@) == Some(expr@));
    assert(hs == match home {
        Some(h) => Some(h@),
        None => None::<Seq<char>>,
    });
    if bad {
        None
    } else {
        Some(expr)
    }
}

/// The POSIX `env` file, in the same shape uv writes.
pub open spec fn posix_env_spec(bin: Seq<char>) -> Seq<char> {
    "#!/bin/sh\n# add binaries to PATH if they aren't added yet\n# affix colons on either side of $PATH to simplify matching\ncase \":${PATH}:\" in\n    *:\""@
        + bin + "\":*)\n        ;;\n    *)\n        # Prepending path in case a system-installed binary needs to be overridden\n        export PATH=\""@
        + bin + ":$PATH\"\n        ;;\nesac\n"@
}

/// The POSIX `env` file, in the same shape uv writes.
pub fn posix_env_file_contents(bin_expr: &str) -> (r: String)
    ensures
        r@ == posix_env_spec(bin_expr@),
{
    let mut s = owned(
        "#!/bin/sh\n# add binaries to PATH if they aren't added yet\n# affix colons on either side of $PATH to simplify matching\ncase \":${PATH}:\" in\n    *:\"",
    );
    push_str(&mut s, bin_expr);
    push_str(
        &mut s,
        "\":*)\n        ;;\n    *)\n        # Prepending path in case a system-installed binary needs to be overridden\n        export PATH=\"",
    );
    push_str(&mut s, bin_expr);
    push_str(&mut s, ":$PATH\"\n        ;;\nesac\n");
    s
}

/// The fish `env.fish` file.
pub open spec fn fish_env_spec(bin: Seq<char>) -> Seq<char> {
    "if not contains \""@ + bin
        + "\" $PATH\n    # Prepending path in case a system-installed binary needs to be overridden\n    set -x PATH \""@
        + bin + "\" $PATH\nend\n"@
}

/// The fish `env.fish` file.
pub fn fish_env_file_contents(bin_expr: &str) -> (r: String)
    ensures
        r@ == fish_env_spec(bin_expr@),
{
    let mut s = owned("if not contains \"");
    push_str(&mut s, bin_expr);
    push_str(
        &mut s,
        "\" $PATH\n    # Prepending path in case a system-installed binary needs to be overridden\n    set -x PATH \"",
    );
    push_str(&mut s, bin_expr);
    push_str(&mut s, "\" $PATH\nend\n");
    s
}

/// The rc files to consider, in the order they are edited; Zsh uses
/// `.zshenv`, or `.zshrc` when `.zshenv` does not exist. Only those that
/// exist are edited.
pub open spec fn rc_paths_spec(home: Seq<char>, zdotdir: Option<Seq<char>>, zshenv_exists: bool) -> Seq<
    Seq<char>,
> {
    let zdot = match zdotdir {
        Some(z) => z,
        None => home,
    };
    seq![
        path_join(home, ".profile"@),
        path_join(home, ".bash_profile"@),
        path_join(home, ".bash_login"@),
        path_join(home, ".bashrc"@),
        if zshenv_exists {
            path_join(zdot, ".zshenv"@)
        } else {
            path_join(zdot, ".zshrc"@)
        },
    ]
}

/// The rc files to consider, before keeping those that exist.
pub fn rc_candidates(home: &str, zdotdir: Option<&str>, zshenv_exists: bool) -> (out: Vec<String>)
    ensures
        crate::text::strings(out@) == rc_paths_spec(
            home@,
            match zdotdir {
                Some(z) => Some(z@),
                None => None,
            },
            zshenv_exists,
        ),
{
    let zdot = match zdotdir {
        Some(z) => z,
        None => home,
    };
    let last = if zshenv_exists {
        join_path(zdot, ".zshenv")
    } else {
        join_path(zdot, ".zshrc")
    };
    let out = vec![
        join_path(home, ".profile"),
        join_path(home, ".bash_profile"),
        join_path(home, ".bash_login"),
        join_path(home, ".bashrc"),
        last,
    ];
    assert(crate::text::strings(out@) =~= rc_paths_spec(
        home@,
        match zdotdir {
            Some(z) => Some(z@),
            None => None,
        },
        zshenv_exists,
    ));
    out
}

/// Whether an rc file already sources the env file, in either spelling.
pub open spec fn rc_has_line(existing: Seq<char>, line: Seq<char>, alt: Seq<char>) -> bool {
    exists|i: int|
        0 <= i < lines_of(existing).len() && (trim_seq(#[trigger] lines_of(existing)[i]) == line
            || trim_seq(lines_of(existing)[i]) == alt)
}

/// Whether an rc file already sources the env file, in either spelling.
pub fn rc_already_sources(existing: &str, line: &str, alt: &str) -> (r: bool)
    ensures
        r == rc_has_line(existing@, line@, alt@),
{
    let parts = split_char(chars_of(existing).as_slice(), '\n');
    let n = if parts.len() > 0 && parts[parts.len() - 1].len() == 0 {
        parts.len() - 1
    } else {
        parts.len()
    };
    let ghost ls = lines_of(existing@);
    assert(ls =~= seqs(parts@).subrange(0, n as int));
    let lc = chars_of(line);
    let ac = chars_of(alt);
    let mut i: usize = 0;
    while i < n
        invariant
            i <= n <= parts@.len(),
            ls == seqs(parts@).subrange(0, n as int),
            ls == lines_of(existing@),
            lc@ == line@,
            ac@ == alt@,
            forall|j: int|
                0 <= j < i ==> !(trim_seq(#[trigger] ls[j]) == line@ || trim_seq(ls[j]) == alt@),
        decreases n - i,
    {
        let t = trim_vec(parts[i].as_slice());
        assert(ls[i as int] == parts@[i as int]@);
        if seq_eq(t.as_slice(), lc.as_slice()) || seq_eq(t.as_slice(), ac.as_slice()) {
            assert(trim_seq(ls[i as int]) == line@ || trim_seq(ls[i as int]) == alt@);
            return true;
        }
        i = i + 1;
    }
    false
}

/// The separator before an appended rc line: none after an empty file or a
/// final newline, a newline otherwise.
pub fn rc_separator(existing: &str) -> (r: &'static str)
    ensures
        (existing@.len() == 0 || existing@.last() == '\n') ==> r@ == ""@,
        !(existing@.len() == 0 || existing@.last() == '\n') ==> r@ == "\n"@,
{
    let c = chars_of(existing);
    if c.len() == 0 || c[c.len() - 1] == '\n' {
        ""
    } else {
        "\n"
    }
}

/// What to do about the shared env file.
#[derive(Debug, Clone, Copy, PartialEq, Eq, Structural)]
pub enum EnvFileAction {
    /// It does not exist: write it and record it.
    Create,
    /// It exists and names the bin dir: use it as it is.
    Accept,
    /// It exists and does not: leave it alone and stop editing PATH.
    Refuse,
}

/// A missing env file is created; an existing one is accepted when it names
/// the bin dir in double quotes, and refused otherwise.
pub fn env_file_action(existing: Option<&str>, bin_expr: &str) -> (r: EnvFileAction)
    ensures
        match existing {
            None => r == EnvFileAction::Create,
            Some(e) => if contains_seq(e@, "\""@ + bin_expr@ + "\""@) {
                r == EnvFileAction::Accept
            } else {
                r == EnvFileAction::Refuse
            },
        },
{
    match existing {
        None => EnvFileAction::Create,
        Some(e) => {
            let mut quoted = owned("\"");
            push_str(&mut quoted, bin_expr);
            push_str(&mut quoted, "\"");
            if contains(chars_of(e).as_slice(), chars_of(quoted.as_str()).as_slice()) {
                EnvFileAction::Accept
            } else {
                EnvFileAction::Refuse
            }
        },
    }
}

/// The note for a refused env file.
pub fn env_file_refused_note(path: &str, bin_expr: &str) -> (r: String)
    ensures
        r@ == path@ + " exists but does not add "@ + bin_expr@
            + " to PATH; left unchanged, add the directory to PATH yourself"@,
{
    let mut s = owned(path);
    push_str(&mut s, " exists but does not add ");
    push_str(&mut s, bin_expr);
    push_str(&mut s, " to PATH; left unchanged, add the directory to PATH yourself");
    s
}

/// The line that sources the env file, and the other spelling accepted as
/// the same: `. "<bin>/env"` and `source "<bin>/env"`.
pub fn source_lines(bin_expr: &str) -> (r: (String, String))
    ensures
        r.0@ == ". \""@ + bin_expr@ + "/env\""@,
        r.1@ == "source \""@ + bin_expr@ + "/env\""@,
{
    let mut line = owned(". \"");
    push_str(&mut line, bin_expr);
    push_str(&mut line, "/env\"");
    let mut alt = owned("source \"");
    push_str(&mut alt, bin_expr);
    push_str(&mut alt, "/env\"");
    (line, alt)
}

/// The fish `conf.d` file's content for one app.
pub fn fish_conf_contents(bin_expr: &str) -> (r: String)
    ensures
        r@ == "source \""@ + bin_expr@ + "/env.fish\"\n"@,
{
    let mut s = owned("source \"");
    push_str(&mut s, bin_expr);
    push_str(&mut s, "/env.fish\"\n");
    s
}

/// How a PATH edit starts: the bin dir as the shell files write it, and
/// the command for the current shell; or, with no home directory or a bin
/// dir that cannot be quoted, the note that stops it.
pub fn unix_path_start(home: Option<&str>, bin_dir: &str) -> (r: Result<(String, String), String>)
    ensures
        match home {
            None => r matches Err(n) && n@ == "no home directory; add the bin dir to PATH yourself"@,
            Some(h) => match shell_dir_expr_spec(Some(h@), bin_dir@) {
                None => r matches Err(n) && n@ == bin_dir@
                    + " contains characters that cannot be quoted in a shell file; add it to PATH yourself"@,
                Some(e) => r matches Ok((expr, hint)) && expr@ == e && hint@ == ". \""@ + e
                    + "/env\""@,
            },
        },
{
    match home {
        None => Err(owned("no home directory; add the bin dir to PATH yourself")),
        Some(h) => match shell_dir_expr(Some(h), bin_dir) {
            None => {
                let mut n = owned(bin_dir);
                push_str(
                    &mut n,
                    " contains characters that cannot be quoted in a shell file; add it to PATH yourself",
                );
                Err(n)
            },
            Some(e) => {
                let mut hint = owned(". \"");
                push_str(&mut hint, e.as_str());
                push_str(&mut hint, "/env\"");
                Ok((e, hint))
            },
        },
    }
}

/// The note when no rc file exists to carry the line.
pub fn no_rc_note(line: &str) -> (r: String)
    ensures
        r@ == "no shell rc file found; add this line to your shell's startup file: "@ + line@,
{
    let mut n = owned("no shell rc file found; add this line to your shell's startup file: ");
    push_str(&mut n, line);
    n
}

/// fish's configuration directory: `$XDG_CONFIG_HOME/fish`, else
/// `<home>/.config/fish`.
pub fn fish_dir(xdg_config_home: Option<&str>, home: &str) -> (r: String)
    ensures
        r@ == path_join(
            match xdg_config_home {
                Some(x) => x@,
                None => path_join(home@, ".config"@),
            },
            "fish"@,
        ),
{
    let base = match xdg_config_home {
        Some(x) => owned(x),
        None => join_path(home, ".config"),
    };
    join_path(base.as_str(), "fish")
}

/// The app's fish `conf.d` file: `<fish dir>/conf.d/<app>.fish`.
pub fn fish_conf_path(fish_dir: &str, app: &str) -> (r: String)
    ensures
        r@ == path_join(path_join(fish_dir@, "conf.d"@), app@ + ".fish"@),
{
    let d = join_path(fish_dir, "conf.d");
    let mut name = owned(app);
    push_str(&mut name, ".fish");
    join_path(d.as_str(), name.as_str())
}

/// What to do about the fish `conf.d` file.
#[derive(Debug, Clone, PartialEq, Eq)]
pub enum FishConfAction {
    /// It holds exactly the wanted line: nothing to do.
    Keep,
    /// It holds something else: leave it, and say so.
    LeaveForeign(String),
    /// It does not exist: write it and record it.
    Create,
}

/// The fish `conf.d` file is written when missing, kept when it already
/// holds the wanted content, and left alone with a note otherwise.
pub fn fish_conf_action(path: &str, existing: Option<&str>, wanted: &str) -> (r: FishConfAction)
    ensures
        match existing {
            None => r == FishConfAction::Create,
            Some(c) => if c@ == wanted@ {
                r == FishConfAction::Keep
            } else {
                r matches FishConfAction::LeaveForeign(n) && n@ == path@
                    + " exists with other content; left unchanged"@
            },
        },
{
    match existing {
        None => FishConfAction::Create,
        Some(c) => if crate::text::str_eq(c, wanted) {
            FishConfAction::Keep
        } else {
            let mut n = owned(path);
            push_str(&mut n, " exists with other content; left unchanged");
            FishConfAction::LeaveForeign(n)
        },
    }
}

} // verus!
