//! The `self` command group: its command specs, the request an install
//! invocation makes, and the text `install`, `uninstall` and `status`
//! print. Running them is the front end's.

use crate::self_install::method::method_name;
use crate::self_install::ops::{InstallOutcome, InstallRequest, PathDecision, StatusReport, UninstallOutcome};
use crate::self_install::receipt::PathModification;
use crate::spec::arg_spec::{ArgKind, ArgSpec, ArgValueType, Cardinality};
use crate::spec::command_tree::{CommandSpec, ExitCodeEntry, GroupMetadata};
use crate::spec::value::{value_of, ArgValue, ArgValues};
use crate::text::{join_strings, join_with, owned, push_str, strings};
use vstd::prelude::*;

verus! {

/// How a person invokes the group: the app's name, then the group's path
/// segments, separated by spaces.
pub fn self_invocation(app: &str, group: &Vec<String>) -> (r: String)
    ensures
        r@ == join_with(seq![app@] + strings(group@), " "@),
{
    let mut parts: Vec<String> = vec![owned(app)];
    let mut i: usize = 0;
    assert(strings(parts@) =~= seq![app@] + strings(group@).take(0));
    while i < group.len()
        invariant
            i <= group@.len(),
            strings(parts@) == seq![app@] + strings(group@).take(i as int),
        decreases group.len() - i,
    {
        let ghost before = strings(parts@);
        parts.push(group[i].clone());
        assert(strings(parts@) =~= before.push(group@[i as int]@));
        assert(strings(group@).take(i + 1) =~= strings(group@).take(i as int).push(group@[i as int]@));
        i = i + 1;
    }
    assert(strings(group@).take(group@.len() as int) =~= strings(group@));
    join_strings(&parts, " ")
}

/// The group's metadata.
pub fn self_group_metadata() -> (g: GroupMetadata)
    ensures
        g.summary@ == "Install, inspect or remove this binary on this machine"@,
        !g.hidden,
        g.category matches Some(c) && c@ == "ops"@,
{
    GroupMetadata {
        summary: owned("Install, inspect or remove this binary on this machine"),
        hidden: false,
        category: Some(owned("ops")),
    }
}

/// A boolean flag that defaults to false.
pub fn flag(name: &str, long: &str, help: &str) -> (a: ArgSpec)
    ensures
        a.name@ == name@,
        a.kind == ArgKind::Flag,
        a.long matches Some(l) && l@ == long@,
        a.value_type == ArgValueType::Bool,
        a.cardinality == Cardinality::Optional,
        a.default == Some(ArgValue::Bool(false)),
        a.help@ == help@,
{
    let mut a = ArgSpec::default();
    a.name = owned(name);
    a.kind = ArgKind::Flag;
    a.long = Some(owned(long));
    a.value_type = ArgValueType::Bool;
    a.cardinality = Cardinality::Optional;
    a.default = Some(ArgValue::Bool(false));
    a.help = owned(help);
    a
}

fn leaf_spec(summary: &str, args: Vec<ArgSpec>, failure: &str) -> (s: CommandSpec)
    ensures
        s.summary@ == summary@,
        s.category matches Some(c) && c@ == "ops"@,
        s.args == args,
        s.exit_codes@.len() == 2,
        s.exit_codes@[0].code == 0 && s.exit_codes@[0].description@ == "Success"@,
        s.exit_codes@[1].code == 1 && s.exit_codes@[1].description@ == failure@,
{
    CommandSpec {
        summary: owned(summary),
        long_about: None,
        examples: Vec::new(),
        aliases: Vec::new(),
        hidden_aliases: Vec::new(),
        hidden: false,
        deprecated: None,
        env_vars: Vec::new(),
        exit_codes: vec![
            ExitCodeEntry { code: 0, description: owned("Success") },
            ExitCodeEntry { code: 1, description: owned(failure) },
        ],
        args,
        notes: None,
        category: Some(owned("ops")),
        syntax: None,
    }
}

/// `self install`: an optional `--bin-dir` and four flags.
pub fn install_command_spec() -> (s: CommandSpec)
    ensures
        s.summary@ == "Install this binary for the current user and put it on PATH"@,
        s.args@.len() == 5,
        s.args@.map_values(|a: ArgSpec| a.name@) == seq![
            "bin_dir"@,
            "no_modify_path"@,
            "unmanaged"@,
            "force"@,
            "from_bootstrap"@,
        ],
        s.args@[0].kind == ArgKind::Option && s.args@[0].value_type == ArgValueType::Str,
        s.args@[0].long matches Some(l) && l@ == "bin-dir"@,
        forall|i: int| 1 <= i < 5 ==> (#[trigger] s.args@[i]).kind == ArgKind::Flag,
        s.exit_codes@[1].description@ == "Refused (root, foreign binary) or a filesystem error"@,
{
    let mut bin_dir = ArgSpec::default();
    bin_dir.name = owned("bin_dir");
    bin_dir.kind = ArgKind::Option;
    bin_dir.long = Some(owned("bin-dir"));
    bin_dir.value_type = ArgValueType::Str;
    bin_dir.cardinality = Cardinality::Optional;
    bin_dir.help = owned("Directory to install into (default: $XDG_BIN_HOME or ~/.local/bin)");
    let args = vec![
        bin_dir,
        flag("no_modify_path", "no-modify-path", "Do not edit shell startup files or the user Path"),
        flag("unmanaged", "unmanaged", "Place the binary only: no PATH edit and no install receipt"),
        flag("force", "force", "Replace a binary at the target that no receipt records"),
        flag("from_bootstrap", "from-bootstrap", "Move instead of copy; passed by the installer scripts"),
    ];
    assert(args@.map_values(|a: ArgSpec| a.name@) =~= seq![
        "bin_dir"@,
        "no_modify_path"@,
        "unmanaged"@,
        "force"@,
        "from_bootstrap"@,
    ]);
    leaf_spec(
        "Install this binary for the current user and put it on PATH",
        args,
        "Refused (root, foreign binary) or a filesystem error",
    )
}

/// `self uninstall`: one `--purge` flag.
pub fn uninstall_command_spec() -> (s: CommandSpec)
    ensures
        s.summary@ == "Remove what `self install` recorded in the install receipt"@,
        s.args@.len() == 1,
        s.args@[0].name@ == "purge"@ && s.args@[0].kind == ArgKind::Flag,
        s.exit_codes@[1].description@
            == "No receipt, a package-manager install, a refused purge, or a filesystem error"@,
{
    leaf_spec(
        "Remove what `self install` recorded in the install receipt",
        vec![flag("purge", "purge", "Also delete this app's config and data directories (never keychain entries)")],
        "No receipt, a package-manager install, a refused purge, or a filesystem error",
    )
}

/// `self status`: one `--json` flag.
pub fn status_command_spec() -> (s: CommandSpec)
    ensures
        s.summary@ == "Show how this binary is installed, where, and what shadows it"@,
        s.args@.len() == 1,
        s.args@[0].name@ == "json"@ && s.args@[0].kind == ArgKind::Flag,
        s.exit_codes@[1].description@ == "The running executable could not be located"@,
{
    leaf_spec(
        "Show how this binary is installed, where, and what shadows it",
        vec![flag("json", "json", "Print the status as JSON")],
        "The running executable could not be located",
    )
}

/// Whether a flag was given as true.
pub open spec fn is_set_spec(args: Seq<(Seq<char>, ArgValue)>, name: Seq<char>) -> bool {
    value_of(args, name) == Some(ArgValue::Bool(true))
}

/// A text argument that was given and is not empty.
pub open spec fn string_arg_spec(args: Seq<(Seq<char>, ArgValue)>, name: Seq<char>) -> Option<Seq<char>> {
    match value_of(args, name) {
        Some(ArgValue::Str(s)) => if s@.len() > 0 {
            Some(s@)
        } else {
            None
        },
        _ => None,
    }
}

pub fn is_set(args: &ArgValues, name: &str) -> (r: bool)
    ensures
        r == is_set_spec(args@, name@),
{
    match args.get(name) {
        Some(ArgValue::Bool(b)) => *b,
        _ => false,
    }
}

pub fn string_arg(args: &ArgValues, name: &str) -> (r: Option<String>)
    ensures
        match r {
            Some(s) => string_arg_spec(args@, name@) == Some(s@),
            None => string_arg_spec(args@, name@) is None,
        },
{
    match args.get(name) {
        Some(ArgValue::Str(s)) => if s.unicode_len() > 0 {
            Some(s.clone())
        } else {
            None
        },
        _ => None,
    }
}

/// The request a `self install` invocation makes.
pub fn install_request(args: &ArgValues) -> (r: InstallRequest)
    ensures
        match r.bin_dir {
            Some(d) => string_arg_spec(args@, "bin_dir"@) == Some(d@),
            None => string_arg_spec(args@, "bin_dir"@) is None,
        },
        r.no_modify_path == is_set_spec(args@, "no_modify_path"@),
        r.unmanaged == is_set_spec(args@, "unmanaged"@),
        r.force == is_set_spec(args@, "force"@),
        r.from_bootstrap == is_set_spec(args@, "from_bootstrap"@),
        !r.system,
        r.from is None,
{
    InstallRequest {
        bin_dir: string_arg(args, "bin_dir"),
        no_modify_path: is_set(args, "no_modify_path"),
        unmanaged: is_set(args, "unmanaged"),
        force: is_set(args, "force"),
        from_bootstrap: is_set(args, "from_bootstrap"),
        system: false,
        from: None,
    }
}

/// How a recorded PATH change reads in the install summary.
pub open spec fn describe_spec(m: PathModification) -> Seq<char> {
    match m {
        PathModification::EnvFile { file } => "created "@ + file@,
        PathModification::RcLine { file, line } => file@ + ": "@ + line@,
        PathModification::FishConf { file } => "created "@ + file@,
        PathModification::WindowsUserPath { key, entry } => "HKCU\\"@ + key@ + "\\Path += "@ + entry@,
    }
}

pub fn describe_modification(m: &PathModification) -> (r: String)
    ensures
        r@ == describe_spec(*m),
{
    match m {
        PathModification::EnvFile { file } => {
            let mut s = owned("created ");
            push_str(&mut s, file.as_str());
            s
        },
        PathModification::RcLine { file, line } => {
            let mut s = file.clone();
            push_str(&mut s, ": ");
            push_str(&mut s, line.as_str());
            s
        },
        PathModification::FishConf { file } => {
            let mut s = owned("created ");
            push_str(&mut s, file.as_str());
            s
        },
        PathModification::WindowsUserPath { key, entry } => {
            let mut s = owned("HKCU\\");
            push_str(&mut s, key.as_str());
            push_str(&mut s, "\\Path += ");
            push_str(&mut s, entry.as_str());
            s
        },
    }
}

/// Each text with a prefix.
pub open spec fn prefixed(prefix: Seq<char>, items: Seq<Seq<char>>) -> Seq<Seq<char>> {
    items.map_values(|x: Seq<char>| prefix + x)
}

/// The descriptions of the recorded PATH changes, indented.
pub open spec fn described(mods: Seq<PathModification>) -> Seq<Seq<char>> {
    mods.map_values(|m: PathModification| "  "@ + describe_spec(m))
}

fn push_line(lines: &mut Vec<String>, s: String)
    ensures
        strings(final(lines)@) == strings(old(lines)@).push(s@),
{
    let ghost before = strings(lines@);
    lines.push(s);
    assert(strings(lines@) =~= before.push(s@));
}

fn push_prefixed(lines: &mut Vec<String>, prefix: &str, items: &Vec<String>)
    ensures
        strings(final(lines)@) == strings(old(lines)@) + prefixed(prefix@, strings(items@)),
{
    let ghost start = strings(lines@);
    let mut i: usize = 0;
    assert(start =~= start + prefixed(prefix@, strings(items@).take(0)));
    while i < items.len()
        invariant
            i <= items@.len(),
            strings(lines@) == start + prefixed(prefix@, strings(items@).take(i as int)),
        decreases items.len() - i,
    {
        let mut s = owned(prefix);
        push_str(&mut s, items[i].as_str());
        push_line(lines, s);
        assert(prefixed(prefix@, strings(items@).take(i + 1)) =~= prefixed(
            prefix@,
            strings(items@).take(i as int),
        ).push(prefix@ + items@[i as int]@));
        i = i + 1;
    }
    assert(strings(items@).take(items@.len() as int) =~= strings(items@));
}

/// The verb of the install summary's first line.
pub open spec fn install_verb(o: InstallOutcome) -> Seq<char> {
    if o.already_in_place {
        "already installed at"@
    } else if o.replaced_existing {
        "replaced"@
    } else {
        "installed to"@
    }
}

/// The PATH lines of the install summary.
pub open spec fn path_lines(o: InstallOutcome) -> Seq<Seq<char>> {
    match o.path {
        PathDecision::Edit => if o.path_modifications@.len() == 0 {
            seq!["PATH: "@ + o.bin_dir@ + " is already set up"@]
        } else {
            seq!["PATH: added "@ + o.bin_dir@ + " via:"@] + described(o.path_modifications@)
        },
        PathDecision::AlreadyOnPath => seq!["PATH: "@ + o.bin_dir@ + " is already on PATH"@],
        PathDecision::Skip(reason) => seq!["PATH: not modified ("@ + reason@ + ")"@],
    }
}

pub open spec fn opt_line(o: Option<Seq<char>>) -> Seq<Seq<char>> {
    match o {
        Some(x) => seq![x],
        None => Seq::empty(),
    }
}

pub open spec fn hint_line(o: InstallOutcome) -> Seq<Seq<char>> {
    opt_line(
        match o.current_shell_hint {
            Some(h) => Some("  to use it in this shell now: "@ + h@),
            None => None,
        },
    )
}

pub open spec fn receipt_line(o: InstallOutcome) -> Seq<Seq<char>> {
    seq![
        match o.receipt_path {
            Some(p) => "receipt: "@ + p@,
            None => "receipt: none (--unmanaged)"@,
        },
    ]
}

pub open spec fn left_behind_line(o: InstallOutcome) -> Seq<Seq<char>> {
    opt_line(
        match o.source_left_behind {
            Some(s) => Some("the copy you ran is no longer needed: "@ + s@),
            None => None,
        },
    )
}

/// The human summary of an install.
pub open spec fn install_lines(
    app: Seq<char>,
    version: Seq<char>,
    completion_command: Option<Seq<Seq<char>>>,
    o: InstallOutcome,
) -> Seq<Seq<char>> {
    seq![app + " "@ + version + " "@ + install_verb(o) + " "@ + o.binary_path@]
        + path_lines(o) + hint_line(o) + receipt_line(o) + prefixed("completions: "@, strings(o.completions@))
        + prefixed("note: "@, strings(o.notes@)) + left_behind_line(o) + opt_line(
        if o.completions@.len() == 0 {
            match completion_command {
                Some(argv) => Some("hint: `"@ + app + " "@ + join_with(argv, " "@)
                    + " <shell>` prints shell completions"@),
                None => None,
            }
        } else {
            None
        },
    )
}

pub open spec fn opt_strings(o: Option<Vec<String>>) -> Option<Seq<Seq<char>>> {
    match o {
        Some(v) => Some(strings(v@)),
        None => None,
    }
}

/// The summary `self install` prints.
pub fn render_install(
    app: &str,
    version: &str,
    completion_command: &Option<Vec<String>>,
    o: &InstallOutcome,
) -> (lines: Vec<String>)
    ensures
        strings(lines@) == install_lines(app@, version@, opt_strings(*completion_command), *o),
{
    let mut lines: Vec<String> = Vec::new();
    let verb = if o.already_in_place {
        "already installed at"
    } else if o.replaced_existing {
        "replaced"
    } else {
        "installed to"
    };
    let mut first = owned(app);
    push_str(&mut first, " ");
    push_str(&mut first, version);
    push_str(&mut first, " ");
    push_str(&mut first, verb);
    push_str(&mut first, " ");
    push_str(&mut first, o.binary_path.as_str());
    push_line(&mut lines, first);
    let ghost l1 = strings(lines@);
    assert(l1 =~= seq![app@ + " "@ + version@ + " "@ + install_verb(*o) + " "@ + o.binary_path@]);
    match &o.path {
        PathDecision::Edit => {
            if o.path_modifications.len() == 0 {
                let mut s = owned("PATH: ");
                push_str(&mut s, o.bin_dir.as_str());
                push_str(&mut s, " is already set up");
                push_line(&mut lines, s);
            } else {
                let mut s = owned("PATH: added ");
                push_str(&mut s, o.bin_dir.as_str());
                push_str(&mut s, " via:");
                push_line(&mut lines, s);
                let ghost l2 = strings(lines@);
                let mut i: usize = 0;
                assert(l2 =~= l2 + described(o.path_modifications@.take(0)));
                while i < o.path_modifications.len()
                    invariant
                        i <= o.path_modifications@.len(),
                        strings(lines@) == l2 + described(o.path_modifications@.take(i as int)),
                    decreases o.path_modifications.len() - i,
                {
                    let mut d = owned("  ");
                    let text = describe_modification(&o.path_modifications[i]);
                    push_str(&mut d, text.as_str());
                    push_line(&mut lines, d);
                    assert(described(o.path_modifications@.take(i + 1)) =~= described(
                        o.path_modifications@.take(i as int),
                    ).push("  "@ + describe_spec(o.path_modifications@[i as int])));
                    i = i + 1;
                }
                assert(o.path_modifications@.take(o.path_modifications@.len() as int)
                    =~= o.path_modifications@);
            }
        },
        PathDecision::AlreadyOnPath => {
            let mut s = owned("PATH: ");
            push_str(&mut s, o.bin_dir.as_str());
            push_str(&mut s, " is already on PATH");
            push_line(&mut lines, s);
        },
        PathDecision::Skip(reason) => {
            let mut s = owned("PATH: not modified (");
            push_str(&mut s, reason.as_str());
            push_str(&mut s, ")");
            push_line(&mut lines, s);
        },
    }
    let ghost l3 = strings(lines@);
    assert(l3 =~= l1 + path_lines(*o));
    if let Some(hint) = &o.current_shell_hint {
        let mut s = owned("  to use it in this shell now: ");
        push_str(&mut s, hint.as_str());
        push_line(&mut lines, s);
    }
    let r = match &o.receipt_path {
        Some(p) => {
            let mut s = owned("receipt: ");
            push_str(&mut s, p.as_str());
            s
        },
        None => owned("receipt: none (--unmanaged)"),
    };
    push_line(&mut lines, r);
    push_prefixed(&mut lines, "completions: ", &o.completions);
    push_prefixed(&mut lines, "note: ", &o.notes);
    if let Some(src) = &o.source_left_behind {
        let mut s = owned("the copy you ran is no longer needed: ");
        push_str(&mut s, src.as_str());
        push_line(&mut lines, s);
    }
    let ghost l4 = strings(lines@);
    if o.completions.len() == 0 {
        if let Some(argv) = completion_command {
            let mut s = owned("hint: `");
            push_str(&mut s, app);
            push_str(&mut s, " ");
            let joined = join_strings(argv, " ");
            push_str(&mut s, joined.as_str());
            push_str(&mut s, " <shell>` prints shell completions");
            push_line(&mut lines, s);
        }
    }
    assert(l4 =~= l3 + hint_line(*o) + receipt_line(*o) + prefixed("completions: "@, strings(o.completions@))
        + prefixed("note: "@, strings(o.notes@)) + left_behind_line(*o));
    lines
}

/// The receipt line of `self status`.
pub open spec fn receipt_status_line(r: StatusReport) -> Seq<char> {
    match (r.receipt, r.receipt_error, r.receipt_path) {
        (Some(rc), _, Some(p)) => "receipt: "@ + p@ + " (version "@ + rc.version@ + ", installed "@
            + rc.installed_at@ + ")"@,
        (None, Some(err), _) => "receipt: unreadable: "@ + err@,
        (None, None, Some(p)) => "receipt: none (expected at "@ + p@ + ")"@,
        _ => "receipt: no local data directory"@,
    }
}

/// The PATH lines of `self status`: the copy used, then the ones it
/// shadows.
pub open spec fn copies_lines(copies: Seq<Seq<char>>) -> Seq<Seq<char>> {
    if copies.len() == 0 {
        seq!["on PATH: not found"@]
    } else if copies.len() == 1 {
        seq!["on PATH: "@ + copies[0]]
    } else {
        seq!["on PATH: "@ + copies[0] + " (used)"@] + prefixed("  shadowed: "@, copies.drop_first())
    }
}

pub open spec fn bin_dir_line(r: StatusReport) -> Seq<Seq<char>> {
    opt_line(
        match r.bin_dir {
            Some(d) => Some("bin dir: "@ + d@ + " ("@ + (if r.bin_dir_on_path {
                "on PATH"@
            } else {
                "not on PATH"@
            }) + ")"@),
            None => None,
        },
    )
}

/// The human form of `self status`.
pub open spec fn status_lines(r: StatusReport) -> Seq<Seq<char>> {
    seq![
        r.app@ + " "@ + r.version@ + " ("@ + r.target@ + ")"@,
        "running binary: "@ + r.running_binary@,
        "install method: "@ + method_name(r.method),
        receipt_status_line(r),
    ] + bin_dir_line(r) + copies_lines(strings(r.copies_on_path@)) + prefixed("stale: "@, strings(r.stale_files@))
        + opt_line(
        match r.upgrade_hint {
            Some(h) => Some("managed by a package manager: "@ + h@),
            None => None,
        },
    )
}

fn receipt_status(r: &StatusReport) -> (s: String)
    ensures
        s@ == receipt_status_line(*r),
{
    match (&r.receipt, &r.receipt_error, &r.receipt_path) {
        (Some(rc), _, Some(p)) => {
            let mut s = owned("receipt: ");
            push_str(&mut s, p.as_str());
            push_str(&mut s, " (version ");
            push_str(&mut s, rc.version.as_str());
            push_str(&mut s, ", installed ");
            push_str(&mut s, rc.installed_at.as_str());
            push_str(&mut s, ")");
            s
        },
        (None, Some(err), _) => {
            let mut s = owned("receipt: unreadable: ");
            push_str(&mut s, err.as_str());
            s
        },
        (None, None, Some(p)) => {
            let mut s = owned("receipt: none (expected at ");
            push_str(&mut s, p.as_str());
            push_str(&mut s, ")");
            s
        },
        _ => owned("receipt: no local data directory"),
    }
}

/// The lines `self status` prints without `--json`.
pub fn render_status(r: &StatusReport) -> (lines: Vec<String>)
    ensures
        strings(lines@) == status_lines(*r),
{
    let mut lines: Vec<String> = Vec::new();
    let mut a = r.app.clone();
    push_str(&mut a, " ");
    push_str(&mut a, r.version.as_str());
    push_str(&mut a, " (");
    push_str(&mut a, r.target.as_str());
    push_str(&mut a, ")");
    push_line(&mut lines, a);
    let mut b = owned("running binary: ");
    push_str(&mut b, r.running_binary.as_str());
    push_line(&mut lines, b);
    let mut c = owned("install method: ");
    push_str(&mut c, r.method.as_str());
    push_line(&mut lines, c);
    push_line(&mut lines, receipt_status(r));
    if let Some(dir) = &r.bin_dir {
        let mut s = owned("bin dir: ");
        push_str(&mut s, dir.as_str());
        push_str(&mut s, " (");
        push_str(
            &mut s,
            if r.bin_dir_on_path {
                "on PATH"
            } else {
                "not on PATH"
            },
        );
        push_str(&mut s, ")");
        push_line(&mut lines, s);
    }
    let ghost head = strings(lines@);
    let ghost copies = strings(r.copies_on_path@);
    let n = r.copies_on_path.len();
    if n == 0 {
        push_line(&mut lines, owned("on PATH: not found"));
    } else if n == 1 {
        let mut s = owned("on PATH: ");
        push_str(&mut s, r.copies_on_path[0].as_str());
        push_line(&mut lines, s);
    } else {
        let mut s = owned("on PATH: ");
        push_str(&mut s, r.copies_on_path[0].as_str());
        push_str(&mut s, " (used)");
        push_line(&mut lines, s);
        let ghost mid = strings(lines@);
        let mut i: usize = 1;
        assert(prefixed("  shadowed: "@, copies.drop_first().take(0)) =~= Seq::<Seq<char>>::empty());
        assert(mid =~= mid + prefixed("  shadowed: "@, copies.drop_first().take(0)));
        while i < n
            invariant
                1 <= i <= n,
                n == r.copies_on_path@.len(),
                copies == strings(r.copies_on_path@),
                strings(lines@) == mid + prefixed("  shadowed: "@, copies.drop_first().take(i - 1)),
            decreases n - i,
        {
            let mut s = owned("  shadowed: ");
            push_str(&mut s, r.copies_on_path[i].as_str());
            push_line(&mut lines, s);
            assert(copies.drop_first().take(i as int) =~= copies.drop_first().take(i - 1).push(
                r.copies_on_path@[i as int]@,
            ));
            assert(prefixed("  shadowed: "@, copies.drop_first().take(i as int)) =~= prefixed(
                "  shadowed: "@,
                copies.drop_first().take(i - 1),
            ).push("  shadowed: "@ + r.copies_on_path@[i as int]@));
            i = i + 1;
        }
        assert(copies.drop_first().take(n - 1) =~= copies.drop_first());
    }
    assert(strings(lines@) =~= head + copies_lines(copies));
    push_prefixed(&mut lines, "stale: ", &r.stale_files);
    if let Some(hint) = &r.upgrade_hint {
        let mut s = owned("managed by a package manager: ");
        push_str(&mut s, hint.as_str());
        push_line(&mut lines, s);
    }
    assert(head =~= seq![
        r.app@ + " "@ + r.version@ + " ("@ + r.target@ + ")"@,
        "running binary: "@ + r.running_binary@,
        "install method: "@ + method_name(r.method),
        receipt_status_line(*r),
    ] + bin_dir_line(*r));
    lines
}

/// What `self uninstall` prints after it ran: what it removed, purged and
/// kept, whether deletion waits for the process to exit, and a last line.
pub open spec fn uninstall_lines(app: Seq<char>, out: UninstallOutcome) -> Seq<Seq<char>> {
    prefixed("removed "@, strings(out.removed@)) + prefixed("purged "@, strings(out.purged@))
        + prefixed("kept "@, strings(out.kept@)) + (if out.deletion_deferred {
        seq!["the binary is deleted as soon as this process exits"@]
    } else {
        Seq::empty()
    }) + seq![app + " uninstalled"@]
}

pub fn render_uninstall(app: &str, out: &UninstallOutcome) -> (lines: Vec<String>)
    ensures
        strings(lines@) == uninstall_lines(app@, *out),
{
    let mut lines: Vec<String> = Vec::new();
    assert(strings(lines@) =~= Seq::<Seq<char>>::empty());
    push_prefixed(&mut lines, "removed ", &out.removed);
    push_prefixed(&mut lines, "purged ", &out.purged);
    push_prefixed(&mut lines, "kept ", &out.kept);
    let ghost mid = strings(lines@);
    if out.deletion_deferred {
        push_line(&mut lines, owned("the binary is deleted as soon as this process exits"));
    }
    let mut last = owned(app);
    push_str(&mut last, " uninstalled");
    push_line(&mut lines, last);
    assert(strings(lines@) =~= uninstall_lines(app@, *out));
    lines
}

} // verus!
