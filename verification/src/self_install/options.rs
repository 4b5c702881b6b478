//! What an application declares about where its releases live, and how its
//! installs behave.

use crate::self_install::archive::{check_public_key, key_parses};
use crate::text::{
    chars_of, contains, contains_seq, debug_quoted, debug_repr, is_prefix_of, lemma_split_nonempty,
    owned, push_str, replace_all, replace_vec, seqs, split_char, split_on, starts_with, string_of,
};
use vstd::prelude::*;

verus! {

/// Where release archives are published.
#[derive(Debug, PartialEq, Eq)]
pub enum ReleaseSource {
    /// GitHub releases of `owner/name`.
    Github {
        repo: String,
        /// GitHub Enterprise API base; `None` means `https://api.github.com`.
        api_base: Option<String>,
    },
    /// A plain HTTPS mirror serving the same asset names plus `latest.json`.
    Http { base_url: String },
}

impl Clone for ReleaseSource {
    fn clone(&self) -> (r: Self)
        ensures
            r == *self,
    {
        match self {
            ReleaseSource::Github { repo, api_base } => ReleaseSource::Github {
                repo: repo.clone(),
                api_base: crate::text::clone_opt(api_base),
            },
            ReleaseSource::Http { base_url } => ReleaseSource::Http { base_url: base_url.clone() },
        }
    }
}

/// The application's self-install declaration.
#[derive(Debug, Clone, PartialEq, Eq)]
pub struct SelfInstallOptions {
    source: ReleaseSource,
    tag_prefix: String,
    asset_template: String,
    completions: bool,
    public_key: Option<String>,
    update_notice: bool,
    apps_and_features: bool,
    publisher: Option<String>,
}

/// The default archive name: `<app>-<target>.tar.gz` or `.zip`.
pub open spec fn default_asset_template() -> Seq<char> {
    "{app}-{target}.{ext}"@
}

/// The options' fields, as the contracts read them.
pub struct OptionsView {
    pub source: ReleaseSource,
    pub tag_prefix: Seq<char>,
    pub asset_template: Seq<char>,
    pub completions: bool,
    pub public_key: Option<String>,
    pub update_notice: bool,
    pub apps_and_features: bool,
    pub publisher: Option<String>,
}

impl View for SelfInstallOptions {
    type V = OptionsView;

    closed spec fn view(&self) -> OptionsView {
        OptionsView {
            source: self.source,
            tag_prefix: self.tag_prefix@,
            asset_template: self.asset_template@,
            completions: self.completions,
            public_key: self.public_key,
            update_notice: self.update_notice,
            apps_and_features: self.apps_and_features,
            publisher: self.publisher,
        }
    }
}

/// All leading `c` removed, as `trim_start_matches(c)` does.
pub open spec fn strip_leading(s: Seq<char>, c: char) -> Seq<char>
    decreases s.len(),
{
    if s.len() > 0 && s[0] == c {
        strip_leading(s.drop_first(), c)
    } else {
        s
    }
}

pub(crate) fn strip_leading_exec(s: &str, c: char) -> (r: Vec<char>)
    ensures
        r@ == strip_leading(s@, c),
{
    let v = chars_of(s);
    let mut i: usize = 0;
    assert(v@.subrange(0, v@.len() as int) =~= v@);
    while i < v.len() && v[i] == c
        invariant
            i <= v@.len(),
            strip_leading(s@, c) == strip_leading(v@.subrange(i as int, v@.len() as int), c),
            v@ == s@,
        decreases v.len() - i,
    {
        let ghost rest = v@.subrange(i as int, v@.len() as int);
        assert(rest.drop_first() =~= v@.subrange(i + 1, v@.len() as int));
        i = i + 1;
    }
    crate::text::slice_range(v.as_slice(), i, v.len())
}

/// The archive name for an app at a version on a target.
pub open spec fn asset_name_spec(
    template: Seq<char>,
    app: Seq<char>,
    version: Seq<char>,
    target: Seq<char>,
) -> Seq<char> {
    let ext = if contains_seq(target, "windows"@) {
        "zip"@
    } else {
        "tar.gz"@
    };
    replace_all(
        replace_all(
            replace_all(replace_all(template, "{app}"@, app), "{target}"@, target),
            "{version}"@,
            strip_leading(version, 'v'),
        ),
        "{ext}"@,
        ext,
    )
}

/// `http://` to a loopback host, followed by nothing, a port or a path.
pub open spec fn loopback_http(url: Seq<char>) -> bool {
    exists|p: Seq<char>|
        (p == "http://127.0.0.1"@ || p == "http://localhost"@ || p == "http://[::1]"@) && #[trigger] is_prefix_of(p, url)
            && (url.len() == p.len() || url[p.len() as int] == ':' || url[p.len() as int] == '/')
}

/// HTTPS only, with one exception: loopback `http://` for a local mirror.
pub open spec fn https_ok(url: Seq<char>) -> bool {
    is_prefix_of("https://"@, url) || loopback_http(url)
}

fn loopback_prefix(u: &Vec<char>, p: &str) -> (r: bool)
    ensures
        r == (is_prefix_of(p@, u@) && (u@.len() == p@.len() || u@[p@.len() as int] == ':'
            || u@[p@.len() as int] == '/')),
{
    let pc = chars_of(p);
    if !starts_with(u.as_slice(), pc.as_slice()) {
        return false;
    }
    let n = pc.len();
    n == u.len() || u[n] == ':' || u[n] == '/'
}

pub fn is_loopback_http(url: &str) -> (r: bool)
    ensures
        r == loopback_http(url@),
{
    let u = chars_of(url);
    if loopback_prefix(&u, "http://127.0.0.1") {
        return true;
    }
    if loopback_prefix(&u, "http://localhost") {
        return true;
    }
    if loopback_prefix(&u, "http://[::1]") {
        return true;
    }
    false
}

/// Accept `https://`, and loopback `http://`; nothing on loopback crosses a
/// network.
pub fn check_https(url: &str) -> (r: Result<(), String>)
    ensures
        r is Ok <==> https_ok(url@),
        r matches Err(e) ==> e@ == "self-install URL "@ + debug_repr(url@) + " must use https://"@,
{
    if starts_with(chars_of(url).as_slice(), chars_of("https://").as_slice()) || is_loopback_http(
        url,
    ) {
        Ok(())
    } else {
        let mut e = owned("self-install URL ");
        let q = debug_quoted(url);
        push_str(&mut e, q.as_str());
        push_str(&mut e, " must use https://");
        Err(e)
    }
}

/// A GitHub repository is `owner/name`, both non-empty.
pub open spec fn repo_ok(repo: Seq<char>) -> bool {
    let parts = split_on(repo, '/');
    parts.len() == 2 && parts[0].len() > 0 && parts[1].len() > 0
}

/// What `validate` decides: the first failing rule's error, or none.
pub open spec fn validation_error(o: OptionsView) -> Option<Seq<char>> {
    let source_error = match o.source {
        ReleaseSource::Github { repo, api_base } => if !repo_ok(repo@) {
            Some("self-install GitHub repo "@ + debug_repr(repo@) + " must be \"owner/name\""@)
        } else {
            match api_base {
                Some(b) => if https_ok(b@) {
                    None
                } else {
                    Some("self-install URL "@ + debug_repr(b@) + " must use https://"@)
                },
                None => None,
            }
        },
        ReleaseSource::Http { base_url } => if https_ok(base_url@) {
            None
        } else {
            Some("self-install URL "@ + debug_repr(base_url@) + " must use https://"@)
        },
    };
    if source_error is Some {
        source_error
    } else if !contains_seq(o.asset_template, "{target}"@) {
        Some("self-install asset template "@ + debug_repr(o.asset_template)
            + " must contain {target}"@)
    } else {
        None
    }
}

impl SelfInstallOptions {
    fn with_source(source: ReleaseSource) -> (o: Self)
        ensures
            o@.source == source,
            o@.tag_prefix == "v"@,
            o@.asset_template == default_asset_template(),
            !o@.completions,
            o@.public_key is None,
            !o@.update_notice,
            o@.apps_and_features,
            o@.publisher is None,
    {
        SelfInstallOptions {
            source,
            tag_prefix: owned("v"),
            asset_template: owned("{app}-{target}.{ext}"),
            completions: false,
            public_key: None,
            update_notice: false,
            apps_and_features: true,
            publisher: None,
        }
    }

    /// Releases published on GitHub under `owner/name`.
    pub fn github(repo: &str) -> (o: Self)
        ensures
            o@.source matches ReleaseSource::Github { repo: r, api_base: None } && r@ == repo@,
            o@.tag_prefix == "v"@,
            o@.asset_template == default_asset_template(),
            !o@.completions,
            o@.public_key is None,
            !o@.update_notice,
            o@.apps_and_features,
            o@.publisher is None,
    {
        Self::with_source(ReleaseSource::Github { repo: owned(repo), api_base: None })
    }

    /// Releases served by an HTTPS mirror at `base_url`.
    pub fn http(base_url: &str) -> (o: Self)
        ensures
            o@.source matches ReleaseSource::Http { base_url: b } && b@ == base_url@,
            o@.tag_prefix == "v"@,
            o@.asset_template == default_asset_template(),
            !o@.completions,
            o@.public_key is None,
            !o@.update_notice,
            o@.apps_and_features,
            o@.publisher is None,
    {
        Self::with_source(ReleaseSource::Http { base_url: owned(base_url) })
    }

    /// GitHub Enterprise API base. Ignored for an HTTP source.
    pub fn github_api_base(self, api_base: &str) -> (o: Self)
        ensures
            match self@.source {
                ReleaseSource::Github { repo, .. } => o@.source matches ReleaseSource::Github {
                    repo: r,
                    api_base: Some(b),
                } && r == repo && b@ == api_base@,
                ReleaseSource::Http { .. } => o@.source == self@.source,
            },
            o@.tag_prefix == self@.tag_prefix,
            o@.asset_template == self@.asset_template,
            o@.completions == self@.completions,
            o@.public_key == self@.public_key,
            o@.update_notice == self@.update_notice,
            o@.apps_and_features == self@.apps_and_features,
            o@.publisher == self@.publisher,
    {
        let mut o = self;
        o.source = match o.source {
            ReleaseSource::Github { repo, .. } => ReleaseSource::Github {
                repo,
                api_base: Some(owned(api_base)),
            },
            other => other,
        };
        o
    }

    /// Tag prefix before the version; `"v"` by default.
    pub fn tag_prefix(self, prefix: &str) -> (o: Self)
        ensures
            o@ == (OptionsView { tag_prefix: prefix@, ..self@ }),
    {
        let mut o = self;
        o.tag_prefix = owned(prefix);
        o
    }

    /// Archive file name template. Placeholders: `{app}`, `{target}`,
    /// `{version}` and `{ext}`.
    pub fn asset_template(self, template: &str) -> (o: Self)
        ensures
            o@ == (OptionsView { asset_template: template@, ..self@ }),
    {
        let mut o = self;
        o.asset_template = owned(template);
        o
    }

    /// Install bash and fish completion files during `self install`.
    pub fn completions(self, enabled: bool) -> (o: Self)
        ensures
            o@ == (OptionsView { completions: enabled, ..self@ }),
    {
        let mut o = self;
        o.completions = enabled;
        o
    }

    /// A minisign public key; when set, releases must be signed.
    pub fn public_key(self, key: Option<&str>) -> (o: Self)
        ensures
            key matches Some(k) ==> (o@.public_key matches Some(p) && p@ == k@),
            key is None ==> o@.public_key is None,
            o@.source == self@.source,
            o@.tag_prefix == self@.tag_prefix,
            o@.asset_template == self@.asset_template,
            o@.completions == self@.completions,
            o@.update_notice == self@.update_notice,
            o@.apps_and_features == self@.apps_and_features,
            o@.publisher == self@.publisher,
    {
        let mut o = self;
        o.public_key = match key {
            Some(k) => Some(owned(k)),
            None => None,
        };
        o
    }

    /// Print a stderr line after a successful command when a newer release
    /// exists. Off by default.
    pub fn update_notice(self, enabled: bool) -> (o: Self)
        ensures
            o@ == (OptionsView { update_notice: enabled, ..self@ }),
    {
        let mut o = self;
        o.update_notice = enabled;
        o
    }

    /// Register a Windows Apps & Features entry for user installs.
    pub fn apps_and_features(self, enabled: bool) -> (o: Self)
        ensures
            o@ == (OptionsView { apps_and_features: enabled, ..self@ }),
    {
        let mut o = self;
        o.apps_and_features = enabled;
        o
    }

    /// The publisher Apps & Features shows.
    pub fn publisher(self, publisher: &str) -> (o: Self)
        ensures
            o@.publisher matches Some(p) && p@ == publisher@,
            o@.source == self@.source,
            o@.tag_prefix == self@.tag_prefix,
            o@.asset_template == self@.asset_template,
            o@.completions == self@.completions,
            o@.public_key == self@.public_key,
            o@.update_notice == self@.update_notice,
            o@.apps_and_features == self@.apps_and_features,
    {
        let mut o = self;
        o.publisher = Some(owned(publisher));
        o
    }

    /// The publisher: the declared one, else the GitHub owner, else the app.
    pub fn publisher_name(&self, app: &str) -> (r: String)
        ensures
            r@ == (match self@.publisher {
                Some(p) => p@,
                None => match self@.source {
                    ReleaseSource::Github { repo, .. } => split_on(repo@, '/')[0],
                    ReleaseSource::Http { .. } => app@,
                },
            }),
    {
        if let Some(p) = &self.publisher {
            return p.clone();
        }
        match &self.source {
            ReleaseSource::Github { repo, .. } => {
                let parts = split_char(chars_of(repo.as_str()).as_slice(), '/');
                proof {
                    lemma_split_nonempty(repo@, '/');
                    assert(seqs(parts@)[0] == parts@[0]@);
                }
                string_of(parts[0].as_slice())
            },
            ReleaseSource::Http { .. } => owned(app),
        }
    }

    pub fn update_notice_enabled(&self) -> (r: bool)
        ensures
            r == self@.update_notice,
    {
        self.update_notice
    }

    pub fn source(&self) -> (r: &ReleaseSource)
        ensures
            *r == self@.source,
    {
        &self.source
    }

    pub fn get_tag_prefix(&self) -> (r: &str)
        ensures
            r@ == self@.tag_prefix,
    {
        self.tag_prefix.as_str()
    }

    pub fn get_asset_template(&self) -> (r: &str)
        ensures
            r@ == self@.asset_template,
    {
        self.asset_template.as_str()
    }

    pub fn completions_enabled(&self) -> (r: bool)
        ensures
            r == self@.completions,
    {
        self.completions
    }

    pub fn apps_and_features_enabled(&self) -> (r: bool)
        ensures
            r == self@.apps_and_features,
    {
        self.apps_and_features
    }

    pub fn get_public_key(&self) -> (r: Option<&str>)
        ensures
            match self@.public_key {
                Some(k) => r matches Some(s) && s@ == k@,
                None => r is None,
            },
    {
        match &self.public_key {
            Some(k) => Some(k.as_str()),
            None => None,
        }
    }

    /// The archive name for `app` at `version` on `target`.
    pub fn asset_name(&self, app: &str, version: &str, target: &str) -> (r: String)
        ensures
            r@ == asset_name_spec(self@.asset_template, app@, version@, target@),
    {
        proof {
            reveal_strlit("{app}");
            reveal_strlit("{target}");
            reveal_strlit("{version}");
            reveal_strlit("{ext}");
        }
        let ext = if contains(chars_of(target).as_slice(), chars_of("windows").as_slice()) {
            "zip"
        } else {
            "tar.gz"
        };
        let t = chars_of(self.asset_template.as_str());
        let s1 = replace_vec(t.as_slice(), chars_of("{app}").as_slice(), chars_of(app).as_slice());
        let s2 = replace_vec(
            s1.as_slice(),
            chars_of("{target}").as_slice(),
            chars_of(target).as_slice(),
        );
        let v = strip_leading_exec(version, 'v');
        let s3 = replace_vec(s2.as_slice(), chars_of("{version}").as_slice(), v.as_slice());
        let s4 = replace_vec(s3.as_slice(), chars_of("{ext}").as_slice(), chars_of(ext).as_slice());
        string_of(s4.as_slice())
    }

    /// Reject declarations that could never work, at build time rather than
    /// on a user's machine.
    pub fn validate(&self) -> (r: Result<(), String>)
        ensures
            validation_error(self@) matches Some(e) ==> (r matches Err(m) && m@ == e),
            validation_error(self@) is None ==> match self@.public_key {
                Some(k) => (r is Ok <==> key_parses(k@)),
                None => r is Ok,
            },
    {
        match &self.source {
            ReleaseSource::Github { repo, api_base } => {
                let parts = split_char(chars_of(repo.as_str()).as_slice(), '/');
                assert(seqs(parts@) == split_on(repo@, '/'));
                let valid = parts.len() == 2 && parts[0].len() > 0 && parts[1].len() > 0;
                proof {
                    if parts.len() == 2 {
                        assert(seqs(parts@)[0] == parts@[0]@);
                        assert(seqs(parts@)[1] == parts@[1]@);
                    }
                }
                if !valid {
                    let mut e = owned("self-install GitHub repo ");
                    let q = debug_quoted(repo.as_str());
                    push_str(&mut e, q.as_str());
                    push_str(&mut e, " must be \"owner/name\"");
                    return Err(e);
                }
                if let Some(base) = api_base {
                    match check_https(base.as_str()) {
                        Ok(()) => {},
                        Err(e) => {
                            return Err(e);
                        },
                    }
                }
            },
            ReleaseSource::Http { base_url } => {
                match check_https(base_url.as_str()) {
                    Ok(()) => {},
                    Err(e) => {
                        return Err(e);
                    },
                }
            },
        }
        if !contains(
            chars_of(self.asset_template.as_str()).as_slice(),
            chars_of("{target}").as_slice(),
        ) {
            let mut e = owned("self-install asset template ");
            let q = debug_quoted(self.asset_template.as_str());
            push_str(&mut e, q.as_str());
            push_str(&mut e, " must contain {target}");
            return Err(e);
        }
        if let Some(key) = &self.public_key {
            match check_public_key(key.as_str()) {
                Ok(()) => {},
                Err(e) => {
                    return Err(e);
                },
            }
        }
        Ok(())
    }
}

} // verus!
