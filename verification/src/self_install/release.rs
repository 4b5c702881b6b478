//! Finding a release: which channel was asked for, which listed release it
//! picks, and where its archive, sums and signature are fetched from. The
//! requests themselves are the caller's: it fetches the URL a step names
//! and hands back what came.

use crate::self_install::archive::{signature_file, sums_file};
use crate::self_install::options::{strip_leading, strip_leading_exec, ReleaseSource};
use crate::self_install::version::{semver_cmp, semver_error, semver_has_pre, semver_parses, SemVer};
use crate::self_install::windows_path::{strip_trailing, strip_trailing_exec};
use crate::text::{
    chars_of, debug_quoted, debug_repr, is_prefix_of, owned, push_str, slice_range, starts_with,
    str_eq, string_of, trim_seq, trim_vec,
};
use vstd::prelude::*;

verus! {

/// The GitHub API used when a source names none.
pub open spec fn default_github_api() -> Seq<char> {
    "https://api.github.com"@
}

/// What `self update` was asked for.
#[derive(Debug)]
pub enum Channel {
    /// The newest release that is not a prerelease.
    Stable,
    /// The newest release, prereleases included.
    Latest,
    /// Exactly this version.
    Exact(SemVer),
}

/// What a channel text asks for: `stable`, `latest`, or the version read
/// from the text with leading `v`s dropped.
pub open spec fn channel_parse(raw: Seq<char>) -> Result<Option<Seq<char>>, Seq<char>> {
    let t = trim_seq(raw);
    if t == "stable"@ || t == "latest"@ {
        Ok(None)
    } else if semver_parses(strip_leading(t, 'v')) {
        Ok(Some(strip_leading(t, 'v')))
    } else {
        Err(debug_repr(t) + " is not stable, latest or a version: "@ + semver_error(strip_leading(t, 'v')))
    }
}

/// A channel read from text, as `channel_view` shows it: `stable`,
/// `latest` or a version, or why the text is none of them.
pub open spec fn parsed_channel(raw: Seq<char>) -> Result<Option<Option<Seq<char>>>, Seq<char>> {
    let t = trim_seq(raw);
    if t == "stable"@ {
        Ok(None)
    } else if t == "latest"@ {
        Ok(Some(None))
    } else {
        match channel_parse(raw) {
            Ok(v) => Ok(Some(v)),
            Err(m) => Err(m),
        }
    }
}

impl Channel {
    /// Parse `stable`, `latest` or a version (`1.4.2`, `v1.4.2`).
    pub fn parse(raw: &str) -> (r: Result<Channel, String>)
        ensures
            match r {
                Ok(Channel::Stable) => trim_seq(raw@) == "stable"@,
                Ok(Channel::Latest) => trim_seq(raw@) == "latest"@,
                Ok(Channel::Exact(v)) => channel_parse(raw@) == Ok::<Option<Seq<char>>, Seq<char>>(
                    Some(v.source()),
                ),
                Err(e) => channel_parse(raw@) == Err::<Option<Seq<char>>, Seq<char>>(e@),
            },
            r is Ok <==> channel_parse(raw@) is Ok,
            r matches Ok(c) ==> (c is Exact <==> channel_parse(raw@) matches Ok(Some(_))),
            match r {
                Ok(c) => parsed_channel(raw@) == Ok::<Option<Option<Seq<char>>>, Seq<char>>(
                    channel_view(c),
                ),
                Err(e) => parsed_channel(raw@) == Err::<Option<Option<Seq<char>>>, Seq<char>>(e@),
            },
    {
        proof {
            reveal_strlit("stable");
            reveal_strlit("latest");
        }
        let t = string_of(trim_vec(chars_of(raw).as_slice()).as_slice());
        if str_eq(t.as_str(), "stable") {
            return Ok(Channel::Stable);
        }
        if str_eq(t.as_str(), "latest") {
            return Ok(Channel::Latest);
        }
        let stripped = string_of(strip_leading_exec(t.as_str(), 'v').as_slice());
        match SemVer::parse(stripped.as_str()) {
            Ok(v) => Ok(Channel::Exact(v)),
            Err(e) => {
                let mut m = debug_quoted(t.as_str());
                push_str(&mut m, " is not stable, latest or a version: ");
                push_str(&mut m, e.as_str());
                Err(m)
            },
        }
    }

    /// The name recorded in the receipt, for a channel that is one.
    pub fn name(&self) -> (r: Option<&'static str>)
        ensures
            match self {
                Channel::Stable => r matches Some(n) && n@ == "stable"@,
                Channel::Latest => r matches Some(n) && n@ == "latest"@,
                Channel::Exact(_) => r is None,
            },
    {
        match self {
            Channel::Stable => Some("stable"),
            Channel::Latest => Some("latest"),
            Channel::Exact(_) => None,
        }
    }

    /// A copy.
    pub fn copy(&self) -> (r: Channel)
        ensures
            match (self, r) {
                (Channel::Stable, Channel::Stable) => true,
                (Channel::Latest, Channel::Latest) => true,
                (Channel::Exact(a), Channel::Exact(b)) => a.source() == b.source(),
                _ => false,
            },
    {
        match self {
            Channel::Stable => Channel::Stable,
            Channel::Latest => Channel::Latest,
            Channel::Exact(v) => Channel::Exact(v.copy()),
        }
    }
}

/// Why a release could not be found or fetched.
#[derive(Debug)]
pub enum ReleaseError {
    Invalid(String),
    Http { url: String, message: String },
    Status { url: String, status: u16 },
    NotFound { wanted: String, prefix: String },
    MissingAsset { tag: String, asset: String },
    Write { path: String, message: String },
}

impl ReleaseError {
    /// The error's text.
    pub fn message(&self) -> (out: String)
        ensures
            match self {
                ReleaseError::Invalid(m) => out@ == m@,
                ReleaseError::Http { url, message } => out@ == "GET "@ + url@ + ": "@ + message@,
                ReleaseError::Status { url, status } => out@ == "GET "@ + url@ + ": HTTP "@
                    + crate::text::decimal(*status as nat),
                ReleaseError::NotFound { wanted, prefix } => out@ == "no release matches "@
                    + wanted@ + " (tag prefix "@ + debug_repr(prefix@) + ")"@,
                ReleaseError::MissingAsset { tag, asset } => out@ == "release "@ + tag@
                    + " has no asset "@ + asset@,
                ReleaseError::Write { path, message } => out@ == "cannot write "@ + path@ + ": "@
                    + message@,
            },
    {
        match self {
            ReleaseError::Invalid(m) => owned(m.as_str()),
            ReleaseError::Http { url, message } => {
                let mut out = owned("GET ");
                push_str(&mut out, url.as_str());
                push_str(&mut out, ": ");
                push_str(&mut out, message.as_str());
                out
            },
            ReleaseError::Status { url, status } => {
                let mut out = owned("GET ");
                push_str(&mut out, url.as_str());
                push_str(&mut out, ": HTTP ");
                let n = crate::telemetry::probes::u64_text(*status as u64);
                push_str(&mut out, n.as_str());
                out
            },
            ReleaseError::NotFound { wanted, prefix } => {
                let mut out = owned("no release matches ");
                push_str(&mut out, wanted.as_str());
                push_str(&mut out, " (tag prefix ");
                let q = debug_quoted(prefix.as_str());
                push_str(&mut out, q.as_str());
                push_str(&mut out, ")");
                out
            },
            ReleaseError::MissingAsset { tag, asset } => {
                let mut out = owned("release ");
                push_str(&mut out, tag.as_str());
                push_str(&mut out, " has no asset ");
                push_str(&mut out, asset.as_str());
                out
            },
            ReleaseError::Write { path, message } => {
                let mut out = owned("cannot write ");
                push_str(&mut out, path.as_str());
                push_str(&mut out, ": ");
                push_str(&mut out, message.as_str());
                out
            },
        }
    }
}

/// One release as the GitHub API lists it.
#[derive(Debug, Clone)]
pub struct GithubRelease {
    pub tag_name: String,
    pub draft: bool,
    pub prerelease: bool,
    pub assets: Vec<GithubAsset>,
}

/// One asset of a GitHub release.
#[derive(Debug, Clone)]
pub struct GithubAsset {
    pub name: String,
    /// API URL; downloads with `Accept: application/octet-stream`.
    pub url: String,
    pub browser_download_url: String,
}

/// `latest.json` on an HTTP mirror.
#[derive(Debug, Clone)]
pub struct LatestJson {
    pub version: String,
    pub latest: Option<String>,
}

/// A release picked for this target, with where to fetch its three files.
#[derive(Debug)]
pub struct ResolvedRelease {
    pub version: SemVer,
    pub tag: String,
    pub asset: String,
    pub asset_url: String,
    pub sums_url: String,
    /// `None` when the GitHub release carries no signature asset.
    pub signature_url: Option<String>,
    /// Whether the URLs are GitHub API asset URLs, which need the token and
    /// `Accept: application/octet-stream`.
    pub via_api: bool,
}

/// The version text a tag carries after `prefix`, when it parses.
pub open spec fn tag_version_spec(tag: Seq<char>, prefix: Seq<char>) -> Option<Seq<char>> {
    if is_prefix_of(prefix, tag) && semver_parses(tag.subrange(prefix.len() as int, tag.len() as int)) {
        Some(tag.subrange(prefix.len() as int, tag.len() as int))
    } else {
        None
    }
}

/// The version a tag names, if it carries `prefix`.
pub fn tag_version(tag: &str, prefix: &str) -> (r: Option<SemVer>)
    ensures
        match r {
            Some(v) => tag_version_spec(tag@, prefix@) == Some(v.source()),
            None => tag_version_spec(tag@, prefix@) is None,
        },
{
    let t = chars_of(tag);
    let p = chars_of(prefix);
    if !starts_with(t.as_slice(), p.as_slice()) {
        return None;
    }
    let rest = string_of(slice_range(t.as_slice(), p.len(), t.len()).as_slice());
    match SemVer::parse(rest.as_str()) {
        Ok(v) => Some(v),
        Err(_) => None,
    }
}

/// How a release list is filtered: the channel as a plain value, with the
/// wanted version's text for an exact channel.
pub open spec fn channel_view(c: Channel) -> Option<Option<Seq<char>>> {
    match c {
        Channel::Stable => None,
        Channel::Latest => Some(None),
        Channel::Exact(v) => Some(Some(v.source())),
    }
}

/// The version of a listed release when it counts for the channel: never a
/// draft; for `stable` neither flagged as a prerelease nor carrying a
/// prerelease part; for an exact channel equal to the wanted version.
pub open spec fn candidate(r: GithubRelease, prefix: Seq<char>, ch: Option<Option<Seq<char>>>) -> Option<
    Seq<char>,
> {
    if r.draft {
        None
    } else {
        match tag_version_spec(r.tag_name@, prefix) {
            None => None,
            Some(v) => {
                let ok = match ch {
                    None => !r.prerelease && !semver_has_pre(v),
                    Some(None) => true,
                    Some(Some(w)) => semver_cmp(v, w) == 0,
                };
                if ok {
                    Some(v)
                } else {
                    None
                }
            },
        }
    }
}

/// The newest candidate among the first `n` releases, with its index: a
/// later candidate replaces the one held unless the held one is greater,
/// so of equal versions the last wins (`Iterator::max_by`).
pub open spec fn newest(rs: Seq<GithubRelease>, prefix: Seq<char>, ch: Option<Option<Seq<char>>>, n: int) -> Option<
    (Seq<char>, int),
>
    decreases n,
{
    if n <= 0 {
        None
    } else {
        let held = newest(rs, prefix, ch, n - 1);
        match candidate(rs[n - 1], prefix, ch) {
            None => held,
            Some(v) => match held {
                Some((hv, hi)) => if semver_cmp(hv, v) == 1 {
                    Some((hv, hi))
                } else {
                    Some((v, n - 1))
                },
                None => Some((v, n - 1)),
            },
        }
    }
}

/// The newest candidate is one of the first `n` releases, and a candidate.
pub proof fn lemma_newest_is_candidate(rs: Seq<GithubRelease>, prefix: Seq<char>, ch: Option<Option<Seq<char>>>, n: int)
    ensures
        newest(rs, prefix, ch, n) matches Some((v, i)) ==> 0 <= i < n && candidate(rs[i], prefix, ch)
            == Some(v),
    decreases n,
{
    if n > 0 {
        lemma_newest_is_candidate(rs, prefix, ch, n - 1);
    }
}

/// The newest candidate among all the releases.
pub open spec fn newest_of_all(rs: Seq<GithubRelease>, prefix: Seq<char>, ch: Option<Option<Seq<char>>>) -> Option<
    (Seq<char>, int),
> {
    newest(rs, prefix, ch, rs.len() as int)
}

proof fn lemma_newest_of_all(rs: Seq<GithubRelease>, prefix: Seq<char>, ch: Option<Option<Seq<char>>>)
    ensures
        newest_of_all(rs, prefix, ch) matches Some((v, i)) ==> 0 <= i < rs.len() && candidate(
            rs[i],
            prefix,
            ch,
        ) == Some(v),
{
    lemma_newest_is_candidate(rs, prefix, ch, rs.len() as int);
}

/// What the newest pick for a channel is: a listed release that is no
/// draft, whose tag carries the version after the prefix; on the stable
/// channel neither flagged as a prerelease nor carrying a prerelease part;
/// on an exact channel the wanted version.
pub proof fn law_the_pick_fits_the_channel(
    rs: Seq<GithubRelease>,
    prefix: Seq<char>,
    ch: Option<Option<Seq<char>>>,
)
    ensures
        newest_of_all(rs, prefix, ch) matches Some((v, i)) ==> {
            &&& 0 <= i < rs.len()
            &&& !rs[i].draft
            &&& tag_version_spec(rs[i].tag_name@, prefix) == Some(v)
            &&& ch is None ==> !rs[i].prerelease && !semver_has_pre(v)
            &&& ch matches Some(Some(w)) ==> semver_cmp(v, w) == 0
        },
{
    lemma_newest_of_all(rs, prefix, ch);
}

fn candidate_exec(r: &GithubRelease, prefix: &str, channel: &Channel) -> (out: Option<SemVer>)
    ensures
        match out {
            Some(v) => candidate(*r, prefix@, channel_view(*channel)) == Some(v.source()),
            None => candidate(*r, prefix@, channel_view(*channel)) is None,
        },
{
    if r.draft {
        return None;
    }
    match tag_version(r.tag_name.as_str(), prefix) {
        None => None,
        Some(v) => {
            let ok = match channel {
                Channel::Stable => !r.prerelease && !v.has_pre(),
                Channel::Latest => true,
                Channel::Exact(w) => v.compare(w) == 0,
            };
            if ok {
                Some(v)
            } else {
                None
            }
        },
    }
}

/// Pick the newest release for `channel` among `releases`: the version and
/// the release's index.
pub fn pick_release(releases: &[GithubRelease], prefix: &str, channel: &Channel) -> (r: Option<
    (SemVer, usize),
>)
    ensures
        match r {
            Some((v, i)) => newest(releases@, prefix@, channel_view(*channel), releases@.len() as int)
                == Some((v.source(), i as int)),
            None => newest(releases@, prefix@, channel_view(*channel), releases@.len() as int) is None,
        },
{
    let mut best: Option<(SemVer, usize)> = None;
    let mut i: usize = 0;
    while i < releases.len()
        invariant
            i <= releases@.len(),
            match best {
                Some((v, k)) => newest(releases@, prefix@, channel_view(*channel), i as int) == Some(
                    (v.source(), k as int),
                ),
                None => newest(releases@, prefix@, channel_view(*channel), i as int) is None,
            },
        decreases releases.len() - i,
    {
        match candidate_exec(&releases[i], prefix, channel) {
            None => {},
            Some(v) => {
                let replace = match &best {
                    Some((hv, _)) => hv.compare(&v) != 1,
                    None => true,
                };
                if replace {
                    best = Some((v, i));
                }
            },
        }
        i = i + 1;
    }
    best
}

/// What `channel` is called when no release matches it.
pub open spec fn wanted_name(ch: Option<Option<Seq<char>>>) -> Seq<char> {
    match ch {
        None => "stable"@,
        Some(None) => "latest"@,
        Some(Some(_)) => Seq::empty(),
    }
}

/// The API base of a GitHub source, without trailing `/`.
pub open spec fn api_base_spec(api_base: Option<Seq<char>>) -> Seq<char> {
    strip_trailing(
        match api_base {
            Some(a) => a,
            None => default_github_api(),
        },
        '/',
    )
}

/// The API base of a GitHub source, without trailing `/`.
pub fn api_base_of(api_base: &Option<String>) -> (r: String)
    ensures
        r@ == api_base_spec(
            match api_base {
                Some(a) => Some(a@),
                None => None,
            },
        ),
{
    let base = match api_base {
        Some(a) => chars_of(a.as_str()),
        None => chars_of("https://api.github.com"),
    };
    string_of(strip_trailing_exec(&base, '/').as_slice())
}

/// The URL listing a repository's releases.
pub fn releases_url(api: &str, repo: &str) -> (r: String)
    ensures
        r@ == api@ + "/repos/"@ + repo@ + "/releases?per_page=100"@,
{
    let mut r = owned(api);
    push_str(&mut r, "/repos/");
    push_str(&mut r, repo);
    push_str(&mut r, "/releases?per_page=100");
    r
}

/// The URL of the release tagged `<prefix><version>`.
pub fn release_tag_url(api: &str, repo: &str, prefix: &str, version: &SemVer) -> (r: String)
    ensures
        r@ == api@ + "/repos/"@ + repo@ + "/releases/tags/"@ + prefix@
            + crate::self_install::version::semver_text(version.source()),
{
    let mut r = owned(api);
    push_str(&mut r, "/repos/");
    push_str(&mut r, repo);
    push_str(&mut r, "/releases/tags/");
    push_str(&mut r, prefix);
    push_str(&mut r, version.text());
    r
}

/// The first asset named `name`.
pub open spec fn asset_index(assets: Seq<GithubAsset>, name: Seq<char>) -> int
    decreases assets.len(),
{
    if assets.len() == 0 {
        0
    } else if assets[0].name@ == name {
        0
    } else {
        1 + asset_index(assets.subrange(1, assets.len() as int), name)
    }
}

proof fn lemma_asset_index(assets: Seq<GithubAsset>, name: Seq<char>, k: int)
    requires
        0 <= k <= assets.len(),
        forall|j: int| 0 <= j < k ==> assets[j].name@ != name,
        k < assets.len() ==> assets[k].name@ == name,
    ensures
        asset_index(assets, name) == k,
    decreases assets.len(),
{
    if assets.len() > 0 && k > 0 {
        let t = assets.subrange(1, assets.len() as int);
        assert forall|j: int| 0 <= j < k - 1 implies t[j].name@ != name by {
            assert(t[j] == assets[j + 1]);
        }
        lemma_asset_index(t, name, k - 1);
    }
}

fn find_asset(assets: &Vec<GithubAsset>, name: &str) -> (r: usize)
    ensures
        r as int == asset_index(assets@, name@),
        r <= assets@.len(),
{
    let mut i: usize = 0;
    while i < assets.len()
        invariant
            i <= assets@.len(),
            forall|j: int| 0 <= j < i ==> assets@[j].name@ != name@,
        decreases assets.len() - i,
    {
        if str_eq(assets[i].name.as_str(), name) {
            proof {
                lemma_asset_index(assets@, name@, i as int);
            }
            return i;
        }
        i = i + 1;
    }
    proof {
        lemma_asset_index(assets@, name@, i as int);
    }
    i
}

/// The download URL of an asset: the API URL with a token, the public one
/// without.
pub open spec fn asset_url(a: GithubAsset, with_token: bool) -> Seq<char> {
    if with_token {
        a.url@
    } else {
        a.browser_download_url@
    }
}

/// What resolving a GitHub release for a version gives: the archive's,
/// the sums' and (when the release has one) the signature's URLs, or the
/// first of the archive and the sums that the release lacks.
pub open spec fn release_urls_spec(
    release: GithubRelease,
    version: Seq<char>,
    asset: Seq<char>,
    with_token: bool,
    r: Result<ResolvedRelease, ReleaseError>,
) -> bool {
    let a = asset_index(release.assets@, asset);
    let s = asset_index(release.assets@, sums_file());
    let g = asset_index(release.assets@, signature_file());
    let n = release.assets@.len() as int;
    match r {
        Ok(rr) => a < n && s < n && rr.version.source() == version && rr.tag == release.tag_name
            && rr.asset@ == asset && rr.asset_url@ == asset_url(release.assets@[a], with_token)
            && rr.sums_url@ == asset_url(release.assets@[s], with_token) && (match rr.signature_url {
            Some(u) => g < n && u@ == asset_url(release.assets@[g], with_token),
            None => g == n,
        }) && rr.via_api == with_token,
        Err(ReleaseError::MissingAsset { tag, asset: missing }) => tag@ == release.tag_name@ && ((a
            == n && missing@ == asset) || (a < n && s == n && missing@ == sums_file())),
        Err(_) => false,
    }
}

/// Where a GitHub release's archive, sums and signature are fetched from,
/// or the first of the archive and the sums that the release lacks.
pub fn github_release_urls(release: &GithubRelease, version: SemVer, asset: &str, with_token: bool) -> (r: Result<
    ResolvedRelease,
    ReleaseError,
>)
    ensures
        release_urls_spec(*release, version.source(), asset@, with_token, r),
{
    proof {
        reveal_strlit("SHA256SUMS");
        reveal_strlit("SHA256SUMS.minisig");
    }
    let a = find_asset(&release.assets, asset);
    if a >= release.assets.len() {
        return Err(ReleaseError::MissingAsset { tag: release.tag_name.clone(), asset: owned(asset) });
    }
    let s = find_asset(&release.assets, "SHA256SUMS");
    if s >= release.assets.len() {
        return Err(
            ReleaseError::MissingAsset { tag: release.tag_name.clone(), asset: owned("SHA256SUMS") },
        );
    }
    let g = find_asset(&release.assets, "SHA256SUMS.minisig");
    let pick = |x: &GithubAsset| -> (u: String)
        ensures
            u@ == asset_url(*x, with_token),
        {
            if with_token {
                x.url.clone()
            } else {
                x.browser_download_url.clone()
            }
        };
    let signature_url = if g < release.assets.len() {
        Some(pick(&release.assets[g]))
    } else {
        None
    };
    Ok(ResolvedRelease {
        version,
        tag: release.tag_name.clone(),
        asset: owned(asset),
        asset_url: pick(&release.assets[a]),
        sums_url: pick(&release.assets[s]),
        signature_url,
        via_api: with_token,
    })
}

/// Where an HTTP mirror serves a release's files: `<base>/<tag>/<name>`.
pub open spec fn mirror_url(base: Seq<char>, tag: Seq<char>, name: Seq<char>) -> Seq<char> {
    base + "/"@ + tag + "/"@ + name
}

fn mirror_url_exec(base: &str, tag: &str, name: &str) -> (r: String)
    ensures
        r@ == mirror_url(base@, tag@, name@),
{
    let mut r = owned(base);
    push_str(&mut r, "/");
    push_str(&mut r, tag);
    push_str(&mut r, "/");
    push_str(&mut r, name);
    r
}

/// A release on an HTTP mirror: tagged `<prefix><version>`, with its
/// archive, sums and signature under `<base>/<tag>/`.
pub fn mirror_release(base: &str, prefix: &str, version: SemVer, asset: &str) -> (r: ResolvedRelease)
    ensures
        r.version.source() == version.source(),
        r.tag@ == prefix@ + crate::self_install::version::semver_text(version.source()),
        r.asset@ == asset@,
        r.asset_url@ == mirror_url(base@, r.tag@, asset@),
        r.sums_url@ == mirror_url(base@, r.tag@, sums_file()),
        r.signature_url matches Some(u) && u@ == mirror_url(base@, r.tag@, signature_file()),
        !r.via_api,
{
    proof {
        reveal_strlit("SHA256SUMS");
        reveal_strlit("SHA256SUMS.minisig");
    }
    let mut tag = owned(prefix);
    push_str(&mut tag, version.text());
    let asset_url = mirror_url_exec(base, tag.as_str(), asset);
    let sums_url = mirror_url_exec(base, tag.as_str(), "SHA256SUMS");
    let signature_url = Some(mirror_url_exec(base, tag.as_str(), "SHA256SUMS.minisig"));
    ResolvedRelease {
        version,
        tag,
        asset: owned(asset),
        asset_url,
        sums_url,
        signature_url,
        via_api: false,
    }
}

/// The first thing resolving a channel against a source needs.
#[derive(Debug)]
pub enum ResolveStep {
    /// Fetch the GitHub release at `url` (with the token); hand it to
    /// `resolve_from_tag`.
    FetchTag { url: String },
    /// Fetch the GitHub release list at `url` (with the token); hand it to
    /// `resolve_from_list`.
    FetchList { url: String },
    /// Fetch the mirror's `latest.json` at `url`; hand it to
    /// `resolve_from_latest`.
    FetchLatest { url: String },
    /// Nothing to fetch: a mirror and an exact version.
    Done(ResolvedRelease),
}

/// The URL a source's `latest.json` is served at.
pub open spec fn latest_url(base: Seq<char>) -> Seq<char> {
    strip_trailing(base, '/') + "/latest.json"@
}

/// How resolving starts: a GitHub source fetches the tagged release for an
/// exact version and the release list otherwise; a mirror fetches
/// `latest.json`, except for an exact version, whose URLs it names at once.
pub fn resolve_start(source: &ReleaseSource, tag_prefix: &str, channel: &Channel, asset: &str) -> (r:
    ResolveStep)
    ensures
        match (source, channel) {
            (ReleaseSource::Github { repo, api_base }, Channel::Exact(v)) => r matches ResolveStep::FetchTag {
                url,
            } && url@ == api_base_spec(
                match api_base {
                    Some(a) => Some(a@),
                    None => None,
                },
            ) + "/repos/"@ + repo@ + "/releases/tags/"@ + tag_prefix@
                + crate::self_install::version::semver_text(v.source()),
            (ReleaseSource::Github { repo, api_base }, _) => r matches ResolveStep::FetchList { url }
                && url@ == api_base_spec(
                match api_base {
                    Some(a) => Some(a@),
                    None => None,
                },
            ) + "/repos/"@ + repo@ + "/releases?per_page=100"@,
            (ReleaseSource::Http { base_url }, Channel::Exact(v)) => r matches ResolveStep::Done(
                rr,
            ) && rr.version.source() == v.source() && rr.tag@ == tag_prefix@
                + crate::self_install::version::semver_text(v.source()) && rr.asset@ == asset@
                && rr.asset_url@ == mirror_url(strip_trailing(base_url@, '/'), rr.tag@, asset@)
                && rr.sums_url@ == mirror_url(strip_trailing(base_url@, '/'), rr.tag@, sums_file())
                && (rr.signature_url matches Some(u) && u@ == mirror_url(
                strip_trailing(base_url@, '/'),
                rr.tag@,
                signature_file(),
            )) && !rr.via_api,
            (ReleaseSource::Http { base_url }, _) => r matches ResolveStep::FetchLatest { url }
                && url@ == latest_url(base_url@),
        },
{
    match source {
        ReleaseSource::Github { repo, api_base } => {
            let api = api_base_of(api_base);
            match channel {
                Channel::Exact(v) => ResolveStep::FetchTag {
                    url: release_tag_url(api.as_str(), repo.as_str(), tag_prefix, v),
                },
                _ => ResolveStep::FetchList { url: releases_url(api.as_str(), repo.as_str()) },
            }
        },
        ReleaseSource::Http { base_url } => {
            let base = string_of(strip_trailing_exec(&chars_of(base_url.as_str()), '/').as_slice());
            match channel {
                Channel::Exact(v) => ResolveStep::Done(
                    mirror_release(base.as_str(), tag_prefix, v.copy(), asset),
                ),
                _ => {
                    let mut url = base;
                    push_str(&mut url, "/latest.json");
                    ResolveStep::FetchLatest { url }
                },
            }
        },
    }
}

/// What finishing a fetched GitHub release gives: refused when the tag
/// carries no version after the prefix, else its URLs for that version.
pub open spec fn finish_spec(
    release: GithubRelease,
    tag_prefix: Seq<char>,
    asset: Seq<char>,
    with_token: bool,
    r: Result<ResolvedRelease, ReleaseError>,
) -> bool {
    match tag_version_spec(release.tag_name@, tag_prefix) {
        None => r matches Err(ReleaseError::Invalid(m)) && m@ == "tag "@ + release.tag_name@
            + " does not carry a version after "@ + debug_repr(tag_prefix),
        Some(v) => release_urls_spec(release, v, asset, with_token, r),
    }
}

/// The release a tag names, with its URLs: refused when the tag carries no
/// version after the prefix.
pub fn finish_github(release: &GithubRelease, tag_prefix: &str, asset: &str, with_token: bool) -> (r:
    Result<ResolvedRelease, ReleaseError>)
    ensures
        finish_spec(*release, tag_prefix@, asset@, with_token, r),
{
    match tag_version(release.tag_name.as_str(), tag_prefix) {
        None => {
            let mut m = owned("tag ");
            push_str(&mut m, release.tag_name.as_str());
            push_str(&mut m, " does not carry a version after ");
            let q = debug_quoted(tag_prefix);
            push_str(&mut m, q.as_str());
            Err(ReleaseError::Invalid(m))
        },
        Some(v) => github_release_urls(release, v, asset, with_token),
    }
}

/// The tagged release an exact channel fetched: a 404 means no such
/// release; other failures pass through.
pub fn resolve_from_tag(
    fetched: Result<GithubRelease, ReleaseError>,
    tag_prefix: &str,
    wanted: &SemVer,
    asset: &str,
    with_token: bool,
) -> (r: Result<ResolvedRelease, ReleaseError>)
    ensures
        match fetched {
            Err(ReleaseError::Status { url, status }) => if status == 404 {
                r matches Err(ReleaseError::NotFound { wanted: w, prefix }) && w@
                    == crate::self_install::version::semver_text(wanted.source()) && prefix@
                    == tag_prefix@
            } else {
                r matches Err(ReleaseError::Status { url: u, status: st }) && u == url && st == status
            },
            Err(e) => r == Err::<ResolvedRelease, ReleaseError>(e),
            Ok(rel) => finish_spec(rel, tag_prefix@, asset@, with_token, r),
        },
{
    match fetched {
        Ok(rel) => finish_github(&rel, tag_prefix, asset, with_token),
        Err(ReleaseError::Status { url, status }) => {
            if status == 404 {
                Err(ReleaseError::NotFound { wanted: owned(wanted.text()), prefix: owned(tag_prefix) })
            } else {
                Err(ReleaseError::Status { url, status })
            }
        },
        Err(e) => Err(e),
    }
}

/// The release list a channel fetched: its newest candidate, or no match.
pub fn resolve_from_list(
    all: &Vec<GithubRelease>,
    tag_prefix: &str,
    channel: &Channel,
    asset: &str,
    with_token: bool,
) -> (r: Result<ResolvedRelease, ReleaseError>)
    ensures
        match newest(all@, tag_prefix@, channel_view(*channel), all@.len() as int) {
            None => r matches Err(ReleaseError::NotFound { wanted, prefix }) && wanted@ == wanted_name(
                channel_view(*channel),
            ) && prefix@ == tag_prefix@,
            Some((v, i)) => release_urls_spec(all@[i], v, asset@, with_token, r),
        },
{
    match pick_release(all.as_slice(), tag_prefix, channel) {
        None => {
            let wanted = match channel {
                Channel::Stable => owned("stable"),
                Channel::Latest => owned("latest"),
                Channel::Exact(_) => String::new(),
            };
            proof {
                reveal_strlit("stable");
                reveal_strlit("latest");
            }
            Err(ReleaseError::NotFound { wanted, prefix: owned(tag_prefix) })
        },
        Some((v, i)) => {
            proof {
                lemma_newest_is_candidate(all@, tag_prefix@, channel_view(*channel), all@.len() as int);
            }
            github_release_urls(&all[i], v, asset, with_token)
        },
    }
}

/// The version a mirror's `latest.json` names for the channel: `latest`
/// for the latest channel when present, `version` otherwise.
pub open spec fn latest_raw(latest: LatestJson, ch: Option<Option<Seq<char>>>) -> Seq<char> {
    match (ch, latest.latest) {
        (Some(None), Some(l)) => l@,
        _ => latest.version@,
    }
}

/// The version a mirror's `latest.json` names, read with leading `v`s
/// dropped, or why it is not one.
pub fn version_from_latest(url: &str, latest: &LatestJson, channel: &Channel) -> (r: Result<SemVer, ReleaseError>)
    ensures
        ({
            let raw = latest_raw(*latest, channel_view(*channel));
            let t = strip_leading(raw, 'v');
            match r {
                Ok(v) => semver_parses(t) && v.source() == t,
                Err(ReleaseError::Invalid(m)) => !semver_parses(t) && m@ == url@ + " names "@
                    + debug_repr(raw) + ", which is not a version: "@ + semver_error(t),
                Err(_) => false,
            }
        }),
{
    let raw: &str = match (channel, &latest.latest) {
        (Channel::Latest, Some(l)) => l.as_str(),
        _ => latest.version.as_str(),
    };
    let t = string_of(strip_leading_exec(raw, 'v').as_slice());
    match SemVer::parse(t.as_str()) {
        Ok(v) => Ok(v),
        Err(e) => {
            let mut m = owned(url);
            push_str(&mut m, " names ");
            let q = debug_quoted(raw);
            push_str(&mut m, q.as_str());
            push_str(&mut m, ", which is not a version: ");
            push_str(&mut m, e.as_str());
            Err(ReleaseError::Invalid(m))
        },
    }
}

} // verus!
