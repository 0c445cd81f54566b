//! The self-update decisions: reading a release feed's answer, comparing
//! versions, choosing the installation artifact for the host platform,
//! and dispatching on how an artifact installs. Downloading and running
//! anything happens outside the library.

use vstd::prelude::*;
use vstd::string::StrSliceExecFns;
use vstd::string::StringExecFns;
use crate::errors::SubmitError;
use crate::http::{http_success, is_http_success};
use crate::text::{seq_contains, seq_ends_with, str_contains, str_ends_with};

verus! {

/// A release as the feed reports it: its tag and its downloadable assets.
pub struct ReleaseInfo {
    pub tag_name: String,
    pub assets: Vec<AssetInfo>,
}

/// One downloadable asset of a release.
pub struct AssetInfo {
    pub name: String,
    pub download_url: String,
}

/// A version, modelled by its numeric components and its pre-release
/// text (empty when the version is a release).
#[derive(Debug, PartialEq, Eq)]
pub struct VersionParts {
    pub major: u64,
    pub minor: u64,
    pub patch: u64,
    pub pre: String,
}

/// What an update run should do next: a newer version with the asset to
/// fetch, or nothing.
#[derive(Debug, PartialEq, Eq)]
pub struct UpdatePlan {
    pub version: VersionParts,
    pub download_url: String,
}

/// What semver parsing yields on a given text: the numeric components
/// and the pre-release text, or nothing where the text is not a version.
pub uninterp spec fn semver_parts_of(s: Seq<char>) -> Option<(u64, u64, u64, Seq<char>)>;

/// Relies on semver::Version::parse: the components of a version depend
/// on the parsed text alone.
#[verifier::external_body]
fn parse_version(s: &str) -> (r: Option<VersionParts>)
    ensures
        r matches Some(v) ==> semver_parts_of(s@) == Some((v.major, v.minor, v.patch, v.pre@)),
        r is None ==> semver_parts_of(s@) is None,
{
    match semver::Version::parse(s) {
        Ok(v) => Some(
            VersionParts {
                major: v.major,
                minor: v.minor,
                patch: v.patch,
                pre: v.pre.as_str().to_owned(),
            },
        ),
        Err(_) => None,
    }
}

/// Whether the first pre-release text precedes the second in semver
/// precedence — the result of semver's ordering, a function of the two
/// texts alone. The empty text stands for a release, which follows every
/// pre-release.
pub uninterp spec fn pre_release_precedes(a: Seq<char>, b: Seq<char>) -> bool;

/// Relies on semver::Prerelease::new and its Ord: precedence depends on
/// the two texts alone; equal texts do not precede each other; the empty
/// text follows every pre-release and precedes nothing. Texts that
/// semver::Version::parse produced always re-parse; any other text is
/// ordered by emptiness alone, which keeps the stated clauses.
#[verifier::external_body]
fn pre_precedes(a: &str, b: &str) -> (r: bool)
    ensures
        r == pre_release_precedes(a@, b@),
        a@ == b@ ==> !r,
        a@.len() > 0 && b@.len() == 0 ==> r,
        a@.len() == 0 ==> !r,
{
    match (semver::Prerelease::new(a), semver::Prerelease::new(b)) {
        (Ok(x), Ok(y)) => x < y,
        _ => !a.is_empty() && b.is_empty(),
    }
}

/// `a` is strictly newer than `b`: later by the numeric components, or —
/// at the same numeric version — later by semver's pre-release
/// precedence, under which a release follows every pre-release.
pub open spec fn parts_newer(a: (u64, u64, u64, Seq<char>), b: (u64, u64, u64, Seq<char>)) -> bool {
    ||| a.0 > b.0
    ||| (a.0 == b.0 && a.1 > b.1)
    ||| (a.0 == b.0 && a.1 == b.1 && a.2 > b.2)
    ||| (a.0 == b.0 && a.1 == b.1 && a.2 == b.2 && pre_release_precedes(b.3, a.3))
}

/// `parts_newer` over the executable representation.
pub open spec fn version_newer(a: VersionParts, b: VersionParts) -> bool {
    parts_newer((a.major, a.minor, a.patch, a.pre@), (b.major, b.minor, b.patch, b.pre@))
}

/// Is `a` strictly newer than `b`?
pub fn is_newer(a: &VersionParts, b: &VersionParts) -> (r: bool)
    ensures
        r == version_newer(*a, *b),
{
    if a.major != b.major {
        return a.major > b.major;
    }
    if a.minor != b.minor {
        return a.minor > b.minor;
    }
    if a.patch != b.patch {
        return a.patch > b.patch;
    }
    pre_precedes(b.pre.as_str(), a.pre.as_str())
}

/// The text with every leading occurrence of `c` removed.
pub open spec fn strip_leading_all(s: Seq<char>, c: char) -> Seq<char>
    decreases s.len(),
{
    if s.len() > 0 && s[0] == c {
        strip_leading_all(s.skip(1), c)
    } else {
        s
    }
}

/// Remove every leading `v` from a release tag, as tags conventionally
/// carry one.
pub fn strip_leading_v(s: &str) -> (r: &str)
    ensures
        r@ == strip_leading_all(s@, 'v'),
{
    let mut t: &str = s;
    loop
        invariant
            strip_leading_all(t@, 'v') == strip_leading_all(s@, 'v'),
        decreases t@.len(),
    {
        let len: usize = t.unicode_len();
        if len == 0 || t.get_char(0) != 'v' {
            return t;
        }
        let next = t.substring_char(1, len);
        assert(next@ =~= t@.skip(1));
        t = next;
    }
}

/// The host platform, as far as installer dispatch cares.
#[derive(Clone, Copy, Debug, PartialEq, Eq, Structural)]
pub enum Platform {
    Windows,
    Unix,
    Other,
}

/// How suitable an asset name is for a platform: `Some(tier)` with lower
/// tiers preferred, `None` where the asset does not fit the platform.
/// Windows prefers executable installers, then batch files, then
/// PowerShell scripts, then an archive; Unix prefers a direct-install
/// asset, then shell scripts, then an archive; other platforms accept
/// anything that looks like an installer.
pub open spec fn asset_tier(platform: Platform, name: Seq<char>) -> Option<int> {
    match platform {
        Platform::Windows => {
            if seq_ends_with(name, ".exe"@) || seq_ends_with(name, ".msi"@) {
                Some(0int)
            } else if seq_ends_with(name, ".bat"@) || seq_ends_with(name, ".cmd"@) {
                Some(1int)
            } else if seq_ends_with(name, ".ps1"@) {
                Some(2int)
            } else if seq_ends_with(name, ".zip"@) {
                Some(3int)
            } else {
                None
            }
        },
        Platform::Unix => {
            if seq_contains(name, "direct-install"@) {
                Some(0int)
            } else if seq_ends_with(name, ".sh"@) {
                Some(1int)
            } else if seq_ends_with(name, ".bash"@) || seq_ends_with(name, ".zsh"@) {
                Some(2int)
            } else if seq_ends_with(name, ".tar.gz"@) || seq_ends_with(name, ".tgz"@) {
                Some(3int)
            } else {
                None
            }
        },
        Platform::Other => {
            if seq_contains(name, "install"@) || seq_contains(name, "setup"@) {
                Some(0int)
            } else {
                None
            }
        },
    }
}

/// Executable form of `asset_tier`.
fn asset_tier_of(platform: Platform, name: &str) -> (r: Option<u8>)
    ensures
        match r {
            Some(t) => asset_tier(platform, name@) == Some(t as int),
            None => asset_tier(platform, name@) is None,
        },
{
    match platform {
        Platform::Windows => {
            if str_ends_with(name, ".exe") || str_ends_with(name, ".msi") {
                Some(0)
            } else if str_ends_with(name, ".bat") || str_ends_with(name, ".cmd") {
                Some(1)
            } else if str_ends_with(name, ".ps1") {
                Some(2)
            } else if str_ends_with(name, ".zip") {
                Some(3)
            } else {
                None
            }
        },
        Platform::Unix => {
            if str_contains(name, "direct-install") {
                Some(0)
            } else if str_ends_with(name, ".sh") {
                Some(1)
            } else if str_ends_with(name, ".bash") || str_ends_with(name, ".zsh") {
                Some(2)
            } else if str_ends_with(name, ".tar.gz") || str_ends_with(name, ".tgz") {
                Some(3)
            } else {
                None
            }
        },
        Platform::Other => {
            if str_contains(name, "install") || str_contains(name, "setup") {
                Some(0)
            } else {
                None
            }
        },
    }
}

/// Choose the installation asset for the platform: the first name of the
/// most preferred tier that any name reaches, or none where no name fits.
pub fn select_asset(platform: Platform, assets: &Vec<AssetInfo>) -> (r: Option<usize>)
    ensures
        r is None ==> forall|j: int| 0 <= j < assets@.len() ==> asset_tier(
            platform,
            assets@[j].name@,
        ) is None,
        r matches Some(i) ==> {
            &&& i < assets@.len()
            &&& asset_tier(platform, assets@[i as int].name@) is Some
            &&& forall|j: int|
                0 <= j < assets@.len() && asset_tier(platform, assets@[j].name@) is Some ==> asset_tier(
                    platform,
                    assets@[j].name@,
                )->0 >= asset_tier(platform, assets@[i as int].name@)->0
            &&& forall|j: int|
                0 <= j < i ==> asset_tier(platform, assets@[j].name@) != asset_tier(
                    platform,
                    assets@[i as int].name@,
                )
        },
{
    let mut best: Option<(usize, u8)> = None;
    let mut k: usize = 0;
    while k < assets.len()
        invariant
            k <= assets@.len(),
            best is None ==> forall|j: int| 0 <= j < k ==> asset_tier(platform, assets@[j].name@) is None,
            best matches Some((i, t)) ==> {
                &&& i < k
                &&& asset_tier(platform, assets@[i as int].name@) == Some(t as int)
                &&& forall|j: int|
                    0 <= j < k && asset_tier(platform, assets@[j].name@) is Some ==> asset_tier(
                        platform,
                        assets@[j].name@,
                    )->0 >= t as int
                &&& forall|j: int|
                    0 <= j < i ==> asset_tier(platform, assets@[j].name@) != Some(t as int)
            },
        decreases assets@.len() - k,
    {
        let tier = asset_tier_of(platform, assets[k].name.as_str());
        match (tier, best) {
            (Some(t), None) => {
                best = Some((k, t));
            },
            (Some(t), Some((_, bt))) => {
                if t < bt {
                    best = Some((k, t));
                }
            },
            (None, _) => {},
        }
        k = k + 1;
    }
    match best {
        Some((i, _)) => Some(i),
        None => None,
    }
}

/// Which tool runs an installer artifact.
#[derive(Clone, Copy, Debug, PartialEq, Eq, Structural)]
pub enum Tool {
    Bash,
    Zsh,
    Cmd,
    Msiexec,
    Powershell,
}

/// How a downloaded artifact installs: run it directly, run it through a
/// tool, extract it by hand, or follow the documentation.
#[derive(Clone, Copy, Debug, PartialEq, Eq, Structural)]
pub enum InstallerAction {
    RunDirect,
    RunWith(Tool),
    ManualExtract,
    ManualInstall,
}

/// The installer dispatch, keyed by host platform and file extension.
pub open spec fn installer_action_for(platform: Platform, filename: Seq<char>) -> InstallerAction {
    match platform {
        Platform::Unix => {
            if seq_ends_with(filename, ".sh"@) {
                InstallerAction::RunDirect
            } else if seq_ends_with(filename, ".bash"@) {
                InstallerAction::RunWith(Tool::Bash)
            } else if seq_ends_with(filename, ".zsh"@) {
                InstallerAction::RunWith(Tool::Zsh)
            } else if seq_ends_with(filename, ".zip"@) || seq_ends_with(filename, ".tar.gz"@)
                || seq_ends_with(filename, ".tgz"@) {
                InstallerAction::ManualExtract
            } else {
                InstallerAction::ManualInstall
            }
        },
        Platform::Windows => {
            if seq_ends_with(filename, ".exe"@) {
                InstallerAction::RunDirect
            } else if seq_ends_with(filename, ".msi"@) {
                InstallerAction::RunWith(Tool::Msiexec)
            } else if seq_ends_with(filename, ".bat"@) || seq_ends_with(filename, ".cmd"@) {
                InstallerAction::RunWith(Tool::Cmd)
            } else if seq_ends_with(filename, ".ps1"@) {
                InstallerAction::RunWith(Tool::Powershell)
            } else if seq_ends_with(filename, ".zip"@) {
                InstallerAction::ManualExtract
            } else {
                InstallerAction::ManualInstall
            }
        },
        Platform::Other => InstallerAction::ManualInstall,
    }
}

/// Decide how the downloaded artifact installs on this platform.
pub fn installer_action(platform: Platform, filename: &str) -> (r: InstallerAction)
    ensures
        r == installer_action_for(platform, filename@),
{
    match platform {
        Platform::Unix => {
            if str_ends_with(filename, ".sh") {
                InstallerAction::RunDirect
            } else if str_ends_with(filename, ".bash") {
                InstallerAction::RunWith(Tool::Bash)
            } else if str_ends_with(filename, ".zsh") {
                InstallerAction::RunWith(Tool::Zsh)
            } else if str_ends_with(filename, ".zip") || str_ends_with(filename, ".tar.gz")
                || str_ends_with(filename, ".tgz") {
                InstallerAction::ManualExtract
            } else {
                InstallerAction::ManualInstall
            }
        },
        Platform::Windows => {
            if str_ends_with(filename, ".exe") {
                InstallerAction::RunDirect
            } else if str_ends_with(filename, ".msi") {
                InstallerAction::RunWith(Tool::Msiexec)
            } else if str_ends_with(filename, ".bat") || str_ends_with(filename, ".cmd") {
                InstallerAction::RunWith(Tool::Cmd)
            } else if str_ends_with(filename, ".ps1") {
                InstallerAction::RunWith(Tool::Powershell)
            } else if str_ends_with(filename, ".zip") {
                InstallerAction::ManualExtract
            } else {
                InstallerAction::ManualInstall
            }
        },
        Platform::Other => InstallerAction::ManualInstall,
    }
}

/// The text with every trailing occurrence of the suffix removed.
pub open spec fn trim_suffix_all(s: Seq<char>, suffix: Seq<char>) -> Seq<char>
    decreases s.len(),
{
    if suffix.len() > 0 && seq_ends_with(s, suffix) {
        trim_suffix_all(s.take(s.len() - suffix.len()), suffix)
    } else {
        s
    }
}

/// The text with every trailing occurrence of `c` removed.
pub open spec fn trim_char_all(s: Seq<char>, c: char) -> Seq<char>
    decreases s.len(),
{
    if s.len() > 0 && s.last() == c {
        trim_char_all(s.drop_last(), c)
    } else {
        s
    }
}

/// Remove every trailing occurrence of the suffix.
fn trim_suffix_end<'a>(s: &'a str, suffix: &str) -> (r: &'a str)
    requires
        suffix@.len() > 0,
    ensures
        r@ == trim_suffix_all(s@, suffix@),
{
    let sl: usize = suffix.unicode_len();
    let mut t: &str = s;
    loop
        invariant
            sl == suffix@.len() > 0,
            trim_suffix_all(t@, suffix@) == trim_suffix_all(s@, suffix@),
        decreases t@.len(),
    {
        if !str_ends_with(t, suffix) {
            return t;
        }
        let len: usize = t.unicode_len();
        let next = t.substring_char(0, len - sl);
        assert(next@ =~= t@.take(t@.len() - suffix@.len()));
        t = next;
    }
}

/// Remove every trailing occurrence of `c`.
fn trim_char_end<'a>(s: &'a str, c: char) -> (r: &'a str)
    ensures
        r@ == trim_char_all(s@, c),
{
    let mut t: &str = s;
    loop
        invariant
            trim_char_all(t@, c) == trim_char_all(s@, c),
        decreases t@.len(),
    {
        let len: usize = t.unicode_len();
        if len == 0 || t.get_char(len - 1) != c {
            return t;
        }
        let next = t.substring_char(0, len - 1);
        assert(next@ =~= t@.drop_last());
        t = next;
    }
}

/// The part of a download URL after its last slash — the file it names —
/// or the whole URL where it has no slash.
pub fn filename_from_url(url: &str) -> (f: String)
    ensures
        f@ == (match crate::text::spec_last_index(url@, '/') {
            Some(i) => url@.subrange(i + 1, url@.len() as int),
            None => url@,
        }),
{
    match crate::text::last_index_of(url, '/') {
        Some(i) => {
            proof {
                crate::text::lemma_last_index_at(url@, '/', i as int);
            }
            let len: usize = url.unicode_len();
            url.substring_char(i + 1, len).to_owned()
        },
        None => {
            proof {
                crate::text::lemma_last_index_none(url@, '/');
            }
            url.to_owned()
        },
    }
}

/// The text a repository slug is read from: the repository URL with any
/// trailing `.git` suffixes and trailing slashes removed.
pub open spec fn repo_slug_source(url: Seq<char>) -> Seq<char> {
    trim_char_all(trim_suffix_all(url, ".git"@), '/')
}

/// Read the owner and repository name out of a repository URL: the last
/// two slash-separated components after trimming a trailing `.git` and
/// trailing slashes. A URL without a slash is a configuration error.
pub fn parse_repo_slug(url: &str) -> (r: Result<(String, String), SubmitError>)
    ensures
        crate::text::spec_last_index(repo_slug_source(url@), '/') is None ==> (r matches Err(e)
            && e is ConfigError),
        crate::text::spec_last_index(repo_slug_source(url@), '/') matches Some(j) ==> (r matches Ok(
            pair,
        ) && pair.1@ == repo_slug_source(url@).subrange(
            j + 1,
            repo_slug_source(url@).len() as int,
        ) && pair.0@ == (match crate::text::spec_last_index(
            repo_slug_source(url@).take(j),
            '/',
        ) {
            Some(i) => repo_slug_source(url@).subrange(i + 1, j),
            None => repo_slug_source(url@).take(j),
        })),
{
    proof {
        reveal_strlit(".git");
    }
    let trimmed = trim_suffix_end(url, ".git");
    let t = trim_char_end(trimmed, '/');
    match crate::text::last_index_of(t, '/') {
        None => {
            proof {
                crate::text::lemma_last_index_none(t@, '/');
            }
            Err(
                SubmitError::ConfigError(
                    String::from_str("invalid repository URL format"),
                ),
            )
        },
        Some(j) => {
            proof {
                crate::text::lemma_last_index_at(t@, '/', j as int);
            }
            let len: usize = t.unicode_len();
            let repo = t.substring_char(j + 1, len).to_owned();
            let head = t.substring_char(0, j);
            let owner = match crate::text::last_index_of(head, '/') {
                Some(i) => {
                    proof {
                        crate::text::lemma_last_index_at(head@, '/', i as int);
                    }
                    let hlen: usize = head.unicode_len();
                    head.substring_char(i + 1, hlen).to_owned()
                },
                None => {
                    proof {
                        crate::text::lemma_last_index_none(head@, '/');
                    }
                    head.to_owned()
                },
            };
            assert(head@ =~= t@.take(j as int));
            Ok((owner, repo))
        },
    }
}

/// The version a release tag names, once a conventional leading `v` is
/// stripped.
pub open spec fn release_tag_parts(tag: Seq<char>) -> Option<(u64, u64, u64, Seq<char>)> {
    semver_parts_of(strip_leading_all(tag, 'v'))
}

/// Read the release feed's answer into an update plan. A not-found status
/// means the project has no releases: nothing to do. Any other
/// non-success status is a rejection. A readable release is compared with
/// the current version after stripping a leading `v` from its tag; an
/// installation asset for the platform must exist either way; the plan
/// carries the newer version and the chosen asset's URL, or nothing when
/// the current version is already the latest.
pub fn evaluate_release(
    current: &str,
    status: u16,
    body: String,
    release: Option<ReleaseInfo>,
    platform: Platform,
) -> (r: Result<Option<UpdatePlan>, SubmitError>)
    ensures
        status == 404 ==> r == Ok::<Option<UpdatePlan>, SubmitError>(None),
        status != 404 && !http_success(status) ==> r == Err::<Option<UpdatePlan>, SubmitError>(
            SubmitError::ServerRejected { status, body },
        ),
        status != 404 && http_success(status) && release is None ==> (r matches Err(e)
            && e is ProtocolError),
        release matches Some(rel) ==> status != 404 ==> http_success(status) ==> {
            let tag_parts = release_tag_parts(rel.tag_name@);
            let cur_parts = semver_parts_of(current@);
            if tag_parts is None {
                r matches Err(e) && e is ProtocolError
            } else if cur_parts is None {
                r matches Err(e) && e is ConfigError
            } else if forall|j: int|
                0 <= j < rel.assets@.len() ==> asset_tier(platform, rel.assets@[j].name@) is None {
                r matches Err(e) && e is ConfigError
            } else if parts_newer(tag_parts->0, cur_parts->0) {
                r matches Ok(plan_opt) && plan_opt matches Some(plan) && Some(
                    (plan.version.major, plan.version.minor, plan.version.patch, plan.version.pre@),
                ) == tag_parts && exists|i: int|
                    0 <= i < rel.assets@.len() && asset_tier(platform, rel.assets@[i].name@) is Some
                        && (forall|j: int|
                        0 <= j < rel.assets@.len() && asset_tier(platform, rel.assets@[j].name@) is Some
                            ==> asset_tier(platform, rel.assets@[j].name@)->0 >= asset_tier(
                            platform,
                            rel.assets@[i].name@,
                        )->0) && (forall|j: int|
                        0 <= j < i ==> asset_tier(platform, rel.assets@[j].name@) != asset_tier(
                            platform,
                            rel.assets@[i].name@,
                        )) && plan.download_url == rel.assets@[i].download_url
            } else {
                r == Ok::<Option<UpdatePlan>, SubmitError>(None)
            }
        },
{
    if status == 404 {
        return Ok(None);
    }
    if !is_http_success(status) {
        return Err(SubmitError::ServerRejected { status, body });
    }
    let rel = match release {
        Some(rel) => rel,
        None => {
            return Err(
                SubmitError::ProtocolError(
                    String::from_str(
                        "release feed response could not be read",
                    ),
                ),
            );
        },
    };
    let tag = strip_leading_v(rel.tag_name.as_str());
    let latest = match parse_version(tag) {
        Some(v) => v,
        None => {
            return Err(
                SubmitError::ProtocolError(
                    String::from_str("release tag does not name a version"),
                ),
            );
        },
    };
    let cur = match parse_version(current) {
        Some(v) => v,
        None => {
            return Err(
                SubmitError::ConfigError(
                    String::from_str(
                        "current version does not name a version",
                    ),
                ),
            );
        },
    };
    let chosen = match select_asset(platform, &rel.assets) {
        Some(i) => i,
        None => {
            return Err(
                SubmitError::ConfigError(
                    String::from_str(
                        "no suitable installation file found for this platform in the latest release",
                    ),
                ),
            );
        },
    };
    if is_newer(&latest, &cur) {
        let download_url = rel.assets[chosen].download_url.clone();
        Ok(Some(UpdatePlan { version: latest, download_url }))
    } else {
        Ok(None)
    }
}

} // verus!
