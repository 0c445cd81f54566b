//! The exclusion/inclusion filter: decides whether a filesystem entry,
//! given as its path relative to the root being archived, belongs in the
//! archive under a format and an exclusion list.

use vstd::prelude::*;
use vstd::string::StrSliceExecFns;
use vstd::string::StringExecFns;
use crate::errors::SubmitError;
use crate::text::{seq_contains, seq_ends_with, str_contains, str_ends_with, str_eq};

verus! {

/// The archive format: either the whole repository (everything not
/// excluded) or only the files of one ecosystem, matched by a fixed
/// allow-list of suffixes.
#[derive(Clone, Copy, Debug, PartialEq, Eq, Structural)]
pub enum ArchiveFormat {
    Repository,
    LanguageSpecific,
}

/// The two accepted format names. Any other name is invalid, whatever its
/// source — forced flag, configuration file, or server.
pub open spec fn format_of(s: Seq<char>) -> Option<ArchiveFormat> {
    if s == "repo"@ {
        Some(ArchiveFormat::Repository)
    } else if s == "py"@ {
        Some(ArchiveFormat::LanguageSpecific)
    } else {
        None
    }
}

/// Validate a format name against the closed set of accepted values:
/// `repo` selects the whole repository, `py` the Python allow-list, and
/// anything else is a configuration error.
pub fn parse_format(s: &str) -> (r: Result<ArchiveFormat, SubmitError>)
    ensures
        match format_of(s@) {
            Some(f) => r == Ok::<ArchiveFormat, SubmitError>(f),
            None => r matches Err(e) && e is ConfigError,
        },
{
    if str_eq(s, "repo") {
        Ok(ArchiveFormat::Repository)
    } else if str_eq(s, "py") {
        Ok(ArchiveFormat::LanguageSpecific)
    } else {
        let mut msg = String::from_str("unsupported format: ");
        msg.append(s);
        msg.append(". Expected 'repo' or 'py'");
        Err(SubmitError::ConfigError(msg))
    }
}

/// The fixed allow-list of the `LanguageSpecific` format: Python sources
/// and the conventional Python project files.
pub open spec fn lang_suffixes() -> Seq<Seq<char>> {
    seq![
        ".py"@,
        "requirements.txt"@,
        "pyproject.toml"@,
        "setup.py"@,
        "setup.cfg"@,
        "Pipfile"@,
        "Pipfile.lock"@,
        "poetry.lock"@,
    ]
}

/// The path ends with one of the allow-listed suffixes.
pub open spec fn lang_matches(path: Seq<char>) -> bool {
    exists|i: int| 0 <= i < lang_suffixes().len() && seq_ends_with(path, lang_suffixes()[i])
}

/// The baseline exclusions applied to every run: the version-control
/// directory, OS metadata, the build-output and dependency-cache
/// directories, and the archive's own extension.
pub open spec fn baseline_exclusions() -> Seq<Seq<char>> {
    seq![".git"@, ".DS_Store"@, "target"@, "node_modules"@, ".zip"@]
}

/// The name of the tool's own configuration file, which never ships
/// inside the payload.
pub open spec fn config_file_name() -> Seq<char> {
    "submission.yml"@
}

/// The path contains some member of the exclusion list as a substring.
pub open spec fn path_excluded(path: Seq<char>, exclusions: Seq<Seq<char>>) -> bool {
    exists|i: int| 0 <= i < exclusions.len() && seq_contains(path, exclusions[i])
}

/// A path is excluded exactly when some member of the exclusion list
/// occurs in its string form as a substring — a deliberately permissive
/// containment test, independent of path-segment boundaries.
pub proof fn lemma_exclusion_is_substring_containment(path: Seq<char>, exclusions: Seq<Seq<char>>)
    ensures
        path_excluded(path, exclusions) <==> exists|i: int|
            0 <= i < exclusions.len() && seq_contains(path, exclusions[i]),
{
}

/// The filter's verdict on one entry. An entry belongs in the archive
/// when no exclusion member occurs in its relative path, the path does
/// not name the tool's configuration file, the path is not the root
/// itself (the empty relative path), and — for a regular file under the
/// `LanguageSpecific` format — the path ends with an allow-listed suffix.
/// Directories pass through regardless of format, so intermediate
/// directories are preserved as structure.
pub open spec fn entry_included(
    path: Seq<char>,
    is_file: bool,
    format: ArchiveFormat,
    exclusions: Seq<Seq<char>>,
) -> bool {
    &&& !path_excluded(path, exclusions)
    &&& !seq_ends_with(path, config_file_name())
    &&& path.len() > 0
    &&& (format == ArchiveFormat::LanguageSpecific && is_file ==> lang_matches(path))
}

/// Under the `Repository` format the filter never consults the
/// allow-list: an entry is included exactly when it is not excluded, is
/// not the configuration file, and is not the root itself.
pub proof fn lemma_repository_includes_everything_not_excluded(
    path: Seq<char>,
    is_file: bool,
    exclusions: Seq<Seq<char>>,
)
    ensures
        entry_included(path, is_file, ArchiveFormat::Repository, exclusions) <==> {
            &&& !path_excluded(path, exclusions)
            &&& !seq_ends_with(path, config_file_name())
            &&& path.len() > 0
        },
{
}

/// The ordered list of substrings that drop entries from the archive:
/// the fixed baseline followed by the user-supplied entries.
pub struct ExclusionSet {
    items: Vec<String>,
}

impl View for ExclusionSet {
    type V = Seq<Seq<char>>;

    closed spec fn view(&self) -> Seq<Seq<char>> {
        self.items@.map_values(|s: String| s@)
    }
}

impl ExclusionSet {
    /// Build the exclusion list for a run: the baseline, then the
    /// user-supplied entries in their order.
    pub fn new(custom: &Vec<String>) -> (s: Self)
        ensures
            s@ == baseline_exclusions() + custom@.map_values(|c: String| c@),
    {
        let mut items: Vec<String> = Vec::new();
        items.push(String::from_str(".git"));
        items.push(String::from_str(".DS_Store"));
        items.push(String::from_str("target"));
        items.push(String::from_str("node_modules"));
        items.push(String::from_str(".zip"));
        let mut i: usize = 0;
        while i < custom.len()
            invariant
                i <= custom.len(),
                items@.len() == 5 + i,
                items@.map_values(|s: String| s@) =~= baseline_exclusions() + custom@.subrange(
                    0,
                    i as int,
                ).map_values(|c: String| c@),
            decreases custom.len() - i,
        {
            let ghost prev = items@;
            items.push(custom[i].clone());
            assert(items@.map_values(|s: String| s@) =~= prev.map_values(|s: String| s@).push(
                custom@[i as int]@,
            ));
            assert(custom@.subrange(0, i + 1).map_values(|c: String| c@) =~= custom@.subrange(
                0,
                i as int,
            ).map_values(|c: String| c@).push(custom@[i as int]@));
            i = i + 1;
        }
        assert(custom@.subrange(0, custom@.len() as int) =~= custom@);
        let s = ExclusionSet { items };
        assert(s@ =~= baseline_exclusions() + custom@.map_values(|c: String| c@));
        s
    }

    /// The exclusion test: does some member occur in the path as a
    /// substring?
    pub fn excludes(&self, path: &str) -> (r: bool)
        ensures
            r == path_excluded(path@, self@),
    {
        let mut i: usize = 0;
        while i < self.items.len()
            invariant
                i <= self.items.len(),
                forall|j: int| 0 <= j < i ==> !seq_contains(path@, self@[j]),
            decreases self.items.len() - i,
        {
            if str_contains(path, self.items[i].as_str()) {
                assert(seq_contains(path@, self@[i as int]));
                return true;
            }
            i = i + 1;
        }
        false
    }
}

/// Does the path end with one of the `LanguageSpecific` allow-list
/// suffixes?
pub fn matches_lang_suffix(path: &str) -> (r: bool)
    ensures
        r == lang_matches(path@),
{
    if str_ends_with(path, ".py") {
        assert(seq_ends_with(path@, lang_suffixes()[0]));
        return true;
    }
    if str_ends_with(path, "requirements.txt") {
        assert(seq_ends_with(path@, lang_suffixes()[1]));
        return true;
    }
    if str_ends_with(path, "pyproject.toml") {
        assert(seq_ends_with(path@, lang_suffixes()[2]));
        return true;
    }
    if str_ends_with(path, "setup.py") {
        assert(seq_ends_with(path@, lang_suffixes()[3]));
        return true;
    }
    if str_ends_with(path, "setup.cfg") {
        assert(seq_ends_with(path@, lang_suffixes()[4]));
        return true;
    }
    if str_ends_with(path, "Pipfile") {
        assert(seq_ends_with(path@, lang_suffixes()[5]));
        return true;
    }
    if str_ends_with(path, "Pipfile.lock") {
        assert(seq_ends_with(path@, lang_suffixes()[6]));
        return true;
    }
    if str_ends_with(path, "poetry.lock") {
        assert(seq_ends_with(path@, lang_suffixes()[7]));
        return true;
    }
    assert(forall|i: int| 0 <= i < lang_suffixes().len() ==> !seq_ends_with(
        path@,
        lang_suffixes()[i],
    )) by {
        assert(lang_suffixes()[0] == ".py"@);
        assert(lang_suffixes()[1] == "requirements.txt"@);
        assert(lang_suffixes()[2] == "pyproject.toml"@);
        assert(lang_suffixes()[3] == "setup.py"@);
        assert(lang_suffixes()[4] == "setup.cfg"@);
        assert(lang_suffixes()[5] == "Pipfile"@);
        assert(lang_suffixes()[6] == "Pipfile.lock"@);
        assert(lang_suffixes()[7] == "poetry.lock"@);
    }
    false
}

/// The filter: apply `entry_included` to one candidate entry.
pub fn should_include(
    path: &str,
    is_file: bool,
    format: ArchiveFormat,
    exclusions: &ExclusionSet,
) -> (r: bool)
    ensures
        r == entry_included(path@, is_file, format, exclusions@),
{
    if exclusions.excludes(path) {
        return false;
    }
    if str_ends_with(path, "submission.yml") {
        return false;
    }
    if path.unicode_len() == 0 {
        return false;
    }
    if matches!(format, ArchiveFormat::LanguageSpecific) && is_file {
        return matches_lang_suffix(path);
    }
    true
}

} // verus!
