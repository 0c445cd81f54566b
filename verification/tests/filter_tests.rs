use repo_zipper::errors::SubmitError;
use repo_zipper::filter::{parse_format, should_include, ArchiveFormat, ExclusionSet};

fn no_custom() -> ExclusionSet {
    ExclusionSet::new(&Vec::new())
}

#[test]
fn excludes_legitimate_entry() {
    let ex = ExclusionSet::new(&vec![String::from("secrets")]);
    assert!(ex.excludes("secrets/key.pem"));
    assert!(ex.excludes(".git/config"));
    assert!(ex.excludes("node_modules/left-pad/index.js"));
    assert!(ex.excludes("target/debug/app"));
}

#[test]
fn excludes_false_positive_substring() {
    // Containment is on the raw string, independent of path segments: a
    // file merely containing the token "target" is excluded too.
    let ex = no_custom();
    assert!(ex.excludes("retargeting.py"));
    assert!(ex.excludes("docs/targets.md"));
}

#[test]
fn does_not_exclude_unrelated_paths() {
    let ex = no_custom();
    assert!(!ex.excludes("src/main.py"));
    assert!(!ex.excludes("README.md"));
}

#[test]
fn custom_entries_extend_baseline() {
    let ex = ExclusionSet::new(&vec![String::from("venv")]);
    assert!(ex.excludes("venv/bin/python"));
    let bare = no_custom();
    assert!(!bare.excludes("venv/bin/python"));
}

#[test]
fn root_itself_is_never_included() {
    let ex = no_custom();
    assert!(!should_include("", false, ArchiveFormat::Repository, &ex));
}

#[test]
fn config_file_is_always_skipped() {
    let ex = no_custom();
    assert!(!should_include("submission.yml", true, ArchiveFormat::Repository, &ex));
    assert!(!should_include("conf/submission.yml", true, ArchiveFormat::Repository, &ex));
}

#[test]
fn repository_format_includes_everything_else() {
    let ex = no_custom();
    assert!(should_include("README.md", true, ArchiveFormat::Repository, &ex));
    assert!(should_include("src", false, ArchiveFormat::Repository, &ex));
    assert!(should_include("src/app.js", true, ArchiveFormat::Repository, &ex));
}

#[test]
fn language_specific_gates_files_by_suffix() {
    let ex = no_custom();
    assert!(should_include("a.py", true, ArchiveFormat::LanguageSpecific, &ex));
    assert!(should_include("requirements.txt", true, ArchiveFormat::LanguageSpecific, &ex));
    assert!(should_include("deep/setup.cfg", true, ArchiveFormat::LanguageSpecific, &ex));
    assert!(should_include("Pipfile", true, ArchiveFormat::LanguageSpecific, &ex));
    assert!(!should_include("README.md", true, ArchiveFormat::LanguageSpecific, &ex));
    assert!(!should_include("a.pyc", true, ArchiveFormat::LanguageSpecific, &ex));
}

#[test]
fn language_specific_keeps_directories() {
    // Directories pass through regardless of the allow-list, so structure
    // survives even where no file inside matches.
    let ex = no_custom();
    assert!(should_include("docs", false, ArchiveFormat::LanguageSpecific, &ex));
    assert!(should_include("docs/images", false, ArchiveFormat::LanguageSpecific, &ex));
}

#[test]
fn parse_format_accepts_exactly_two_names() {
    assert_eq!(parse_format("repo"), Ok(ArchiveFormat::Repository));
    assert_eq!(parse_format("py"), Ok(ArchiveFormat::LanguageSpecific));
    assert!(matches!(parse_format("tarball"), Err(SubmitError::ConfigError(_))));
    assert!(matches!(parse_format(""), Err(SubmitError::ConfigError(_))));
    assert!(matches!(parse_format("REPO"), Err(SubmitError::ConfigError(_))));
}
