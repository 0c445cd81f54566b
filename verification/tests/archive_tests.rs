use std::io::Read;

use repo_zipper::archive::{build_archive, FsEntry};
use repo_zipper::filter::{ArchiveFormat, ExclusionSet};

fn file(path: &str, data: &[u8]) -> FsEntry {
    FsEntry { path: String::from(path), is_file: true, data: data.to_vec() }
}

fn dir(path: &str) -> FsEntry {
    FsEntry { path: String::from(path), is_file: false, data: Vec::new() }
}

/// Read an archive back as (name, is_file, contents) triples, in order.
fn read_back(bytes: Vec<u8>) -> Vec<(String, bool, Vec<u8>)> {
    let mut archive = zip::ZipArchive::new(std::io::Cursor::new(bytes)).expect("readable archive");
    let mut out = Vec::new();
    for i in 0..archive.len() {
        let mut entry = archive.by_index(i).expect("entry");
        let mut data = Vec::new();
        entry.read_to_end(&mut data).expect("entry contents");
        out.push((entry.name().to_string(), entry.is_file(), data));
    }
    out
}

#[test]
fn round_trip_preserves_contents_byte_for_byte() {
    let entries = vec![
        file("a.py", b"print('hello')\n"),
        dir("pkg"),
        file("pkg/mod.py", &[0u8, 1, 2, 255, 254, 0, 7]),
        file("README.md", b"# readme\n"),
    ];
    let ex = ExclusionSet::new(&Vec::new());
    let bytes = build_archive(&entries, ArchiveFormat::Repository, &ex, 6).expect("archive");
    let got = read_back(bytes);
    assert_eq!(got.len(), 4);
    assert_eq!(got[0], (String::from("a.py"), true, b"print('hello')\n".to_vec()));
    assert_eq!(got[1], (String::from("pkg/"), false, Vec::new()));
    assert_eq!(got[2], (String::from("pkg/mod.py"), true, vec![0u8, 1, 2, 255, 254, 0, 7]));
    assert_eq!(got[3], (String::from("README.md"), true, b"# readme\n".to_vec()));
}

#[test]
fn stored_level_zero_round_trips_too() {
    let entries = vec![file("data.bin", &[9u8; 1000])];
    let ex = ExclusionSet::new(&Vec::new());
    let bytes = build_archive(&entries, ArchiveFormat::Repository, &ex, 0).expect("archive");
    let got = read_back(bytes);
    assert_eq!(got, vec![(String::from("data.bin"), true, vec![9u8; 1000])]);
}

#[test]
fn concrete_language_specific_scenario() {
    // Root holding a.py, README.md, .git/config and submission.yml, with
    // the user excluding ".git", under the Python format: the archive
    // holds exactly a.py.
    let entries = vec![
        file("a.py", b"x = 1\n"),
        file("README.md", b"readme"),
        dir(".git"),
        file(".git/config", b"[core]"),
        file("submission.yml", b"api_key: k"),
    ];
    let ex = ExclusionSet::new(&vec![String::from(".git")]);
    let bytes = build_archive(&entries, ArchiveFormat::LanguageSpecific, &ex, 6).expect("archive");
    let got = read_back(bytes);
    assert_eq!(got, vec![(String::from("a.py"), true, b"x = 1\n".to_vec())]);
}

#[test]
fn language_specific_keeps_empty_directories() {
    let entries = vec![dir("docs"), file("docs/guide.md", b"text"), file("main.py", b"pass\n")];
    let ex = ExclusionSet::new(&Vec::new());
    let bytes = build_archive(&entries, ArchiveFormat::LanguageSpecific, &ex, 6).expect("archive");
    let got = read_back(bytes);
    let names: Vec<&str> = got.iter().map(|e| e.0.as_str()).collect();
    assert_eq!(names, vec!["docs/", "main.py"]);
    assert!(got.iter().all(|e| !e.1 || e.0.ends_with(".py")));
}

#[test]
fn repository_format_takes_all_files_minus_baseline_and_config() {
    let entries = vec![
        file("src/app.js", b"js"),
        file("notes.txt", b"n"),
        file(".git/HEAD", b"ref"),
        file("node_modules/x/index.js", b"m"),
        file("target/out.bin", b"t"),
        file(".DS_Store", b"ds"),
        file("bundle.zip", b"zz"),
        file("submission.yml", b"api_key: k"),
    ];
    let ex = ExclusionSet::new(&Vec::new());
    let bytes = build_archive(&entries, ArchiveFormat::Repository, &ex, 6).expect("archive");
    let got = read_back(bytes);
    let names: Vec<&str> = got.iter().map(|e| e.0.as_str()).collect();
    assert_eq!(names, vec!["src/app.js", "notes.txt"]);
}

#[test]
fn compression_levels_give_same_contents() {
    let entries = vec![file("text.txt", b"abcabcabcabcabcabcabcabc")];
    let ex = ExclusionSet::new(&Vec::new());
    for level in 0..=9u8 {
        let bytes = build_archive(&entries, ArchiveFormat::Repository, &ex, level)
            .unwrap_or_else(|_| panic!("archive at level {level}"));
        let got = read_back(bytes);
        assert_eq!(got, vec![(String::from("text.txt"), true, b"abcabcabcabcabcabcabcabc".to_vec())]);
    }
}

#[test]
fn duplicate_entry_names_fail_with_an_io_error() {
    let entries = vec![file("a.py", b"one"), file("a.py", b"two")];
    let ex = ExclusionSet::new(&Vec::new());
    let r = build_archive(&entries, ArchiveFormat::Repository, &ex, 6);
    assert!(matches!(r, Err(repo_zipper::errors::SubmitError::IoError(_))));
}

#[test]
fn empty_plan_gives_empty_archive() {
    let entries = vec![file(".git/config", b"c")];
    let ex = ExclusionSet::new(&Vec::new());
    let bytes = build_archive(&entries, ArchiveFormat::Repository, &ex, 6).expect("archive");
    assert_eq!(read_back(bytes), Vec::new());
}
