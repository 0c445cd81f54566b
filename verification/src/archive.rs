//! The archive builder: turns the filtered entries of a directory tree
//! into a single compressed archive, held in memory as bytes.
//!
//! The zip container itself is written by the `zip` crate behind trusted
//! wrappers; everything decided here — which entries go in, under which
//! names, with which contents — is verified against `archive_plan`.

use vstd::prelude::*;
use vstd::string::StrSliceExecFns;
use vstd::string::StringExecFns;
use crate::errors::SubmitError;
use crate::filter::{entry_included, should_include, ArchiveFormat, ExclusionSet};
use zip::write::SimpleFileOptions;

verus! {

/// One filesystem entry handed to the builder: its path relative to the
/// root being archived, whether it is a regular file, and — for a regular
/// file — its full contents.
pub struct FsEntry {
    pub path: String,
    pub is_file: bool,
    pub data: Vec<u8>,
}

/// The name under which a directory entry is stored: the zip writer
/// appends a slash unless the name already ends with a separator.
pub open spec fn dir_entry_name(path: Seq<char>) -> Seq<char> {
    if path.len() > 0 && (path.last() == '/' || path.last() == '\\') {
        path
    } else {
        path.push('/')
    }
}

/// The archive entry an included filesystem entry becomes: files keep
/// their path and contents; directories become zero-length entries named
/// with a trailing slash.
pub open spec fn stored_entry(e: FsEntry) -> (Seq<char>, bool, Seq<u8>) {
    if e.is_file {
        (e.path@, true, e.data@)
    } else {
        (dir_entry_name(e.path@), false, Seq::<u8>::empty())
    }
}

/// The archive's planned contents: the entries that pass the filter, in
/// their input order, each as the archive entry it becomes.
pub open spec fn archive_plan(
    entries: Seq<FsEntry>,
    format: ArchiveFormat,
    exclusions: Seq<Seq<char>>,
) -> Seq<(Seq<char>, bool, Seq<u8>)>
    decreases entries.len(),
{
    if entries.len() == 0 {
        Seq::empty()
    } else {
        let rest = archive_plan(entries.drop_last(), format, exclusions);
        let e = entries.last();
        if entry_included(e.path@, e.is_file, format, exclusions) {
            rest.push(stored_entry(e))
        } else {
            rest
        }
    }
}

/// The longest stored entry name the builder accepts, in characters. The
/// zip format records a name's byte length in 16 bits; at up to four
/// UTF-8 bytes per character, this bound keeps every accepted name under
/// that limit.
pub const MAX_NAME_CHARS: usize = 16383;

/// The most bytes of one file entry the builder accepts. The zip format
/// records entry sizes in 32 bits unless a per-entry large-file option is
/// set; this bound leaves room for the worst-case deflate expansion below
/// that limit.
pub const MAX_FILE_BYTES: usize = 0xFFF0_0000;

/// Every planned entry is within the bounds the builder accepts: the
/// stored name within `MAX_NAME_CHARS`, the contents within
/// `MAX_FILE_BYTES`.
pub open spec fn plan_within_limits(plan: Seq<(Seq<char>, bool, Seq<u8>)>) -> bool {
    forall|k: int|
        0 <= k < plan.len() ==> #[trigger] plan[k].0.len() <= MAX_NAME_CHARS && plan[k].2.len()
            <= MAX_FILE_BYTES
}

/// No two planned entries share a stored name.
pub open spec fn plan_names_distinct(plan: Seq<(Seq<char>, bool, Seq<u8>)>) -> bool {
    forall|i: int, j: int| 0 <= i < j < plan.len() ==> plan[i].0 != plan[j].0
}

/// A zip archive being written, in memory.
#[verifier::external_body]
pub struct ZipBuilder {
    writer: zip::ZipWriter<std::io::Cursor<Vec<u8>>>,
    options: SimpleFileOptions,
}

/// The entries written so far to an archive under construction, in order:
/// name, whether a file entry, contents.
pub uninterp spec fn zip_entries(z: ZipBuilder) -> Seq<(Seq<char>, bool, Seq<u8>)>;

/// What reading an archive back yields: `Some` of the entries the bytes
/// hold, in order — each as its stored name, whether the reader reports
/// it as a file entry (by its recorded attributes, not by the shape of
/// its name), and its contents — or `None` where the bytes are not a
/// readable archive.
pub uninterp spec fn zip_parse(bytes: Seq<u8>) -> Option<Seq<(Seq<char>, bool, Seq<u8>)>>;

/// The writer stands ready for more entries: it sits over its in-memory
/// cursor in the plain storing state, and everything written so far went
/// through the wrappers below, within their bounds.
pub uninterp spec fn writer_ready(z: ZipBuilder) -> bool;

impl ZipBuilder {
    /// Relies on zip::ZipWriter::new over an in-memory cursor; entries
    /// will be stored without compression.
    #[verifier::external_body]
    fn new_stored() -> (z: Self)
        ensures
            zip_entries(z) == Seq::<(Seq<char>, bool, Seq<u8>)>::empty(),
            writer_ready(z),
    {
        ZipBuilder {
            writer: zip::ZipWriter::new(std::io::Cursor::new(Vec::new())),
            options: SimpleFileOptions::default()
                .compression_method(zip::CompressionMethod::Stored)
                .unix_permissions(0o755),
        }
    }

    /// Relies on zip::ZipWriter::new over an in-memory cursor; entries
    /// will be deflated at the given level, which zip accepts between 1
    /// and 9.
    #[verifier::external_body]
    fn new_deflated(level: u8) -> (z: Self)
        requires
            1 <= level <= 9,
        ensures
            zip_entries(z) == Seq::<(Seq<char>, bool, Seq<u8>)>::empty(),
            writer_ready(z),
    {
        ZipBuilder {
            writer: zip::ZipWriter::new(std::io::Cursor::new(Vec::new())),
            options: SimpleFileOptions::default()
                .compression_method(zip::CompressionMethod::Deflated)
                .compression_level(Some(level as i64))
                .unix_permissions(0o755),
        }
    }

    /// Open a fresh in-memory archive. Level 0 stores entries without
    /// compression; levels 1 through 9 deflate at that level.
    pub fn new(level: u8) -> (z: Self)
        requires
            level <= 9,
        ensures
            zip_entries(z) == Seq::<(Seq<char>, bool, Seq<u8>)>::empty(),
            writer_ready(z),
    {
        if level == 0 {
            Self::new_stored()
        } else {
            Self::new_deflated(level)
        }
    }

    /// Relies on zip::ZipWriter::start_file and the writer's
    /// std::io::Write::write_all: on success the archive gains one file
    /// entry stored under exactly `name` with exactly `data`'s bytes. With
    /// the name and the contents within the accepted bounds and the writer
    /// ready, the in-memory cursor grows as needed and writes cannot fail,
    /// so the one refusal zip's source shows is a name already stored.
    #[verifier::external_body]
    fn add_file(&mut self, name: &str, data: &Vec<u8>) -> (r: Result<(), SubmitError>)
        requires
            writer_ready(*old(self)),
            name@.len() <= MAX_NAME_CHARS,
            data@.len() <= MAX_FILE_BYTES,
        ensures
            r is Ok ==> zip_entries(*final(self)) == zip_entries(*old(self)).push(
                (name@, true, data@),
            ) && writer_ready(*final(self)),
            r matches Err(e) ==> (e is IoError && exists|k: int|
                0 <= k < zip_entries(*old(self)).len() && zip_entries(*old(self))[k].0 == name@),
    {
        if let Err(e) = self.writer.start_file(name, self.options) {
            return Err(SubmitError::IoError(format!("archive write failed: {e}")));
        }
        if let Err(e) = std::io::Write::write_all(&mut self.writer, data.as_slice()) {
            return Err(SubmitError::IoError(format!("archive write failed: {e}")));
        }
        Ok(())
    }

    /// Relies on zip::ZipWriter::add_directory: on success the archive
    /// gains one zero-length directory entry, named with a trailing slash
    /// unless the name already ends with a separator. With the stored name
    /// within the accepted bound and the writer ready, the one refusal
    /// zip's source shows is a name already stored.
    #[verifier::external_body]
    fn add_directory(&mut self, name: &str) -> (r: Result<(), SubmitError>)
        requires
            writer_ready(*old(self)),
            dir_entry_name(name@).len() <= MAX_NAME_CHARS,
        ensures
            r is Ok ==> zip_entries(*final(self)) == zip_entries(*old(self)).push(
                (dir_entry_name(name@), false, Seq::<u8>::empty()),
            ) && writer_ready(*final(self)),
            r matches Err(e) ==> (e is IoError && exists|k: int|
                0 <= k < zip_entries(*old(self)).len() && zip_entries(*old(self))[k].0
                    == dir_entry_name(name@)),
    {
        match self.writer.add_directory(name, self.options) {
            Ok(()) => Ok(()),
            Err(e) => Err(SubmitError::IoError(format!("archive write failed: {e}"))),
        }
    }

    /// Relies on zip::ZipWriter::finish: on a ready writer the central
    /// directory and footer go into the in-memory cursor, which grows as
    /// needed, so the complete archive's bytes come back; and reading them
    /// with zip::ZipArchive yields exactly the entries that were written,
    /// in order — the fact `zip_parse` names.
    #[verifier::external_body]
    fn finish(self) -> (r: Result<Vec<u8>, SubmitError>)
        requires
            writer_ready(self),
        ensures
            r is Ok,
            r matches Ok(bytes) ==> zip_parse(bytes@) == Some(zip_entries(self)),
    {
        match self.writer.finish() {
            Ok(cursor) => Ok(cursor.into_inner()),
            Err(e) => Err(SubmitError::IoError(format!("archive finish failed: {e}"))),
        }
    }
}

/// The plan over a prefix of the inputs is a prefix of the whole plan.
pub proof fn lemma_archive_plan_prefix(
    entries: Seq<FsEntry>,
    format: ArchiveFormat,
    exclusions: Seq<Seq<char>>,
    i: int,
)
    requires
        0 <= i <= entries.len(),
    ensures
        archive_plan(entries.take(i), format, exclusions).is_prefix_of(
            archive_plan(entries, format, exclusions),
        ),
    decreases entries.len() - i,
{
    let plan = archive_plan(entries, format, exclusions);
    let p_i = archive_plan(entries.take(i), format, exclusions);
    if i == entries.len() {
        assert(entries.take(i) =~= entries);
        assert(p_i =~= plan.subrange(0, p_i.len() as int));
    } else {
        lemma_archive_plan_prefix(entries, format, exclusions, i + 1);
        let p_i1 = archive_plan(entries.take(i + 1), format, exclusions);
        assert(entries.take(i + 1).drop_last() =~= entries.take(i));
        assert(entries.take(i + 1).last() == entries[i]);
        assert(p_i.is_prefix_of(p_i1)) by {
            assert(p_i =~= p_i1.subrange(0, p_i.len() as int));
        }
        assert(p_i =~= plan.subrange(0, p_i.len() as int));
    }
}

/// Build the archive for one run: filter every entry, write the included
/// ones in order, and return the archive bytes. On success, reading the
/// bytes back yields exactly the planned entries — included files with
/// their contents intact, included directories as zero-length entries.
/// Success is owed whenever the planned entries bear distinct stored
/// names and stay within the builder's bounds; every failure is an
/// `IoError`.
pub fn build_archive(
    entries: &Vec<FsEntry>,
    format: ArchiveFormat,
    exclusions: &ExclusionSet,
    compression: u8,
) -> (r: Result<Vec<u8>, SubmitError>)
    requires
        compression <= 9,
    ensures
        r matches Ok(bytes) ==> zip_parse(bytes@) == Some(
            archive_plan(entries@, format, exclusions@),
        ),
        r matches Err(e) ==> e is IoError,
        plan_names_distinct(archive_plan(entries@, format, exclusions@)) && plan_within_limits(
            archive_plan(entries@, format, exclusions@),
        ) ==> r is Ok,
{
    let ghost plan = archive_plan(entries@, format, exclusions@);
    let mut zb = ZipBuilder::new(compression);
    let mut i: usize = 0;
    while i < entries.len()
        invariant
            i <= entries@.len(),
            writer_ready(zb),
            zip_entries(zb) == archive_plan(entries@.take(i as int), format, exclusions@),
            plan == archive_plan(entries@, format, exclusions@),
        decreases entries@.len() - i,
    {
        let e = &entries[i];
        let ghost p_i = archive_plan(entries@.take(i as int), format, exclusions@);
        proof {
            assert(entries@.take(i + 1).drop_last() =~= entries@.take(i as int));
            assert(entries@.take(i + 1).last() == entries@[i as int]);
            lemma_archive_plan_prefix(entries@, format, exclusions@, i + 1);
        }
        if should_include(e.path.as_str(), e.is_file, format, exclusions) {
            let ghost se = stored_entry(entries@[i as int]);
            proof {
                // The entry lands in the whole plan right after the prefix.
                let plen: int = p_i.len() as int;
                assert(archive_plan(entries@.take(i + 1), format, exclusions@) == p_i.push(se));
                assert(p_i.push(se) =~= plan.subrange(0, plen + 1));
                assert(plan[plen] == se) by {
                    assert(p_i.push(se)[plen] == se);
                    assert(plan.subrange(0, plen + 1)[plen] == plan[plen]);
                }
                assert(forall|k: int| 0 <= k < plen ==> plan[k] == p_i[k]) by {
                    assert(forall|k: int|
                        0 <= k < plen ==> plan.subrange(0, plen + 1)[k] == plan[k]);
                    assert(forall|k: int| 0 <= k < plen ==> p_i.push(se)[k] == p_i[k]);
                }
            }
            let path_chars: usize = e.path.as_str().unicode_len();
            let name_too_long: bool = if path_chars > MAX_NAME_CHARS {
                true
            } else if e.is_file {
                false
            } else {
                let keeps_separator = path_chars > 0 && {
                    let last = e.path.as_str().get_char(path_chars - 1);
                    last == '/' || last == '\\'
                };
                let stored_chars: usize = if keeps_separator {
                    path_chars
                } else {
                    path_chars + 1
                };
                stored_chars > MAX_NAME_CHARS
            };
            proof {
                assert(name_too_long == (se.0.len() > MAX_NAME_CHARS));
            }
            if name_too_long {
                proof {
                    assert(!plan_within_limits(plan)) by {
                        assert(plan[p_i.len() as int].0.len() > MAX_NAME_CHARS);
                    }
                }
                return Err(
                    SubmitError::IoError(
                        String::from_str("entry name is too long for the archive"),
                    ),
                );
            }
            if e.is_file && e.data.len() > MAX_FILE_BYTES {
                proof {
                    assert(!plan_within_limits(plan)) by {
                        assert(plan[p_i.len() as int].2.len() > MAX_FILE_BYTES);
                    }
                }
                return Err(
                    SubmitError::IoError(
                        String::from_str("file is too large for the archive"),
                    ),
                );
            }
            let step = if e.is_file {
                zb.add_file(e.path.as_str(), &e.data)
            } else {
                zb.add_directory(e.path.as_str())
            };
            match step {
                Ok(()) => {},
                Err(err) => {
                    proof {
                        // The writer refused a duplicate stored name: the
                        // same name stands earlier in the plan.
                        assert(!plan_names_distinct(plan)) by {
                            let k = choose|k: int|
                                0 <= k < p_i.len() && p_i[k].0 == se.0;
                            assert(plan[k].0 == plan[p_i.len() as int].0);
                        }
                    }
                    return Err(err);
                },
            }
        }
        i = i + 1;
    }
    proof {
        assert(entries@.take(entries@.len() as int) =~= entries@);
    }
    zb.finish()
}

/// Every archive entry of the plan comes from exactly the input entries
/// that pass the filter: membership in the plan and membership among the
/// included inputs coincide.
pub proof fn lemma_archive_plan_membership(
    entries: Seq<FsEntry>,
    format: ArchiveFormat,
    exclusions: Seq<Seq<char>>,
    entry: (Seq<char>, bool, Seq<u8>),
)
    ensures
        archive_plan(entries, format, exclusions).contains(entry) <==> exists|k: int|
            0 <= k < entries.len() && entry_included(
                entries[k].path@,
                entries[k].is_file,
                format,
                exclusions,
            ) && entry == stored_entry(entries[k]),
    decreases entries.len(),
{
    if entries.len() == 0 {
    } else {
        let prefix = entries.drop_last();
        let last = entries.last();
        lemma_archive_plan_membership(prefix, format, exclusions, entry);
        let plan_prefix = archive_plan(prefix, format, exclusions);
        let plan = archive_plan(entries, format, exclusions);
        assert(forall|k: int| 0 <= k < prefix.len() ==> prefix[k] == entries[k]);
        if entry_included(last.path@, last.is_file, format, exclusions) {
            let se = stored_entry(last);
            assert(plan == plan_prefix.push(se));
            assert(plan_prefix.push(se).contains(entry) <==> (plan_prefix.contains(entry) || entry
                == se)) by {
                if plan_prefix.push(se).contains(entry) {
                    let j = choose|j: int|
                        0 <= j < plan_prefix.push(se).len() && plan_prefix.push(se)[j] == entry;
                    if j < plan_prefix.len() {
                        assert(plan_prefix[j] == entry);
                    }
                }
                if plan_prefix.contains(entry) {
                    let j = choose|j: int| 0 <= j < plan_prefix.len() && plan_prefix[j] == entry;
                    assert(plan_prefix.push(se)[j] == entry);
                }
                assert(plan_prefix.push(se)[plan_prefix.len() as int] == se);
            }
            if entry == se {
                assert(entry_included(
                    entries[entries.len() - 1].path@,
                    entries[entries.len() - 1].is_file,
                    format,
                    exclusions,
                ) && entry == stored_entry(entries[entries.len() - 1]));
            }
        } else {
            assert(plan == plan_prefix);
        }
    }
}

/// Under the `LanguageSpecific` format every file entry of the planned
/// archive has a path ending in one of the fixed allow-listed suffixes;
/// no other file entries exist. Directory entries pass regardless.
pub proof fn lemma_language_specific_files_match(entries: Seq<FsEntry>, exclusions: Seq<Seq<char>>)
    ensures
        forall|j: int|
            0 <= j < archive_plan(entries, ArchiveFormat::LanguageSpecific, exclusions).len()
                && archive_plan(entries, ArchiveFormat::LanguageSpecific, exclusions)[j].1
                ==> crate::filter::lang_matches(
                archive_plan(entries, ArchiveFormat::LanguageSpecific, exclusions)[j].0,
            ),
{
    let plan = archive_plan(entries, ArchiveFormat::LanguageSpecific, exclusions);
    assert forall|j: int| 0 <= j < plan.len() && plan[j].1 implies crate::filter::lang_matches(
        plan[j].0,
    ) by {
        assert(plan.contains(plan[j]));
        lemma_archive_plan_membership(
            entries,
            ArchiveFormat::LanguageSpecific,
            exclusions,
            plan[j],
        );
        let k = choose|k: int|
            0 <= k < entries.len() && entry_included(
                entries[k].path@,
                entries[k].is_file,
                ArchiveFormat::LanguageSpecific,
                exclusions,
            ) && plan[j] == stored_entry(entries[k]);
        assert(entries[k].is_file);
    }
}

/// Under the `LanguageSpecific` format a directory that is not excluded,
/// does not carry the configuration file's name, and is not the root
/// itself keeps its zero-length entry in the plan, even when no file
/// inside it matches the allow-list: directories pass the format filter
/// unconditionally, so intermediate structure is preserved.
pub proof fn lemma_language_specific_keeps_directories(
    entries: Seq<FsEntry>,
    exclusions: Seq<Seq<char>>,
    k: int,
)
    requires
        0 <= k < entries.len(),
        !entries[k].is_file,
        !crate::filter::path_excluded(entries[k].path@, exclusions),
        !crate::text::seq_ends_with(entries[k].path@, crate::filter::config_file_name()),
        entries[k].path@.len() > 0,
    ensures
        archive_plan(entries, ArchiveFormat::LanguageSpecific, exclusions).contains(
            (dir_entry_name(entries[k].path@), false, Seq::<u8>::empty()),
        ),
{
    let se = stored_entry(entries[k]);
    lemma_archive_plan_membership(entries, ArchiveFormat::LanguageSpecific, exclusions, se);
    assert(entry_included(
        entries[k].path@,
        entries[k].is_file,
        ArchiveFormat::LanguageSpecific,
        exclusions,
    ));
    assert(exists|j: int|
        0 <= j < entries.len() && entry_included(
            entries[j].path@,
            entries[j].is_file,
            ArchiveFormat::LanguageSpecific,
            exclusions,
        ) && se == stored_entry(entries[j])) by {
        assert(entry_included(
            entries[k].path@,
            entries[k].is_file,
            ArchiveFormat::LanguageSpecific,
            exclusions,
        ) && se == stored_entry(entries[k]));
    }
}

/// Under the `Repository` format with only the baseline exclusions, the
/// planned archive holds a file entry for a path with given contents
/// exactly when some input entry is a regular file at that path with
/// those contents, the path escapes the baseline exclusions and the
/// configuration-file name, and the path is not the root itself.
pub proof fn lemma_repository_file_entries(entries: Seq<FsEntry>, path: Seq<char>, data: Seq<u8>)
    ensures
        archive_plan(
            entries,
            ArchiveFormat::Repository,
            crate::filter::baseline_exclusions(),
        ).contains((path, true, data)) <==> exists|k: int|
            0 <= k < entries.len() && entries[k].is_file && entries[k].path@ == path
                && entries[k].data@ == data && !crate::filter::path_excluded(
                path,
                crate::filter::baseline_exclusions(),
            ) && !crate::text::seq_ends_with(path, crate::filter::config_file_name()) && path.len()
                > 0,
{
    let ex = crate::filter::baseline_exclusions();
    lemma_archive_plan_membership(entries, ArchiveFormat::Repository, ex, (path, true, data));
    if exists|k: int|
        0 <= k < entries.len() && entries[k].is_file && entries[k].path@ == path
            && entries[k].data@ == data && !crate::filter::path_excluded(path, ex)
            && !crate::text::seq_ends_with(path, crate::filter::config_file_name()) && path.len()
            > 0 {
        let k = choose|k: int|
            0 <= k < entries.len() && entries[k].is_file && entries[k].path@ == path
                && entries[k].data@ == data && !crate::filter::path_excluded(path, ex)
                && !crate::text::seq_ends_with(path, crate::filter::config_file_name())
                && path.len() > 0;
        assert(entry_included(entries[k].path@, entries[k].is_file, ArchiveFormat::Repository, ex)
            && (path, true, data) == stored_entry(entries[k]));
    }
}

} // verus!
