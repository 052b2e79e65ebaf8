//! Reading the mount table: from the bytes of the table to its entries, all
//! of them or none.

use vstd::prelude::*;
use vstd::string::*;
use crate::mount::{owner, resolve, table_view, MountEntry, MountEntryView};

verus! {

/// The line reader of the `mnt` crate, held as it is.
#[verifier::external_type_specification]
#[verifier::external_body]
#[verifier::reject_recursive_types(T)]
pub struct ExMountIter<T>(mnt::MountIter<T>);

/// The error of the `mnt` crate, held as it is.
#[verifier::external_type_specification]
#[verifier::external_body]
pub struct ExParseError(mnt::ParseError);

/// Why a mount table could not be read.
#[derive(Debug)]
pub struct TableError {
    /// The complaint, as the reader worded it.
    pub desc: String,
}

/// What one line of a mount table reads as: an entry, or a complaint.
pub type Line = Result<MountEntryView, Seq<char>>;

/// What the `mnt` crate makes of a mount table given as bytes, line by line.
pub uninterp spec fn table_lines(table: Seq<u8>) -> Seq<Line>;

/// What a reader has yet to hand out, first line first.
pub uninterp spec fn pending(reader: mnt::MountIter<&[u8]>) -> Seq<Line>;

/// The message that an error of the `mnt` crate shows.
pub uninterp spec fn error_text(error: mnt::ParseError) -> Seq<char>;

/// `mnt::MountIter::new`, on a table held in memory. The contract claims
/// that what the reader will hand out depends on the table's bytes alone.
#[verifier::external_body]
fn read_table(table: &[u8]) -> (reader: mnt::MountIter<&[u8]>)
    ensures
        pending(reader) == table_lines(table@),
{
    mnt::MountIter::new(table)
}

/// `Iterator::next` of `mnt::MountIter`. The contract claims that the
/// reader hands out its lines in order, one per call, and nothing once they
/// are spent. Of an entry it keeps the source and the mount point, each as
/// text; an error comes back as it is.
#[verifier::external_body]
fn next_line(reader: &mut mnt::MountIter<&[u8]>) -> (line: Option<Result<MountEntry, mnt::ParseError>>)
    ensures
        pending(*old(reader)).len() == 0 ==> line is None && pending(*final(reader)).len() == 0,
        pending(*old(reader)).len() > 0 ==> pending(*final(reader)) == pending(*old(reader)).skip(1)
            && match line {
            Some(Ok(entry)) => pending(*old(reader))[0] == Ok::<MountEntryView, Seq<char>>(entry@),
            Some(Err(error)) => pending(*old(reader))[0] == Err::<MountEntryView, Seq<char>>(
                error_text(error),
            ),
            None => false,
        },
{
    match reader.next() {
        Some(Ok(entry)) => Some(
            Ok(MountEntry { spec: entry.spec, file: entry.file.to_string_lossy().into_owned() }),
        ),
        Some(Err(error)) => Some(Err(error)),
        None => None,
    }
}

/// `Display` of `mnt::ParseError`: the message of the error as text.
#[verifier::external_body]
fn error_message(error: &mnt::ParseError) -> (text: String)
    ensures
        text@ == error_text(*error),
{
    error.to_string()
}

/// Whether every line reads as an entry.
pub open spec fn all_read(lines: Seq<Line>) -> bool {
    forall|i: int| 0 <= i < lines.len() ==> (#[trigger] lines[i]) is Ok
}

/// Whether line `i` is the first that does not read as an entry.
pub open spec fn is_first_failure(lines: Seq<Line>, i: int) -> bool {
    &&& 0 <= i < lines.len()
    &&& lines[i] is Err
    &&& forall|j: int| 0 <= j < i ==> (#[trigger] lines[j]) is Ok
}

/// A table read whole: the entries of its lines in order where every line
/// reads as one, else the complaint about the first line that does not.
pub open spec fn whole_table(lines: Seq<Line>) -> Result<Seq<MountEntryView>, Seq<char>> {
    if all_read(lines) {
        Ok(lines.map_values(|line: Line| line->Ok_0))
    } else {
        Err(lines[choose|i: int| is_first_failure(lines, i)]->Err_0)
    }
}

/// Only one line is the first that fails.
pub proof fn lemma_first_failure_is_unique(lines: Seq<Line>, i: int, j: int)
    requires
        is_first_failure(lines, i),
        is_first_failure(lines, j),
    ensures
        i == j,
{
}

/// Reads a mount table given as bytes. Either every line reads as an entry
/// and all entries come back in the table's order, or the first line that
/// does not read makes the whole reading fail: no part of a table is handed
/// out.
pub fn get_mounts(table: &[u8]) -> (mounts: Result<Vec<MountEntry>, TableError>)
    ensures
        match mounts {
            Ok(entries) => whole_table(table_lines(table@)) == Ok::<Seq<MountEntryView>, Seq<char>>(
                table_view(entries@),
            ),
            Err(error) => whole_table(table_lines(table@)) == Err::<Seq<MountEntryView>, Seq<char>>(
                error.desc@,
            ),
        },
{
    let ghost lines = table_lines(table@);
    let mut reader = read_table(table);
    let mut entries: Vec<MountEntry> = Vec::new();
    loop
        invariant
            lines == table_lines(table@),
            entries.len() <= lines.len(),
            pending(reader) == lines.skip(entries.len() as int),
            forall|j: int|
                0 <= j < entries.len() ==> (#[trigger] lines[j]) == Ok::<MountEntryView, Seq<char>>(
                    entries[j]@,
                ),
        decreases lines.len() - entries.len(),
    {
        let ghost before = pending(reader);
        match next_line(&mut reader) {
            Some(Ok(entry)) => {
                assert(before[0] == lines[entries.len() as int]);
                assert(pending(reader) =~= lines.skip(entries.len() + 1));
                entries.push(entry);
            },
            Some(Err(error)) => {
                let desc: String = error_message(&error);
                proof {
                    let at = entries.len() as int;
                    assert(before[0] == lines[at]);
                    assert(is_first_failure(lines, at));
                    assert(!all_read(lines));
                    lemma_first_failure_is_unique(lines, at, choose|i: int| is_first_failure(lines, i));
                }
                return Err(TableError { desc });
            },
            None => {
                proof {
                    assert(entries.len() == lines.len());
                    assert(all_read(lines));
                    assert(table_view(entries@) =~= lines.map_values(|line: Line| line->Ok_0));
                }
                return Ok(entries);
            },
        }
    }
}

/// Finds, in a mount table given as bytes, the entry that owns `path`. A
/// table with a line that does not read gives that line's complaint, whether
/// or not an earlier line would have owned the path.
pub fn find_mount(path: &str, table: &[u8]) -> (found: Result<Option<MountEntry>, TableError>)
    ensures
        match whole_table(table_lines(table@)) {
            Ok(mounts) => found matches Ok(entry) && match owner(path@, mounts) {
                Some(i) => {
                    &&& 0 <= i < mounts.len()
                    &&& entry matches Some(e) && e@ == mounts[i]
                },
                None => entry is None,
            },
            Err(text) => found matches Err(error) && error.desc@ == text,
        },
{
    match get_mounts(table) {
        Ok(entries) => Ok(resolve(path, &entries)),
        Err(error) => Err(error),
    }
}

} // verus!
