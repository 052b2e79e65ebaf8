//! The mount table: its entries, and which of them owns a path.

use vstd::prelude::*;
use vstd::string::*;

verus! {

/// One line of the mount table: what is mounted, and where.
#[derive(Debug)]
pub struct MountEntry {
    /// The mounted source: a device path, a label, or a name such as `tmpfs`.
    pub spec: String,
    /// The directory that the filesystem is mounted on.
    pub file: String,
}

/// A mount entry as two texts.
pub ghost struct MountEntryView {
    pub spec: Seq<char>,
    pub file: Seq<char>,
}

impl View for MountEntry {
    type V = MountEntryView;

    open spec fn view(&self) -> MountEntryView {
        MountEntryView { spec: self.spec@, file: self.file@ }
    }
}

impl Clone for MountEntry {
    fn clone(&self) -> (copy: MountEntry)
        ensures
            copy@ == self@,
    {
        MountEntry { spec: self.spec.clone(), file: self.file.clone() }
    }
}

/// A mount table as a sequence of pairs of texts.
pub open spec fn table_view(mounts: Seq<MountEntry>) -> Seq<MountEntryView> {
    mounts.map_values(|entry: MountEntry| entry@)
}

/// Whether the path `base` is a leading run of whole components of the path
/// `path`, as the standard library decides it for paths in which `/`
/// separates the components: `/home` leads `/home/user` and does not lead
/// `/homestead`.
pub uninterp spec fn path_starts_with(path: Seq<char>, base: Seq<char>) -> bool;

/// `std::path::Path::starts_with`, on two paths given as text. The contract
/// names its answer and claims nothing more of it than that it depends on
/// the two texts alone.
#[verifier::external_body]
fn starts_with_path(path: &str, base: &str) -> (leads: bool)
    ensures
        leads == path_starts_with(path@, base@),
{
    std::path::Path::new(path).starts_with(base)
}

/// The entry's source is itself an absolute path, and `target` is that very
/// text: the target is what is mounted, not something inside a mount.
pub open spec fn names_source(target: Seq<char>, entry: MountEntryView) -> bool {
    entry.spec.len() > 0 && entry.spec[0] == '/' && entry.spec == target
}

/// The target lies at or under the entry's mount point, by whole path
/// components. A mount point without text takes nothing under it.
pub open spec fn lies_under(target: Seq<char>, entry: MountEntryView) -> bool {
    entry.file.len() > 0 && path_starts_with(target, entry.file)
}

/// Whether some entry's source is the target itself.
pub open spec fn has_source(target: Seq<char>, mounts: Seq<MountEntryView>) -> bool {
    exists|j: int| 0 <= j < mounts.len() && names_source(target, #[trigger] mounts[j])
}

/// Whether entry `i` is the one that owns `target`.
///
/// Where some entry's source is the target itself, the first such entry
/// owns it, whatever mount points the target lies under. Otherwise the
/// owner is the entry with the longest mount point, counted in characters,
/// among those that the target lies under, and the first of them where
/// several are that long.
pub open spec fn is_owner(target: Seq<char>, mounts: Seq<MountEntryView>, i: int) -> bool {
    &&& 0 <= i < mounts.len()
    &&& if has_source(target, mounts) {
        &&& names_source(target, mounts[i])
        &&& forall|j: int| 0 <= j < i ==> !names_source(target, #[trigger] mounts[j])
    } else {
        &&& lies_under(target, mounts[i])
        &&& forall|j: int|
            0 <= j < mounts.len() && lies_under(target, #[trigger] mounts[j])
                ==> mounts[j].file.len() <= mounts[i].file.len()
        &&& forall|j: int|
            0 <= j < i && lies_under(target, #[trigger] mounts[j])
                ==> mounts[j].file.len() < mounts[i].file.len()
    }
}

/// Whether any entry could own `target` at all.
pub open spec fn has_owner(target: Seq<char>, mounts: Seq<MountEntryView>) -> bool {
    exists|j: int|
        0 <= j < mounts.len() && (names_source(target, #[trigger] mounts[j]) || lies_under(
            target,
            mounts[j],
        ))
}

/// The position of the entry that owns `target`, if any does.
pub open spec fn owner(target: Seq<char>, mounts: Seq<MountEntryView>) -> Option<int> {
    if has_owner(target, mounts) {
        Some(choose|i: int| is_owner(target, mounts, i))
    } else {
        None
    }
}

/// At most one entry owns a target.
pub proof fn lemma_owner_is_unique(target: Seq<char>, mounts: Seq<MountEntryView>, i: int, j: int)
    requires
        is_owner(target, mounts, i),
        is_owner(target, mounts, j),
    ensures
        i == j,
{
    if i < j {
        assert(names_source(target, mounts[i]) || lies_under(target, mounts[i]));
    } else if j < i {
        assert(names_source(target, mounts[j]) || lies_under(target, mounts[j]));
    }
}

/// An entry that owns the target is the owner.
pub proof fn lemma_owner_found(target: Seq<char>, mounts: Seq<MountEntryView>, i: int)
    requires
        is_owner(target, mounts, i),
    ensures
        owner(target, mounts) == Some(i),
{
    assert(names_source(target, mounts[i]) || lies_under(target, mounts[i]));
    let k = choose|k: int| is_owner(target, mounts, k);
    lemma_owner_is_unique(target, mounts, i, k);
}

/// A target that is some entry's source, an absolute path, belongs to the
/// first entry with that source, whatever mount points it lies under: to
/// entry `i` itself where no entry before it has the same source.
pub proof fn lemma_source_wins(target: Seq<char>, mounts: Seq<MountEntryView>, i: int)
    requires
        0 <= i < mounts.len(),
        names_source(target, mounts[i]),
    ensures
        owner(target, mounts) matches Some(k) && k <= i && mounts[k].spec == target,
        (forall|j: int| 0 <= j < i ==> mounts[j].spec != target) ==> owner(target, mounts) == Some(i),
{
    let first = first_source(target, mounts, i);
    assert(is_owner(target, mounts, first));
    lemma_owner_found(target, mounts, first);
}

/// Of two mount points of one length that the target lies under, the later
/// never owns it; the earlier does, where no source is the target and
/// no mount point that the target lies under is longer or, at that length,
/// earlier.
pub proof fn lemma_first_of_equals_wins(
    target: Seq<char>,
    mounts: Seq<MountEntryView>,
    i: int,
    j: int,
)
    requires
        !has_source(target, mounts),
        0 <= i < j < mounts.len(),
        lies_under(target, mounts[i]),
        lies_under(target, mounts[j]),
        mounts[i].file.len() == mounts[j].file.len(),
    ensures
        owner(target, mounts) != Some(j),
        (forall|k: int|
            0 <= k < mounts.len() && lies_under(target, #[trigger] mounts[k]) ==> mounts[k].file.len()
                <= mounts[i].file.len()) && (forall|k: int|
            0 <= k < i && lies_under(target, #[trigger] mounts[k]) ==> mounts[k].file.len()
                < mounts[i].file.len()) ==> owner(target, mounts) == Some(i),
{
    lemma_owner_in_range(target, mounts);
    if (forall|k: int|
        0 <= k < mounts.len() && lies_under(target, #[trigger] mounts[k]) ==> mounts[k].file.len()
            <= mounts[i].file.len()) && (forall|k: int|
        0 <= k < i && lies_under(target, #[trigger] mounts[k]) ==> mounts[k].file.len()
            < mounts[i].file.len()) {
        assert(is_owner(target, mounts, i));
        lemma_owner_found(target, mounts, i);
    }
}

/// A target that no entry's source names and that lies under no mount point
/// has no owner; any other target has one.
pub proof fn lemma_owner_exists_iff(target: Seq<char>, mounts: Seq<MountEntryView>)
    ensures
        owner(target, mounts) is Some <==> has_owner(target, mounts),
{
}

/// Whether the entry's source is the target itself.
fn is_source(target: &String, entry: &MountEntry) -> (yes: bool)
    ensures
        yes == names_source(target@, entry@),
{
    entry.spec.as_str().unicode_len() > 0 && entry.spec.as_str().get_char(0) == '/' && entry.spec
        == *target
}

/// Finds the position of the entry that owns `target`.
pub fn resolve_index(target: &str, mounts: &Vec<MountEntry>) -> (found: Option<usize>)
    ensures
        match found {
            Some(i) => owner(target@, table_view(mounts@)) == Some(i as int),
            None => owner(target@, table_view(mounts@)) is None,
        },
{
    let wanted: String = String::from_str(target);
    let ghost table = table_view(mounts@);
    let mut best: Option<usize> = None;
    let mut best_len: usize = 0;
    let mut i: usize = 0;
    while i < mounts.len()
        invariant
            i <= mounts.len(),
            wanted@ == target@,
            table == table_view(mounts@),
            forall|j: int| 0 <= j < i ==> !names_source(target@, #[trigger] table[j]),
            match best {
                Some(b) => {
                    &&& b < i
                    &&& lies_under(target@, table[b as int])
                    &&& best_len == table[b as int].file.len()
                    &&& forall|j: int|
                        0 <= j < i && lies_under(target@, #[trigger] table[j])
                            ==> table[j].file.len() <= best_len
                    &&& forall|j: int|
                        0 <= j < b && lies_under(target@, #[trigger] table[j])
                            ==> table[j].file.len() < best_len
                },
                None => {
                    &&& best_len == 0
                    &&& forall|j: int| 0 <= j < i ==> !lies_under(target@, #[trigger] table[j])
                },
            },
        decreases mounts.len() - i,
    {
        let entry: &MountEntry = &mounts[i];
        assert(table[i as int] == entry@);
        if is_source(&wanted, entry) {
            proof {
                assert(has_source(target@, table));
                assert(is_owner(target@, table, i as int));
                lemma_owner_found(target@, table, i as int);
            }
            return Some(i);
        }
        if starts_with_path(target, entry.file.as_str()) {
            let len: usize = entry.file.as_str().unicode_len();
            if len > best_len {
                best = Some(i);
                best_len = len;
            }
        }
        i += 1;
    }
    proof {
        assert(!has_source(target@, table));
        match best {
            Some(b) => {
                assert(is_owner(target@, table, b as int));
                lemma_owner_found(target@, table, b as int);
            },
            None => {
                assert(!has_owner(target@, table));
            },
        }
    }
    best
}

/// Finds the entry that owns `target`: see [`is_owner`] for which one that is.
pub fn resolve(target: &str, mounts: &Vec<MountEntry>) -> (found: Option<MountEntry>)
    ensures
        match owner(target@, table_view(mounts@)) {
            Some(i) => {
                &&& 0 <= i < mounts.len()
                &&& found matches Some(entry) && entry@ == table_view(mounts@)[i]
            },
            None => found is None,
        },
{
    match resolve_index(target, mounts) {
        Some(i) => {
            proof {
                let table = table_view(mounts@);
                assert(has_owner(target@, table));
                lemma_owner_in_range(target@, table);
            }
            Some(mounts[i].clone())
        },
        None => None,
    }
}

/// The owner, where there is one, is an entry of the table and owns the target.
pub proof fn lemma_owner_in_range(target: Seq<char>, mounts: Seq<MountEntryView>)
    requires
        has_owner(target, mounts),
    ensures
        owner(target, mounts) matches Some(i) && is_owner(target, mounts, i),
{
    lemma_some_entry_owns(target, mounts);
}

/// Where an entry could own the target, one does.
proof fn lemma_some_entry_owns(target: Seq<char>, mounts: Seq<MountEntryView>)
    requires
        has_owner(target, mounts),
    ensures
        exists|i: int| is_owner(target, mounts, i),
{
    if has_source(target, mounts) {
        let j = choose|j: int| 0 <= j < mounts.len() && names_source(target, #[trigger] mounts[j]);
        let first = first_source(target, mounts, j);
        assert(is_owner(target, mounts, first));
    } else {
        let j = choose|j: int|
            0 <= j < mounts.len() && (names_source(target, #[trigger] mounts[j]) || lies_under(
                target,
                mounts[j],
            ));
        assert(!names_source(target, mounts[j]));
        let best = longest_under(target, mounts, mounts.len() as int, j);
        assert(is_owner(target, mounts, best));
    }
}

/// The first entry whose source is the target, given one that is.
proof fn first_source(target: Seq<char>, mounts: Seq<MountEntryView>, j: int) -> (first: int)
    requires
        0 <= j < mounts.len(),
        names_source(target, mounts[j]),
    ensures
        0 <= first <= j,
        names_source(target, mounts[first]),
        forall|k: int| 0 <= k < first ==> !names_source(target, #[trigger] mounts[k]),
    decreases j,
{
    if exists|k: int| 0 <= k < j && names_source(target, #[trigger] mounts[k]) {
        let k = choose|k: int| 0 <= k < j && names_source(target, #[trigger] mounts[k]);
        first_source(target, mounts, k)
    } else {
        j
    }
}

/// The first of the longest mount points that the target lies under, among
/// the first `n` entries, given one of them.
proof fn longest_under(target: Seq<char>, mounts: Seq<MountEntryView>, n: int, j: int) -> (best: int)
    requires
        0 <= j < n <= mounts.len(),
        lies_under(target, mounts[j]),
    ensures
        0 <= best < n,
        lies_under(target, mounts[best]),
        forall|k: int|
            0 <= k < n && lies_under(target, #[trigger] mounts[k]) ==> mounts[k].file.len()
                <= mounts[best].file.len(),
        forall|k: int|
            0 <= k < best && lies_under(target, #[trigger] mounts[k]) ==> mounts[k].file.len()
                < mounts[best].file.len(),
    decreases n,
{
    if j == n - 1 {
        if exists|k: int| 0 <= k < n - 1 && lies_under(target, #[trigger] mounts[k]) {
            let k = choose|k: int| 0 <= k < n - 1 && lies_under(target, #[trigger] mounts[k]);
            let before = longest_under(target, mounts, n - 1, k);
            if mounts[j].file.len() > mounts[before].file.len() {
                j
            } else {
                before
            }
        } else {
            j
        }
    } else {
        let before = longest_under(target, mounts, n - 1, j);
        if lies_under(target, mounts[n - 1]) && mounts[n - 1].file.len() > mounts[before].file.len() {
            n - 1
        } else {
            before
        }
    }
}

} // verus!
