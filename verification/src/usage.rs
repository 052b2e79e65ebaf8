//! Space accounting: from a filesystem's block counters to the figures of one
//! table row.

use vstd::prelude::*;
use vstd::string::*;
use crate::mount::{MountEntry, MountEntryView};
use crate::text::{integer_text, Signed};

verus! {

/// What the command line selected.
#[derive(Clone, Copy, Debug)]
pub struct Options {
    /// Report in units of 1024 bytes rather than 512.
    pub kilo_flag: bool,
}

/// The block counters of one filesystem. Nothing is assumed of how they
/// relate: a filesystem may report more free blocks than it has blocks.
#[derive(Clone, Copy, Debug)]
pub struct StatVFs {
    /// The preferred I/O block size; not used for any figure.
    pub bsize: u64,
    /// The fragment size: the number of bytes that one counted block holds.
    pub frsize: u64,
    /// All blocks.
    pub blocks: u64,
    /// Free blocks, those reserved for the superuser included.
    pub bfree: u64,
    /// Free blocks that an unprivileged user may take.
    pub bavail: u64,
}

/// One line of the table, every field already text.
#[derive(Debug)]
pub struct FormatEntry {
    pub file_system: String,
    pub total: String,
    pub used: String,
    pub available: String,
    pub capacity: String,
    pub mount_point: String,
}

/// A table line as six texts.
pub ghost struct FormatEntryView {
    pub file_system: Seq<char>,
    pub total: Seq<char>,
    pub used: Seq<char>,
    pub available: Seq<char>,
    pub capacity: Seq<char>,
    pub mount_point: Seq<char>,
}

impl View for FormatEntry {
    type V = FormatEntryView;

    open spec fn view(&self) -> FormatEntryView {
        FormatEntryView {
            file_system: self.file_system@,
            total: self.total@,
            used: self.used@,
            available: self.available@,
            capacity: self.capacity@,
            mount_point: self.mount_point@,
        }
    }
}

/// What became of one filesystem under consideration.
#[derive(Debug)]
pub enum Outcome {
    /// It is reported with this line.
    Row(FormatEntry),
    /// It has no blocks and was not asked for by name: it is left out.
    Skip,
    /// Its counters could not be read; the text is the complaint to show.
    QueryFailed(String),
}

/// An outcome over texts.
pub ghost enum OutcomeView {
    Row(FormatEntryView),
    Skip,
    QueryFailed(Seq<char>),
}

impl View for Outcome {
    type V = OutcomeView;

    open spec fn view(&self) -> OutcomeView {
        match self {
            Outcome::Row(row) => OutcomeView::Row(row@),
            Outcome::Skip => OutcomeView::Skip,
            Outcome::QueryFailed(text) => OutcomeView::QueryFailed(text@),
        }
    }
}

/// Bytes per reported unit.
pub open spec fn unit_size(kilo_flag: bool) -> int {
    if kilo_flag {
        1024
    } else {
        512
    }
}

/// The quotient `n / d` rounded up to an integer, for `d != 0`.
pub open spec fn ceil_quotient(n: int, d: int) -> int {
    if d > 0 {
        (n + d - 1) / d
    } else {
        (-n - d - 1) / (-d)
    }
}

/// Blocks in use. Negative where the filesystem reports more free blocks
/// than blocks.
pub open spec fn used_blocks(st: StatVFs) -> int {
    st.blocks - st.bfree
}

/// The blocks that count as the whole for the percentage: those in use and
/// those that an unprivileged user may still take. Reserved blocks are in
/// neither.
pub open spec fn used_plus_available(st: StatVFs) -> int {
    used_blocks(st) + st.bavail
}

/// The share in use, in percent, rounded up; 0 where the whole is 0.
pub open spec fn capacity_percent(st: StatVFs) -> int {
    if used_plus_available(st) != 0 {
        ceil_quotient(used_blocks(st) * 100, used_plus_available(st))
    } else {
        0
    }
}

/// All blocks in units, rounded up.
pub open spec fn total_units(st: StatVFs, unit: int) -> int {
    ceil_quotient(st.blocks * st.frsize, unit)
}

/// Blocks in use in units, rounded up.
pub open spec fn used_units(st: StatVFs, unit: int) -> int {
    ceil_quotient(used_blocks(st) * st.frsize, unit)
}

/// Blocks that may be taken in units, rounded down.
pub open spec fn available_units(st: StatVFs, unit: int) -> int {
    (st.bavail * st.frsize) / unit
}

/// The line that reports `entry` with the counters `st`.
pub open spec fn usage_row(entry: MountEntryView, st: StatVFs, kilo_flag: bool) -> FormatEntryView {
    FormatEntryView {
        file_system: entry.spec,
        total: integer_text(total_units(st, unit_size(kilo_flag))),
        used: integer_text(used_units(st, unit_size(kilo_flag))),
        available: integer_text(available_units(st, unit_size(kilo_flag))),
        capacity: integer_text(capacity_percent(st)).push('%'),
        mount_point: entry.file,
    }
}

/// The complaint about a filesystem whose counters could not be read: where
/// it is mounted, a colon and a space, and the reason.
pub open spec fn query_diagnostic(file: Seq<char>, reason: Seq<char>) -> Seq<char> {
    file + seq![':', ' '] + reason
}

/// The outcome for `entry`, given what reading its counters gave. A
/// filesystem without blocks is reported only where `is_vfs` holds, that is
/// where it was asked for by name.
pub open spec fn usage_outcome(
    entry: MountEntryView,
    stat: Result<StatVFs, Seq<char>>,
    kilo_flag: bool,
    is_vfs: bool,
) -> OutcomeView {
    match stat {
        Ok(st) => if st.blocks != 0 || is_vfs {
            OutcomeView::Row(usage_row(entry, st, kilo_flag))
        } else {
            OutcomeView::Skip
        },
        Err(reason) => OutcomeView::QueryFailed(query_diagnostic(entry.file, reason)),
    }
}

/// What a reading of the counters is, with the reason of a failure as text.
pub open spec fn stat_view(stat: Result<StatVFs, String>) -> Result<StatVFs, Seq<char>> {
    match stat {
        Ok(st) => Ok(st),
        Err(reason) => Err(reason@),
    }
}

/// Rounding up is what `ceil_quotient` does: its result is the least integer
/// that is not below `n / d`.
pub proof fn lemma_ceil_quotient_is_ceiling(n: int, d: int)
    requires
        d != 0,
    ensures
        d > 0 ==> (ceil_quotient(n, d) - 1) * d < n <= ceil_quotient(n, d) * d,
        d < 0 ==> (ceil_quotient(n, d) - 1) * d > n >= ceil_quotient(n, d) * d,
{
    if d > 0 {
        lemma_ceiling_bounds(n, d);
    } else {
        lemma_ceiling_bounds(-n, -d);
        let q = ceil_quotient(n, d);
        assert((q - 1) * d == -((q - 1) * (-d))) by (nonlinear_arith);
        assert(q * d == -(q * (-d))) by (nonlinear_arith);
    }
}

proof fn lemma_ceiling_bounds(n: int, d: int)
    requires
        d > 0,
    ensures
        ((n + d - 1) / d - 1) * d < n <= ((n + d - 1) / d) * d,
{
    let m = n + d - 1;
    vstd::arithmetic::div_mod::lemma_fundamental_div_mod(m, d);
    vstd::arithmetic::div_mod::lemma_mod_bound(m, d);
    assert(d * (m / d) == (m / d) * d) by (nonlinear_arith);
    assert((m / d - 1) * d == (m / d) * d - d) by (nonlinear_arith);
}

/// Rounding a negative quotient up is rounding its opposite down.
proof fn lemma_ceiling_of_negative(m: int, d: int)
    requires
        m >= 0,
        d > 0,
    ensures
        ceil_quotient(-m, d) == -(m / d),
{
    vstd::arithmetic::div_mod::lemma_fundamental_div_mod(m, d);
    vstd::arithmetic::div_mod::lemma_mod_bound(m, d);
    let q = m / d;
    let r = m % d;
    assert(-m + d - 1 == (-q) * d + (d - 1 - r)) by (nonlinear_arith)
        requires
            m == d * q + r,
    ;
    vstd::arithmetic::div_mod::lemma_fundamental_div_mod_converse(-m + d - 1, d, -q, d - 1 - r);
}

/// Where nothing is in use and nothing may be taken, the share in use reads
/// `0%`: no division takes place.
pub proof fn lemma_empty_whole_reads_zero(entry: MountEntryView, st: StatVFs, kilo_flag: bool)
    requires
        used_plus_available(st) == 0,
    ensures
        capacity_percent(st) == 0,
        usage_row(entry, st, kilo_flag).capacity == seq!['0', '%'],
{
    reveal_with_fuel(crate::text::decimal_text, 2);
    assert(usage_row(entry, st, kilo_flag).capacity =~= seq!['0', '%']);
}

/// A filesystem without blocks is left out when all filesystems are listed,
/// and reported with a total of `0` when it was asked for by name.
pub proof fn lemma_blockless_filesystem(entry: MountEntryView, st: StatVFs, kilo_flag: bool)
    requires
        st.blocks == 0,
    ensures
        usage_outcome(entry, Ok(st), kilo_flag, false) == OutcomeView::Skip,
        usage_outcome(entry, Ok(st), kilo_flag, true) matches OutcomeView::Row(row) && row.total
            == seq!['0'],
{
    reveal_with_fuel(crate::text::decimal_text, 2);
    assert(st.blocks * st.frsize == 0) by (nonlinear_arith)
        requires
            st.blocks == 0,
    ;
    assert(total_units(st, unit_size(kilo_flag)) == 0);
    assert(usage_row(entry, st, kilo_flag).total =~= seq!['0']);
}

/// A filesystem with blocks is reported in either mode, and a failed
/// reading is a complaint in either mode.
pub proof fn lemma_mode_matters_only_without_blocks(
    entry: MountEntryView,
    stat: Result<StatVFs, Seq<char>>,
    kilo_flag: bool,
)
    requires
        stat matches Ok(st) ==> st.blocks != 0,
    ensures
        usage_outcome(entry, stat, kilo_flag, false) == usage_outcome(entry, stat, kilo_flag, true),
{
}

/// Divides, rounding up, an integer by a positive number.
fn ceil_div(n: Signed, d: u128) -> (q: Signed)
    requires
        d > 0,
        n.magnitude + d <= u128::MAX,
    ensures
        q.value() == ceil_quotient(n.value(), d as int),
{
    if n.negative {
        proof {
            lemma_ceiling_of_negative(n.magnitude as int, d as int);
        }
        Signed { negative: true, magnitude: n.magnitude / d }
    } else {
        Signed { negative: false, magnitude: (n.magnitude + d - 1) / d }
    }
}

/// A number of blocks, which may be negative, times a block size.
fn scale(n: Signed, factor: u64) -> (product: Signed)
    requires
        n.magnitude <= u64::MAX,
    ensures
        product.value() == n.value() * factor,
        product.magnitude <= u64::MAX * u64::MAX,
{
    assert(n.magnitude * factor <= u64::MAX * u64::MAX) by (nonlinear_arith)
        requires
            n.magnitude <= u64::MAX,
            factor <= u64::MAX,
    ;
    assert((-(n.magnitude as int)) * factor == -(n.magnitude * factor)) by (nonlinear_arith);
    Signed { negative: n.negative, magnitude: n.magnitude * (factor as u128) }
}

/// The blocks in use, as the counters give them.
fn blocks_in_use(st: &StatVFs) -> (used: Signed)
    ensures
        used.value() == used_blocks(*st),
        used.magnitude <= u64::MAX,
{
    if st.blocks >= st.bfree {
        Signed { negative: false, magnitude: (st.blocks - st.bfree) as u128 }
    } else {
        Signed { negative: true, magnitude: (st.bfree - st.blocks) as u128 }
    }
}

/// The share in use, in percent.
fn capacity_of(st: &StatVFs) -> (percent: Signed)
    ensures
        percent.value() == capacity_percent(*st),
{
    let used: Signed = blocks_in_use(st);
    let available: u128 = st.bavail as u128;
    let whole: Signed = if !used.negative {
        Signed { negative: false, magnitude: used.magnitude + available }
    } else if available >= used.magnitude {
        Signed { negative: false, magnitude: available - used.magnitude }
    } else {
        Signed { negative: true, magnitude: used.magnitude - available }
    };
    assert(whole.value() == used_plus_available(*st));
    if whole.magnitude == 0 {
        Signed { negative: false, magnitude: 0 }
    } else {
        let hundredfold: u128 = used.magnitude * 100;
        if whole.negative {
            // Both are negative: the quotient is that of their opposites.
            ceil_div(Signed { negative: false, magnitude: hundredfold }, whole.magnitude)
        } else {
            ceil_div(Signed { negative: used.negative, magnitude: hundredfold }, whole.magnitude)
        }
    }
}

/// The line that reports `mount_entry` with the counters `st`.
pub fn usage_format_entry(mount_entry: &MountEntry, st: &StatVFs, opts: &Options) -> (row: FormatEntry)
    ensures
        row@ == usage_row(mount_entry@, *st, opts.kilo_flag),
{
    let unit: u128 = if opts.kilo_flag { 1024 } else { 512 };
    let used: Signed = blocks_in_use(st);
    let all: Signed = Signed { negative: false, magnitude: st.blocks as u128 };
    let free: Signed = Signed { negative: false, magnitude: st.bavail as u128 };
    let total: Signed = ceil_div(scale(all, st.frsize), unit);
    let in_use: Signed = ceil_div(scale(used, st.frsize), unit);
    let free_bytes: Signed = scale(free, st.frsize);
    let available: Signed = Signed { negative: false, magnitude: free_bytes.magnitude / unit };
    let mut capacity: String = capacity_of(st).to_text();
    capacity.append("%");
    proof {
        reveal_strlit("%");
        assert(capacity@ =~= integer_text(capacity_percent(*st)).push('%'));
    }
    FormatEntry {
        file_system: mount_entry.spec.clone(),
        total: total.to_text(),
        used: in_use.to_text(),
        available: available.to_text(),
        capacity,
        mount_point: mount_entry.file.clone(),
    }
}

/// Decides what becomes of `mount_entry`, given what reading its counters
/// gave: a line, nothing, or a complaint. `is_vfs` says that the filesystem
/// was asked for by name, and is then reported even without blocks.
pub fn mount_entry_to_format_entry(
    mount_entry: &MountEntry,
    stat: &Result<StatVFs, String>,
    opts: &Options,
    is_vfs: bool,
) -> (outcome: Outcome)
    ensures
        outcome@ == usage_outcome(mount_entry@, stat_view(*stat), opts.kilo_flag, is_vfs),
{
    match stat {
        Ok(st) => {
            if st.blocks != 0 || is_vfs {
                Outcome::Row(usage_format_entry(mount_entry, st, opts))
            } else {
                Outcome::Skip
            }
        },
        Err(reason) => {
            let mut text: String = mount_entry.file.clone();
            text.append(": ");
            text.append(reason.as_str());
            proof {
                reveal_strlit(": ");
                assert(text@ =~= query_diagnostic(mount_entry@.file, reason@));
            }
            Outcome::QueryFailed(text)
        },
    }
}

} // verus!
