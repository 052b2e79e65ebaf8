//! The table: its heading, the width of each column, and the text of its
//! lines.

use vstd::prelude::*;
use vstd::string::*;
use crate::text::{pad_left, pad_right, push_left_aligned, push_right_aligned};
use crate::usage::{FormatEntry, FormatEntryView, Options};

verus! {

/// The width of each column: the character count of its longest text.
#[derive(Clone, Copy, Debug)]
pub struct FormatMaxLengths {
    pub max_file_system_len: usize,
    pub max_total_len: usize,
    pub max_used_len: usize,
    pub max_available_len: usize,
    pub max_capacity_len: usize,
    pub max_mount_point_len: usize,
}

/// The widths of the six columns as numbers.
pub ghost struct ColumnWidths {
    pub file_system: nat,
    pub total: nat,
    pub used: nat,
    pub available: nat,
    pub capacity: nat,
    pub mount_point: nat,
}

impl View for FormatMaxLengths {
    type V = ColumnWidths;

    open spec fn view(&self) -> ColumnWidths {
        ColumnWidths {
            file_system: self.max_file_system_len as nat,
            total: self.max_total_len as nat,
            used: self.max_used_len as nat,
            available: self.max_available_len as nat,
            capacity: self.max_capacity_len as nat,
            mount_point: self.max_mount_point_len as nat,
        }
    }
}

/// The lines of a table as texts.
pub open spec fn rows_view(rows: Seq<FormatEntry>) -> Seq<FormatEntryView> {
    rows.map_values(|row: FormatEntry| row@)
}

/// The heading of the table; its second column names the unit.
pub open spec fn header_row(kilo_flag: bool) -> FormatEntryView {
    FormatEntryView {
        file_system: "Filesystem"@,
        total: if kilo_flag {
            "1024-blocks"@
        } else {
            "512-blocks"@
        },
        used: "Used"@,
        available: "Available"@,
        capacity: "Capacity"@,
        mount_point: "Mounted on"@,
    }
}

/// Makes the heading of the table.
pub fn header_format_entry(opts: &Options) -> (header: FormatEntry)
    ensures
        header@ == header_row(opts.kilo_flag),
{
    let total: String = if opts.kilo_flag {
        String::from_str("1024-blocks")
    } else {
        String::from_str("512-blocks")
    };
    FormatEntry {
        file_system: String::from_str("Filesystem"),
        total,
        used: String::from_str("Used"),
        available: String::from_str("Available"),
        capacity: String::from_str("Capacity"),
        mount_point: String::from_str("Mounted on"),
    }
}

/// The character count of the longest of the texts that `column` picks from
/// the lines; 0 for no lines.
pub open spec fn column_width(
    rows: Seq<FormatEntryView>,
    column: spec_fn(FormatEntryView) -> Seq<char>,
) -> nat
    decreases rows.len(),
{
    if rows.len() == 0 {
        0
    } else {
        let before = column_width(rows.drop_last(), column);
        let here = column(rows.last()).len();
        if here > before {
            here
        } else {
            before
        }
    }
}

/// The widths of the columns of `rows`.
pub open spec fn max_lengths(rows: Seq<FormatEntryView>) -> ColumnWidths {
    ColumnWidths {
        file_system: column_width(rows, |row: FormatEntryView| row.file_system),
        total: column_width(rows, |row: FormatEntryView| row.total),
        used: column_width(rows, |row: FormatEntryView| row.used),
        available: column_width(rows, |row: FormatEntryView| row.available),
        capacity: column_width(rows, |row: FormatEntryView| row.capacity),
        mount_point: column_width(rows, |row: FormatEntryView| row.mount_point),
    }
}

/// A column is as wide as its longest text: no text of the column is longer
/// than the width, and where there are lines, one is exactly that long.
pub proof fn lemma_column_width_is_max(
    rows: Seq<FormatEntryView>,
    column: spec_fn(FormatEntryView) -> Seq<char>,
)
    ensures
        forall|i: int| 0 <= i < rows.len() ==> column(#[trigger] rows[i]).len() <= column_width(rows, column),
        rows.len() > 0 ==> exists|i: int|
            0 <= i < rows.len() && column(#[trigger] rows[i]).len() == column_width(rows, column),
        rows.len() == 0 ==> column_width(rows, column) == 0,
    decreases rows.len(),
{
    if rows.len() > 0 {
        let before = rows.drop_last();
        lemma_column_width_is_max(before, column);
        assert forall|i: int| 0 <= i < rows.len() implies column(#[trigger] rows[i]).len()
            <= column_width(rows, column) by {
            if i < before.len() {
                assert(before[i] == rows[i]);
            }
        }
        if column(rows.last()).len() > column_width(before, column) || before.len() == 0 {
            assert(column(rows[rows.len() - 1]).len() == column_width(rows, column));
        } else {
            let i = choose|i: int|
                0 <= i < before.len() && column(#[trigger] before[i]).len() == column_width(
                    before,
                    column,
                );
            assert(before[i] == rows[i]);
        }
    }
}

/// The longer of two lengths.
fn longer(a: usize, b: usize) -> (m: usize)
    ensures
        m == if b > a {
            b
        } else {
            a
        },
{
    if b > a {
        b
    } else {
        a
    }
}

/// Measures each column of the table: the character count of its longest
/// text, the heading included where it is among the lines.
pub fn calculate_format_max_lens(format_entries: &[FormatEntry]) -> (max_lens: FormatMaxLengths)
    ensures
        max_lens@ == max_lengths(rows_view(format_entries@)),
{
    let mut max_lens = FormatMaxLengths {
        max_file_system_len: 0,
        max_total_len: 0,
        max_used_len: 0,
        max_available_len: 0,
        max_capacity_len: 0,
        max_mount_point_len: 0,
    };
    let ghost rows = rows_view(format_entries@);
    let mut i: usize = 0;
    assert(rows.take(0) =~= Seq::<FormatEntryView>::empty());
    while i < format_entries.len()
        invariant
            i <= format_entries.len(),
            rows == rows_view(format_entries@),
            max_lens@ == max_lengths(rows.take(i as int)),
        decreases format_entries.len() - i,
    {
        let entry: &FormatEntry = &format_entries[i];
        proof {
            assert(rows.take(i + 1).drop_last() =~= rows.take(i as int));
            assert(rows.take(i + 1).last() == entry@);
        }
        max_lens.max_file_system_len =
        longer(max_lens.max_file_system_len, entry.file_system.as_str().unicode_len());
        max_lens.max_total_len = longer(max_lens.max_total_len, entry.total.as_str().unicode_len());
        max_lens.max_used_len = longer(max_lens.max_used_len, entry.used.as_str().unicode_len());
        max_lens.max_available_len =
        longer(max_lens.max_available_len, entry.available.as_str().unicode_len());
        max_lens.max_capacity_len =
        longer(max_lens.max_capacity_len, entry.capacity.as_str().unicode_len());
        max_lens.max_mount_point_len =
        longer(max_lens.max_mount_point_len, entry.mount_point.as_str().unicode_len());
        i += 1;
    }
    assert(rows.take(i as int) =~= rows);
    max_lens
}

/// One line of the table as it is shown: the first column with spaces
/// after it, the next four with spaces before them, the last as it is; one
/// space between columns and a line feed at the end.
pub open spec fn line_text(row: FormatEntryView, lens: ColumnWidths) -> Seq<char> {
    pad_right(row.file_system, lens.file_system) + seq![' '] + pad_left(row.total, lens.total)
        + seq![' '] + pad_left(row.used, lens.used) + seq![' '] + pad_left(
        row.available,
        lens.available,
    ) + seq![' '] + pad_left(row.capacity, lens.capacity) + seq![' '] + row.mount_point
        + seq!['\n']
}

/// The lines of `rows` one after another, each laid out to the widths `lens`.
pub open spec fn lines_text(rows: Seq<FormatEntryView>, lens: ColumnWidths) -> Seq<char>
    decreases rows.len(),
{
    if rows.len() == 0 {
        Seq::<char>::empty()
    } else {
        lines_text(rows.drop_last(), lens) + line_text(rows.last(), lens)
    }
}

/// The table as it is shown, given its lines with the heading first: every
/// line laid out to the widths of the whole table, or no text at all where
/// the heading is all there is.
pub open spec fn table_text(rows: Seq<FormatEntryView>) -> Seq<char> {
    if rows.len() > 1 {
        lines_text(rows, max_lengths(rows))
    } else {
        Seq::<char>::empty()
    }
}

/// Appends one line of the table to `out`.
pub fn push_format_entry(out: &mut String, format_entry: &FormatEntry, max_lens: &FormatMaxLengths)
    ensures
        final(out)@ == old(out)@ + line_text(format_entry@, max_lens@),
{
    proof {
        reveal_strlit(" ");
        reveal_strlit("\n");
    }
    push_left_aligned(out, format_entry.file_system.as_str(), max_lens.max_file_system_len);
    out.append(" ");
    push_right_aligned(out, format_entry.total.as_str(), max_lens.max_total_len);
    out.append(" ");
    push_right_aligned(out, format_entry.used.as_str(), max_lens.max_used_len);
    out.append(" ");
    push_right_aligned(out, format_entry.available.as_str(), max_lens.max_available_len);
    out.append(" ");
    push_right_aligned(out, format_entry.capacity.as_str(), max_lens.max_capacity_len);
    out.append(" ");
    out.append(format_entry.mount_point.as_str());
    out.append("\n");
    assert(out@ =~= old(out)@ + line_text(format_entry@, max_lens@));
}

/// Lays out the lines of the table to the given widths, as one text.
pub fn render_format_entries(format_entries: &[FormatEntry], max_lens: &FormatMaxLengths) -> (text:
    String)
    ensures
        text@ == lines_text(rows_view(format_entries@), max_lens@),
{
    let mut text: String = String::new();
    let ghost rows = rows_view(format_entries@);
    let mut i: usize = 0;
    assert(rows.take(0) =~= Seq::<FormatEntryView>::empty());
    while i < format_entries.len()
        invariant
            i <= format_entries.len(),
            rows == rows_view(format_entries@),
            text@ == lines_text(rows.take(i as int), max_lens@),
        decreases format_entries.len() - i,
    {
        proof {
            assert(rows.take(i + 1).drop_last() =~= rows.take(i as int));
            assert(rows.take(i + 1).last() == format_entries[i as int]@);
        }
        push_format_entry(&mut text, &format_entries[i], max_lens);
        i += 1;
    }
    assert(rows.take(i as int) =~= rows);
    text
}

/// Lays out the whole table, heading first, as the text to show: nothing
/// where no line follows the heading.
pub fn render_table(format_entries: &[FormatEntry]) -> (text: String)
    ensures
        text@ == table_text(rows_view(format_entries@)),
        format_entries.len() <= 1 ==> text@.len() == 0,
{
    if format_entries.len() > 1 {
        let max_lens: FormatMaxLengths = calculate_format_max_lens(format_entries);
        render_format_entries(format_entries, &max_lens)
    } else {
        String::new()
    }
}

/// Padding brings a text that fits to exactly the width; a longer text
/// stays as it is.
pub proof fn lemma_padded_length(text: Seq<char>, width: nat)
    ensures
        pad_right(text, width).len() == if text.len() <= width {
            width
        } else {
            text.len()
        },
        pad_left(text, width).len() == pad_right(text, width).len(),
{
}

/// In the table every line's first column takes the same number of
/// characters, the heading's too: the width of the column, which is the
/// length of its longest text.
pub proof fn lemma_first_column_is_even(rows: Seq<FormatEntryView>, i: int)
    requires
        0 <= i < rows.len(),
    ensures
        pad_right(rows[i].file_system, max_lengths(rows).file_system).len() == column_width(
            rows,
            |row: FormatEntryView| row.file_system,
        ),
{
    lemma_column_width_is_max(rows, |row: FormatEntryView| row.file_system);
    lemma_padded_length(rows[i].file_system, max_lengths(rows).file_system);
}

/// A table of the heading alone, or of nothing, shows as no text at all.
pub proof fn lemma_heading_alone_is_silent(rows: Seq<FormatEntryView>)
    requires
        rows.len() <= 1,
    ensures
        table_text(rows) == Seq::<char>::empty(),
{
}

} // verus!
