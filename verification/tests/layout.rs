use mntdf::layout::{
    calculate_format_max_lens, header_format_entry, push_format_entry, render_format_entries,
    render_table, FormatMaxLengths,
};
use mntdf::text::{push_left_aligned, push_right_aligned, push_spaces};
use mntdf::usage::{FormatEntry, Options};

fn row(file_system: &str, total: &str, used: &str, available: &str, capacity: &str, mount_point: &str) -> FormatEntry {
    FormatEntry {
        file_system: file_system.to_string(),
        total: total.to_string(),
        used: used.to_string(),
        available: available.to_string(),
        capacity: capacity.to_string(),
        mount_point: mount_point.to_string(),
    }
}

#[test]
fn heading_names_the_unit() {
    let header = header_format_entry(&Options { kilo_flag: false });
    assert_eq!(header.file_system, "Filesystem");
    assert_eq!(header.total, "512-blocks");
    assert_eq!(header.used, "Used");
    assert_eq!(header.available, "Available");
    assert_eq!(header.capacity, "Capacity");
    assert_eq!(header.mount_point, "Mounted on");
    let header = header_format_entry(&Options { kilo_flag: true });
    assert_eq!(header.total, "1024-blocks");
    assert_eq!(header.file_system, "Filesystem");
}

#[test]
fn column_is_as_wide_as_its_longest_text() {
    let rows = vec![
        row("abc", "1", "22", "333", "4%", "/a"),
        row("abcdefghij", "55555", "6", "7", "88%", "/bb/cc"),
        row("a", "9", "0", "1", "100%", "/"),
    ];
    let lens = calculate_format_max_lens(&rows);
    assert_eq!(lens.max_file_system_len, 10);
    assert_eq!(lens.max_total_len, 5);
    assert_eq!(lens.max_used_len, 2);
    assert_eq!(lens.max_available_len, 3);
    assert_eq!(lens.max_capacity_len, 4);
    assert_eq!(lens.max_mount_point_len, 6);
}

#[test]
fn source_column_is_ten_wide_on_every_line() {
    let rows = vec![
        row("src", "t", "u", "a", "c", "m"),
        row("abc", "1", "2", "3", "4", "/a"),
        row("abcdefghij", "1", "2", "3", "4", "/b"),
        row("a", "1", "2", "3", "4", "/c"),
    ];
    let lens = calculate_format_max_lens(&rows);
    assert_eq!(lens.max_file_system_len, 10);
    let text = render_format_entries(&rows, &lens);
    let lines: Vec<&str> = text.lines().collect();
    assert_eq!(lines.len(), 4);
    assert_eq!(lines[0], "src        t u a c m");
    assert_eq!(lines[1], "abc        1 2 3 4 /a");
    assert_eq!(lines[2], "abcdefghij 1 2 3 4 /b");
    assert_eq!(lines[3], "a          1 2 3 4 /c");
}

#[test]
fn widths_of_no_lines_are_zero() {
    let lens = calculate_format_max_lens(&[]);
    assert_eq!(lens.max_file_system_len, 0);
    assert_eq!(lens.max_total_len, 0);
    assert_eq!(lens.max_used_len, 0);
    assert_eq!(lens.max_available_len, 0);
    assert_eq!(lens.max_capacity_len, 0);
    assert_eq!(lens.max_mount_point_len, 0);
}

#[test]
fn widths_count_characters_not_bytes() {
    let rows = vec![row("caf\u{e9}", "1", "2", "3", "4", "/\u{e9}\u{e9}")];
    let lens = calculate_format_max_lens(&rows);
    assert_eq!(lens.max_file_system_len, 4);
    assert_eq!(lens.max_mount_point_len, 3);
}

#[test]
fn table_is_laid_out_in_columns() {
    let rows = vec![
        header_format_entry(&Options { kilo_flag: false }),
        row("/dev/sda1", "8000", "6400", "1200", "85%", "/"),
        row("tmpfs", "16", "0", "16", "0%", "/run/user/1000"),
    ];
    let text = render_table(&rows);
    assert_eq!(
        text,
        "Filesystem 512-blocks Used Available Capacity Mounted on\n\
         /dev/sda1        8000 6400      1200      85% /\n\
         tmpfs              16    0        16       0% /run/user/1000\n"
    );
}

#[test]
fn heading_alone_shows_nothing() {
    let rows = vec![header_format_entry(&Options { kilo_flag: true })];
    assert_eq!(render_table(&rows), "");
    assert_eq!(render_table(&[]), "");
}

#[test]
fn last_column_is_not_padded() {
    let rows = vec![row("a", "b", "c", "d", "e", "long mount point"), row("a", "b", "c", "d", "e", "/")];
    let text = render_table(&rows);
    assert_eq!(text, "a b c d e long mount point\na b c d e /\n");
}

#[test]
fn text_wider_than_its_column_is_not_cut() {
    let lens = FormatMaxLengths {
        max_file_system_len: 2,
        max_total_len: 2,
        max_used_len: 6,
        max_available_len: 0,
        max_capacity_len: 3,
        max_mount_point_len: 0,
    };
    let mut out = String::from(">");
    push_format_entry(&mut out, &row("abcd", "12345", "7", "8", "9%", "/m"), &lens);
    assert_eq!(out, ">abcd 12345      7 8  9% /m\n");
}

#[test]
fn padding() {
    let mut out = String::from("x");
    push_spaces(&mut out, 3);
    assert_eq!(out, "x   ");
    push_spaces(&mut out, 0);
    assert_eq!(out, "x   ");
    let mut out = String::new();
    push_left_aligned(&mut out, "ab", 4);
    out.push('|');
    push_right_aligned(&mut out, "ab", 4);
    out.push('|');
    push_left_aligned(&mut out, "abcdef", 4);
    out.push('|');
    push_right_aligned(&mut out, "abcdef", 4);
    out.push('|');
    push_right_aligned(&mut out, "\u{e9}", 3);
    assert_eq!(out, "ab  |  ab|abcdef|abcdef|  \u{e9}");
}
