use mntdf::mount::MountEntry;
use mntdf::text::{decimal_string, digit_str, Signed};
use mntdf::usage::{mount_entry_to_format_entry, usage_format_entry, Options, Outcome, StatVFs};

fn entry(spec: &str, file: &str) -> MountEntry {
    MountEntry { spec: spec.to_string(), file: file.to_string() }
}

fn stats(frsize: u64, blocks: u64, bfree: u64, bavail: u64) -> StatVFs {
    StatVFs { bsize: 4096, frsize, blocks, bfree, bavail }
}

fn row_of(outcome: Outcome) -> mntdf::usage::FormatEntry {
    match outcome {
        Outcome::Row(row) => row,
        other => panic!("no row: {:?}", other),
    }
}

#[test]
fn worked_figures_in_half_kilobytes() {
    let row = usage_format_entry(
        &entry("/dev/sda1", "/"),
        &stats(4096, 1000, 200, 150),
        &Options { kilo_flag: false },
    );
    assert_eq!(row.file_system, "/dev/sda1");
    assert_eq!(row.total, "8000");
    assert_eq!(row.used, "6400");
    assert_eq!(row.available, "1200");
    assert_eq!(row.capacity, "85%");
    assert_eq!(row.mount_point, "/");
}

#[test]
fn worked_figures_in_kilobytes() {
    let row = usage_format_entry(
        &entry("/dev/sda1", "/"),
        &stats(4096, 1000, 200, 150),
        &Options { kilo_flag: true },
    );
    assert_eq!(row.total, "4000");
    assert_eq!(row.used, "3200");
    assert_eq!(row.available, "600");
    assert_eq!(row.capacity, "85%");
}

#[test]
fn total_and_used_round_up_available_rounds_down() {
    let row = usage_format_entry(&entry("s", "/m"), &stats(100, 11, 4, 3), &Options { kilo_flag: false });
    // 1100 / 512 = 2.1..., 700 / 512 = 1.3..., 300 / 512 = 0.5...
    assert_eq!(row.total, "3");
    assert_eq!(row.used, "2");
    assert_eq!(row.available, "0");
    // 700 / 10 = 70
    assert_eq!(row.capacity, "70%");
}

#[test]
fn capacity_rounds_up() {
    let row = usage_format_entry(&entry("s", "/m"), &stats(512, 3, 2, 2), &Options { kilo_flag: false });
    // used 1 of 3: 33.3...
    assert_eq!(row.capacity, "34%");
    let row = usage_format_entry(&entry("s", "/m"), &stats(512, 4, 3, 3), &Options { kilo_flag: false });
    assert_eq!(row.capacity, "25%");
}

#[test]
fn capacity_goes_by_used_and_available_not_by_total() {
    // 100 blocks, 50 free of which 10 may be taken: 50 of 60.
    let row = usage_format_entry(&entry("s", "/m"), &stats(512, 100, 50, 10), &Options { kilo_flag: false });
    assert_eq!(row.capacity, "84%");
}

#[test]
fn nothing_used_nothing_available_is_zero_percent() {
    let row = usage_format_entry(&entry("s", "/m"), &stats(4096, 10, 10, 0), &Options { kilo_flag: false });
    assert_eq!(row.capacity, "0%");
    let row = usage_format_entry(&entry("s", "/m"), &stats(0, 0, 0, 0), &Options { kilo_flag: true });
    assert_eq!(row.capacity, "0%");
    assert_eq!(row.total, "0");
    assert_eq!(row.used, "0");
    assert_eq!(row.available, "0");
}

#[test]
fn full_filesystem_is_one_hundred_percent() {
    let row = usage_format_entry(&entry("s", "/m"), &stats(1024, 7, 0, 0), &Options { kilo_flag: true });
    assert_eq!(row.capacity, "100%");
    assert_eq!(row.total, "7");
    assert_eq!(row.used, "7");
    assert_eq!(row.available, "0");
}

#[test]
fn largest_counters_do_not_overflow() {
    let row = usage_format_entry(
        &entry("s", "/m"),
        &stats(u64::MAX, u64::MAX, 0, u64::MAX),
        &Options { kilo_flag: false },
    );
    // (2^64 - 1)^2 = 340282366920938463426481119284349108225
    assert_eq!(row.total, "664613997892457936379845936102244353");
    assert_eq!(row.used, "664613997892457936379845936102244353");
    assert_eq!(row.available, "664613997892457936379845936102244352");
    assert_eq!(row.capacity, "50%");
}

#[test]
fn more_free_than_total_gives_negative_use() {
    let row = usage_format_entry(&entry("s", "/m"), &stats(512, 10, 13, 9), &Options { kilo_flag: true });
    // used -3 blocks: -1536 bytes, -1.5 units, rounded up -1; whole 6: -300 / 6 = -50
    assert_eq!(row.total, "5");
    assert_eq!(row.used, "-1");
    assert_eq!(row.available, "4");
    assert_eq!(row.capacity, "-50%");
    let row = usage_format_entry(&entry("s", "/m"), &stats(512, 10, 13, 1), &Options { kilo_flag: false });
    // used -3, whole -2: 300 / 2 = 150
    assert_eq!(row.used, "-3");
    assert_eq!(row.capacity, "150%");
    let row = usage_format_entry(&entry("s", "/m"), &stats(512, 10, 13, 3), &Options { kilo_flag: false });
    assert_eq!(row.capacity, "0%");
    let row = usage_format_entry(&entry("s", "/m"), &stats(512, 10, 11, 8), &Options { kilo_flag: false });
    // used -1, whole 7: -100 / 7 = -14.2..., rounded up -14
    assert_eq!(row.capacity, "-14%");
    let row = usage_format_entry(&entry("s", "/m"), &stats(100, 10, 11, 8), &Options { kilo_flag: false });
    // -100 bytes: -0.19... units, rounded up 0
    assert_eq!(row.used, "0");
}

#[test]
fn blockless_filesystem_is_skipped_in_a_listing() {
    let outcome = mount_entry_to_format_entry(
        &entry("proc", "/proc"),
        &Ok(stats(4096, 0, 0, 0)),
        &Options { kilo_flag: false },
        false,
    );
    assert!(matches!(outcome, Outcome::Skip));
}

#[test]
fn blockless_filesystem_is_reported_when_asked_for() {
    let outcome = mount_entry_to_format_entry(
        &entry("proc", "/proc"),
        &Ok(stats(4096, 0, 0, 0)),
        &Options { kilo_flag: false },
        true,
    );
    let row = row_of(outcome);
    assert_eq!(row.file_system, "proc");
    assert_eq!(row.total, "0");
    assert_eq!(row.used, "0");
    assert_eq!(row.available, "0");
    assert_eq!(row.capacity, "0%");
    assert_eq!(row.mount_point, "/proc");
}

#[test]
fn filesystem_with_blocks_is_reported_in_a_listing() {
    let outcome = mount_entry_to_format_entry(
        &entry("/dev/sda1", "/"),
        &Ok(stats(4096, 1000, 200, 150)),
        &Options { kilo_flag: false },
        false,
    );
    assert_eq!(row_of(outcome).total, "8000");
}

#[test]
fn failed_reading_is_a_complaint() {
    for is_vfs in [false, true] {
        let outcome = mount_entry_to_format_entry(
            &entry("/dev/sdb1", "/mnt/usb"),
            &Err("Permission denied (os error 13)".to_string()),
            &Options { kilo_flag: false },
            is_vfs,
        );
        match outcome {
            Outcome::QueryFailed(text) => assert_eq!(text, "/mnt/usb: Permission denied (os error 13)"),
            other => panic!("no complaint: {:?}", other),
        }
    }
}

#[test]
fn numerals() {
    assert_eq!(decimal_string(0), "0");
    assert_eq!(decimal_string(7), "7");
    assert_eq!(decimal_string(10), "10");
    assert_eq!(decimal_string(1234567890), "1234567890");
    assert_eq!(decimal_string(u128::MAX), "340282366920938463463374607431768211455");
    for d in 0..10u8 {
        assert_eq!(digit_str(d), format!("{}", d));
    }
}

#[test]
fn signed_numerals() {
    assert_eq!(Signed { negative: false, magnitude: 42 }.to_text(), "42");
    assert_eq!(Signed { negative: true, magnitude: 42 }.to_text(), "-42");
    assert_eq!(Signed { negative: true, magnitude: 0 }.to_text(), "0");
    assert_eq!(Signed { negative: false, magnitude: 0 }.to_text(), "0");
}
