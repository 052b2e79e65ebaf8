use mntdf::mount::{resolve, resolve_index, MountEntry};
use mntdf::mtab::{find_mount, get_mounts};

fn entry(spec: &str, file: &str) -> MountEntry {
    MountEntry { spec: spec.to_string(), file: file.to_string() }
}

fn nested() -> Vec<MountEntry> {
    vec![entry("A", "/"), entry("B", "/home"), entry("C", "/home/user")]
}

#[test]
fn longest_mount_point_owns_the_path() {
    let found = resolve("/home/user/docs", &nested()).unwrap();
    assert_eq!(found.spec, "C");
    assert_eq!(found.file, "/home/user");
    assert_eq!(resolve_index("/home/user/docs", &nested()), Some(2));
}

#[test]
fn order_of_the_table_does_not_beat_length() {
    let mounts = vec![entry("C", "/home/user"), entry("A", "/"), entry("B", "/home")];
    assert_eq!(resolve_index("/home/user/docs", &mounts), Some(0));
    assert_eq!(resolve_index("/home/other", &mounts), Some(2));
    assert_eq!(resolve_index("/etc", &mounts), Some(1));
}

#[test]
fn prefix_goes_by_components_not_by_characters() {
    let mounts = vec![entry("A", "/"), entry("B", "/home")];
    assert_eq!(resolve_index("/homestead", &mounts), Some(0));
    assert_eq!(resolve_index("/home", &mounts), Some(1));
    assert_eq!(resolve_index("/home/", &mounts), Some(1));
}

#[test]
fn source_path_is_its_own_owner() {
    let mounts = vec![entry("/dev/root", "/"), entry("/dev/sdb1", "/mnt/usb"), entry("devtmpfs", "/dev")];
    let found = resolve("/dev/sdb1", &mounts).unwrap();
    assert_eq!(found.spec, "/dev/sdb1");
    assert_eq!(found.file, "/mnt/usb");
    assert_eq!(resolve_index("/dev/sdb2", &mounts), Some(2));
}

#[test]
fn source_that_is_no_absolute_path_is_no_shortcut() {
    let mounts = vec![entry("tmpfs", "/run"), entry("A", "/")];
    assert_eq!(resolve_index("tmpfs", &mounts), None);
}

#[test]
fn first_of_equal_sources_wins() {
    let mounts = vec![entry("A", "/"), entry("/dev/x", "/one"), entry("/dev/x", "/two")];
    assert_eq!(resolve_index("/dev/x", &mounts), Some(1));
}

#[test]
fn first_of_equal_mount_points_wins() {
    let mounts = vec![entry("first", "/data"), entry("second", "/data")];
    let found = resolve("/data/file", &mounts).unwrap();
    assert_eq!(found.spec, "first");
    assert_eq!(resolve_index("/data/file", &mounts), Some(0));
}

#[test]
fn path_outside_every_mount_has_no_owner() {
    let mounts = vec![entry("B", "/home"), entry("C", "/srv")];
    assert!(resolve("/etc/passwd", &mounts).is_none());
    assert_eq!(resolve_index("/etc/passwd", &mounts), None);
    assert!(resolve("/etc/passwd", &Vec::new()).is_none());
}

#[test]
fn mount_point_without_text_owns_nothing() {
    let mounts = vec![entry("odd", "")];
    assert_eq!(resolve_index("/anything", &mounts), None);
}

#[test]
fn length_counts_characters() {
    let mounts = vec![entry("A", "/"), entry("B", "/caf\u{e9}")];
    assert_eq!(resolve_index("/caf\u{e9}/menu", &mounts), Some(1));
}

#[test]
fn table_is_read_in_order() {
    let table = b"/dev/sda1 / ext4 rw,relatime 0 0\ntmpfs /run tmpfs rw,nosuid 0 0\n/dev/sda2 /home ext4 rw 0 0\n";
    let mounts = get_mounts(table).unwrap();
    assert_eq!(mounts.len(), 3);
    assert_eq!(mounts[0].spec, "/dev/sda1");
    assert_eq!(mounts[0].file, "/");
    assert_eq!(mounts[1].spec, "tmpfs");
    assert_eq!(mounts[1].file, "/run");
    assert_eq!(mounts[2].spec, "/dev/sda2");
    assert_eq!(mounts[2].file, "/home");
}

#[test]
fn empty_table_has_no_entries() {
    assert_eq!(get_mounts(b"").unwrap().len(), 0);
}

#[test]
fn one_bad_line_fails_the_whole_table() {
    let table = b"/dev/sda1 / ext4 rw 0 0\nbroken /line\n/dev/sda2 /home ext4 rw 0 0\n";
    let error = get_mounts(table).unwrap_err();
    assert_eq!(error.desc, "Mount parsing: Failed at line 1: Line parsing: Missing field #3 (vfstype)");
}

#[test]
fn relative_mount_point_fails_the_table() {
    let error = get_mounts(b"tmpfs run tmpfs rw 0 0\n").unwrap_err();
    assert_eq!(
        error.desc,
        "Mount parsing: Failed at line 0: Line parsing: Bad field #2 (file) value (not absolute path): run"
    );
}

#[test]
fn find_mount_reads_and_resolves() {
    let table = b"/dev/sda1 / ext4 rw 0 0\n/dev/sda2 /home ext4 rw 0 0\ntmpfs /home/user tmpfs rw 0 0\n";
    let found = find_mount("/home/user/docs", table).unwrap().unwrap();
    assert_eq!(found.spec, "tmpfs");
    assert_eq!(found.file, "/home/user");
    let found = find_mount("/dev/sda2", table).unwrap().unwrap();
    assert_eq!(found.file, "/home");
    assert!(find_mount("relative", table).unwrap().is_none());
}

#[test]
fn find_mount_fails_on_a_bad_line_after_a_match() {
    let table = b"/dev/sda1 / ext4 rw 0 0\nbroken\n";
    let error = find_mount("/etc", table).unwrap_err();
    assert_eq!(error.desc, "Mount parsing: Failed at line 1: Line parsing: Missing field #2 (file)");
}

#[test]
fn clone_keeps_both_texts() {
    let first = entry("/dev/sda1", "/boot");
    let copy = first.clone();
    assert_eq!(copy.spec, "/dev/sda1");
    assert_eq!(copy.file, "/boot");
}
