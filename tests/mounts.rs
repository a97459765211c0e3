use luksctl::mounts::{find_owned_mapper, is_mounted_in, parse_mount_table, MountEntry};

fn e(source: &str, target: &str) -> MountEntry {
    MountEntry { source: source.to_string(), target: target.to_string() }
}

const TABLE: &str = "proc /proc proc rw 0 0\n/dev/sda1 / ext4 rw 0 0\n\n/dev/mapper/luks-ab12 /mnt/secure ext4 rw,nosuid,nodev 0 0\r\nlonely\n";

#[test]
fn table_parsing() {
    assert_eq!(
        parse_mount_table(TABLE),
        vec![e("proc", "/proc"), e("/dev/sda1", "/"), e("/dev/mapper/luks-ab12", "/mnt/secure")]
    );
    assert_eq!(parse_mount_table(""), vec![]);
    assert_eq!(parse_mount_table("  a \t b  "), vec![e("a", "b")]);
}

#[test]
fn mounted_lookup() {
    let entries = parse_mount_table(TABLE);
    assert!(is_mounted_in(&entries, "/mnt/secure"));
    assert!(is_mounted_in(&entries, "/"));
    assert!(!is_mounted_in(&entries, "/mnt"));
}

#[test]
fn owned_mapper_discovery() {
    let entries = parse_mount_table(TABLE);
    assert_eq!(find_owned_mapper(&entries, "/mnt/secure"), Some("luks-ab12".to_string()));
    assert_eq!(find_owned_mapper(&entries, "/"), None);
    let crafted = vec![
        e("/dev/mapper/cryptroot", "/data"),
        e("/dev/mapper/luks-x/../y", "/data"),
        e("/dev/mapper/luks-good", "/data"),
    ];
    assert_eq!(find_owned_mapper(&crafted, "/data"), Some("luks-good".to_string()));
    assert_eq!(find_owned_mapper(&crafted[..2].to_vec(), "/data"), None);
}
