use luksctl::error::LuksError;
use luksctl::store::{
    check_entry, check_record_slot, decode_record, encode_record, escape_mount_path, prepare_record, EntryKind,
    MountRecord,
};

#[test]
fn escape_replaces_separators() {
    assert_eq!(escape_mount_path("/mnt/secure"), Ok("_mnt_secure".to_string()));
    assert_eq!(escape_mount_path("/"), Ok("_".to_string()));
}

#[test]
fn escape_rejections() {
    assert_eq!(escape_mount_path(".hidden"), Err(LuksError::TraversalDetected));
    assert_eq!(escape_mount_path("/mnt/../etc"), Err(LuksError::TraversalDetected));
    assert_eq!(escape_mount_path("/mnt/a..b"), Err(LuksError::TraversalDetected));
    assert_eq!(escape_mount_path("/mnt/a\0"), Err(LuksError::PathInvalid));
    let long = format!("/{}", "a".repeat(255));
    assert_eq!(escape_mount_path(&long), Err(LuksError::NameTooLong));
    let fits = format!("/{}", "a".repeat(254));
    assert_eq!(escape_mount_path(&fits), Ok(format!("_{}", "a".repeat(254))));
}

#[test]
fn record_text_format() {
    assert_eq!(encode_record("luks-1", "/dev/sdb1"), "luks-1:/dev/sdb1");
}

#[test]
fn record_round_trip() {
    let file = prepare_record("/mnt/secure", "luks-0123", "/dev/sdb1").unwrap();
    assert_eq!(file.file_name, "_mnt_secure");
    assert_eq!(file.content, "luks-0123:/dev/sdb1");
    assert_eq!(
        decode_record(&file.content),
        Ok(Some(MountRecord { mapper_name: "luks-0123".to_string(), device: "/dev/sdb1".to_string() }))
    );
}

#[test]
fn record_decoding_cases() {
    assert_eq!(decode_record("no separator"), Ok(None));
    assert_eq!(decode_record(""), Ok(None));
    assert_eq!(
        decode_record("luks-a:/dev/x:y"),
        Ok(Some(MountRecord { mapper_name: "luks-a".to_string(), device: "/dev/x:y".to_string() }))
    );
    assert_eq!(decode_record("cryptroot:/dev/sda2"), Err(LuksError::NameNotOwned));
    assert_eq!(decode_record("luks-a/b:/dev/sda2"), Err(LuksError::NameInvalid));
    let big = format!("luks-a:/dev/{}", "x".repeat(1100));
    assert_eq!(decode_record(&big), Err(LuksError::RecordTooLarge));
}

#[test]
fn prepare_rejects_unowned_names() {
    assert_eq!(prepare_record("/mnt/x", "cryptroot", "/dev/sda"), Err(LuksError::NameNotOwned));
    assert_eq!(prepare_record("/mnt/x", "bad name", "/dev/sda"), Err(LuksError::NameInvalid));
    assert_eq!(prepare_record(".x", "luks-1", "/dev/sda"), Err(LuksError::TraversalDetected));
}

#[test]
fn entry_decisions() {
    assert_eq!(check_entry(EntryKind::Absent), Ok(false));
    assert_eq!(check_entry(EntryKind::RegularFile), Ok(true));
    assert_eq!(check_entry(EntryKind::Other), Err(LuksError::TamperDetected));
}

#[test]
fn remove_twice_is_quiet() {
    assert_eq!(check_entry(EntryKind::RegularFile), Ok(true));
    assert_eq!(check_entry(EntryKind::Absent), Ok(false));
}

#[test]
fn record_slot_refuses_links() {
    assert_eq!(check_record_slot(EntryKind::Other), Err(LuksError::TamperDetected));
    assert_eq!(check_record_slot(EntryKind::Absent), Ok(()));
    assert_eq!(check_record_slot(EntryKind::RegularFile), Ok(()));
}
