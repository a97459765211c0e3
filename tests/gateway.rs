use luksctl::error::LuksError;
use luksctl::gateway::{
    classify_failure, close_arguments, contains_text, mount_arguments, mount_option_string,
    open_arguments, probe_arguments, unmount_arguments, MountOptions, ToolOp,
};
use luksctl::validate::{validate_mount_options, PathStat};

fn s(v: &[&str]) -> Vec<String> {
    v.iter().map(|x| x.to_string()).collect()
}

const DEV: PathStat = PathStat { exists: true, is_symlink: true, is_block_device: true, is_dir: false };
const DIR: PathStat = PathStat { exists: true, is_symlink: false, is_block_device: false, is_dir: true };

#[test]
fn forced_flags_always_first() {
    let tokens = validate_mount_options("noatime,uid=1000").unwrap();
    assert_eq!(mount_option_string(false, &tokens), "nosuid,nodev,noatime,uid=1000");
    assert_eq!(mount_option_string(true, &tokens), "nosuid,nodev,ro,noatime,uid=1000");
    assert_eq!(mount_option_string(false, &vec![]), "nosuid,nodev");
    let suid = validate_mount_options("suid,dev").unwrap();
    assert_eq!(mount_option_string(false, &suid), "nosuid,nodev,suid,dev");
}

#[test]
fn mount_arguments_full() {
    let opts = MountOptions {
        read_only: true,
        fs_type: Some("ext4".to_string()),
        options: Some("noatime".to_string()),
    };
    assert_eq!(
        mount_arguments("/dev/mapper/luks-1", &DEV, "/mnt/secure", &DIR, &opts),
        Ok(s(&["-t", "ext4", "-o", "nosuid,nodev,ro,noatime", "/dev/mapper/luks-1", "/mnt/secure"]))
    );
    let plain = MountOptions::default();
    assert_eq!(
        mount_arguments("/dev/mapper/luks-1", &DEV, "/mnt/secure", &DIR, &plain),
        Ok(s(&["-o", "nosuid,nodev", "/dev/mapper/luks-1", "/mnt/secure"]))
    );
}

#[test]
fn mount_arguments_errors() {
    let bad_fs = MountOptions { read_only: false, fs_type: Some("ext9000".to_string()), options: None };
    assert_eq!(
        mount_arguments("/dev/mapper/luks-1", &DEV, "/mnt/secure", &DIR, &bad_fs),
        Err(LuksError::UnsupportedFilesystem)
    );
    let bad_opts = MountOptions { read_only: false, fs_type: None, options: Some("ro;reboot".to_string()) };
    assert_eq!(
        mount_arguments("/dev/mapper/luks-1", &DEV, "/mnt/secure", &DIR, &bad_opts),
        Err(LuksError::OptionInjection)
    );
    assert_eq!(
        mount_arguments("/dev/mapper/luks-1", &DEV, "/mnt/secure", &DEV, &MountOptions::default()),
        Err(LuksError::NotADirectory)
    );
    assert_eq!(
        mount_arguments("relative", &DEV, "/mnt/secure", &DIR, &MountOptions::default()),
        Err(LuksError::PathInvalid)
    );
}

#[test]
fn unmount_arguments_lazy_and_immediate() {
    assert_eq!(unmount_arguments("/mnt/secure", false), Ok(s(&["/mnt/secure"])));
    assert_eq!(unmount_arguments("/mnt/secure", true), Ok(s(&["-l", "/mnt/secure"])));
    assert_eq!(unmount_arguments("/mnt/../x", true), Err(LuksError::PathInvalid));
    assert_eq!(unmount_arguments("/mnt/a..b", false), Ok(s(&["/mnt/a..b"])));
}

#[test]
fn open_close_probe_arguments() {
    assert_eq!(
        open_arguments("/dev/sdb1", &DEV, "luks-1"),
        Ok(s(&["open", "--type", "luks", "/dev/sdb1", "luks-1"]))
    );
    assert_eq!(open_arguments("/dev/sdb1", &DEV, "x;y"), Err(LuksError::NameInvalid));
    assert_eq!(open_arguments("/home/x", &DEV, "luks-1"), Err(LuksError::NotADeviceNode));
    assert_eq!(close_arguments("luks-1"), Ok(s(&["close", "luks-1"])));
    assert_eq!(close_arguments("../x"), Err(LuksError::NameInvalid));
    assert_eq!(probe_arguments("/dev/sdb1"), Ok(s(&["isLuks", "/dev/sdb1"])));
    assert_eq!(probe_arguments("/tmp/x"), Err(LuksError::NotADeviceNode));
    assert_eq!(probe_arguments("sdb1"), Err(LuksError::PathInvalid));
    assert_eq!(probe_arguments("/dev/disk/a..b"), Ok(s(&["isLuks", "/dev/disk/a..b"])));
    assert_eq!(probe_arguments("/dev/disk/.."), Err(LuksError::PathInvalid));
}

#[test]
fn failure_classification() {
    assert_eq!(
        classify_failure(ToolOp::Open, "No key available with this passphrase.\n"),
        LuksError::AuthenticationFailed
    );
    assert_eq!(classify_failure(ToolOp::Open, "wrong passphrase"), LuksError::AuthenticationFailed);
    assert_eq!(
        classify_failure(ToolOp::Open, "  Device sdb1 is busy.\n"),
        LuksError::OpenFailed("Device sdb1 is busy.".to_string())
    );
    assert_eq!(classify_failure(ToolOp::Close, "\tbusy\n"), LuksError::CloseFailed("busy".to_string()));
    assert_eq!(classify_failure(ToolOp::Mount, "bad fs "), LuksError::MountFailed("bad fs".to_string()));
    assert_eq!(classify_failure(ToolOp::Unmount, "x"), LuksError::UnmountFailed("x".to_string()));
    assert_eq!(classify_failure(ToolOp::Probe, ""), LuksError::ProbeFailed(String::new()));
}

#[test]
fn text_search() {
    assert!(contains_text("abcdef", "cde"));
    assert!(contains_text("abc", ""));
    assert!(!contains_text("abc", "abcd"));
    assert!(!contains_text("abc", "ac"));
}
