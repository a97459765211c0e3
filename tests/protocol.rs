use luksctl::attach::{Attach, AttachAction, AttachEvent, AttachRequest};
use luksctl::detach::{Detach, DetachAction, DetachEvent, DetachRequest};
use luksctl::error::LuksError;
use luksctl::gateway::MountOptions;
use luksctl::mapper::generate_mapper_name;
use luksctl::store::{decode_record, prepare_record, MountRecord};
use luksctl::validate::PathStat;

const BLOCK: PathStat = PathStat { exists: true, is_symlink: false, is_block_device: true, is_dir: false };
const DIR: PathStat = PathStat { exists: true, is_symlink: false, is_block_device: false, is_dir: true };

fn request(options: MountOptions) -> AttachRequest {
    AttachRequest {
        device: "/dev/sdb1".to_string(),
        mount_point: "/mnt/secure".to_string(),
        create_mount_point: false,
        options,
    }
}

/// Stub operations: open succeeds, mount succeeds or fails as asked; counts closes.
struct Stubs {
    mount_ok: bool,
    closes: Vec<String>,
    stored: Option<(String, String)>,
}

fn run_attach(req: AttachRequest, stubs: &mut Stubs, name: &str) -> AttachAction {
    let mut run = Attach::new(req);
    let mut action = run.step(AttachEvent::Started { privileged: true, device_stat: BLOCK });
    loop {
        let ev = match &action {
            AttachAction::Probe { .. } => AttachEvent::Probed(Ok(true)),
            AttachAction::CreateMountPoint { .. } => AttachEvent::MountPointCreated(Ok(())),
            AttachAction::InspectMountPoint { .. } => AttachEvent::MountPointInspected(DIR),
            AttachAction::ReserveName => AttachEvent::NameReserved(Ok(name.to_string())),
            AttachAction::Open { .. } => AttachEvent::Opened(Ok(())),
            AttachAction::Mount { .. } => {
                if stubs.mount_ok {
                    AttachEvent::Mounted(Ok(()))
                } else {
                    AttachEvent::Mounted(Err(LuksError::MountFailed("wrong fs type".to_string())))
                }
            }
            AttachAction::Close { mapper_name } => {
                stubs.closes.push(mapper_name.clone());
                AttachEvent::Closed(Ok(()))
            }
            AttachAction::Record { mount_point, mapper_name, device } => {
                let file = prepare_record(mount_point, mapper_name, device).unwrap();
                stubs.stored = Some((file.file_name, file.content));
                AttachEvent::Recorded(Ok(()))
            }
            AttachAction::Succeed { .. } | AttachAction::Fail(_) => return action,
        };
        assert!(run.accepts(&ev));
        action = run.step(ev);
    }
}

#[test]
fn attach_rolls_back_failed_mount() {
    let mut stubs = Stubs { mount_ok: false, closes: vec![], stored: None };
    let result = run_attach(request(MountOptions::default()), &mut stubs, "luks-1234");
    assert_eq!(result, AttachAction::Fail(LuksError::MountFailed("wrong fs type".to_string())));
    assert_eq!(stubs.closes, vec!["luks-1234".to_string()]);
    assert_eq!(stubs.stored, None);
}

#[test]
fn attach_end_to_end() {
    let name = generate_mapper_name();
    let mut stubs = Stubs { mount_ok: true, closes: vec![], stored: None };
    let opts = MountOptions { read_only: false, fs_type: None, options: None };
    let result = run_attach(request(opts), &mut stubs, &name);
    assert_eq!(result, AttachAction::Succeed { mapper_name: name.clone() });
    assert!(stubs.closes.is_empty());
    let (file, content) = stubs.stored.unwrap();
    assert_eq!(file, "_mnt_secure");
    assert_eq!(content, format!("{}:/dev/sdb1", name));
    assert!(content.starts_with("luks-"));
    assert_eq!(
        decode_record(&content),
        Ok(Some(MountRecord { mapper_name: name, device: "/dev/sdb1".to_string() }))
    );
}

#[test]
fn attach_mounts_the_mapper_device() {
    let mut run = Attach::new(request(MountOptions::default()));
    run.step(AttachEvent::Started { privileged: true, device_stat: BLOCK });
    run.step(AttachEvent::Probed(Ok(true)));
    run.step(AttachEvent::MountPointInspected(DIR));
    let open = run.step(AttachEvent::NameReserved(Ok("luks-9".to_string())));
    assert_eq!(open, AttachAction::Open { device: "/dev/sdb1".to_string(), mapper_name: "luks-9".to_string() });
    let mount = run.step(AttachEvent::Opened(Ok(())));
    assert_eq!(
        mount,
        AttachAction::Mount { device: "/dev/mapper/luks-9".to_string(), mount_point: "/mnt/secure".to_string() }
    );
}

#[test]
fn attach_refusals_before_any_operation() {
    let mut run = Attach::new(request(MountOptions::default()));
    assert_eq!(
        run.step(AttachEvent::Started { privileged: false, device_stat: BLOCK }),
        AttachAction::Fail(LuksError::NotPrivileged)
    );
    assert!(!run.accepts(&AttachEvent::Probed(Ok(true))));

    let mut run = Attach::new(request(MountOptions::default()));
    run.step(AttachEvent::Started { privileged: true, device_stat: BLOCK });
    assert_eq!(run.step(AttachEvent::Probed(Ok(false))), AttachAction::Fail(LuksError::NotEncrypted));

    let bad = MountOptions { read_only: false, fs_type: None, options: Some("exec;id".to_string()) };
    let mut run = Attach::new(request(bad));
    run.step(AttachEvent::Started { privileged: true, device_stat: BLOCK });
    run.step(AttachEvent::Probed(Ok(true)));
    assert_eq!(
        run.step(AttachEvent::MountPointInspected(DIR)),
        AttachAction::Fail(LuksError::OptionInjection)
    );
}

#[test]
fn attach_creates_mount_point_when_asked() {
    let mut req = request(MountOptions::default());
    req.create_mount_point = true;
    let mut run = Attach::new(req);
    run.step(AttachEvent::Started { privileged: true, device_stat: BLOCK });
    assert_eq!(
        run.step(AttachEvent::Probed(Ok(true))),
        AttachAction::CreateMountPoint { mount_point: "/mnt/secure".to_string() }
    );
    assert_eq!(
        run.step(AttachEvent::MountPointCreated(Ok(()))),
        AttachAction::InspectMountPoint { mount_point: "/mnt/secure".to_string() }
    );
}

#[test]
fn attach_record_failure_is_reported_without_rollback() {
    let mut run = Attach::new(request(MountOptions::default()));
    run.step(AttachEvent::Started { privileged: true, device_stat: BLOCK });
    run.step(AttachEvent::Probed(Ok(true)));
    run.step(AttachEvent::MountPointInspected(DIR));
    run.step(AttachEvent::NameReserved(Ok("luks-9".to_string())));
    run.step(AttachEvent::Opened(Ok(())));
    run.step(AttachEvent::Mounted(Ok(())));
    assert_eq!(
        run.step(AttachEvent::Recorded(Err(LuksError::PersistenceFailed))),
        AttachAction::Fail(LuksError::PersistenceFailed)
    );
}

fn detach_request(force: bool) -> DetachRequest {
    DetachRequest { mount_point: "/mnt/secure".to_string(), force }
}

#[test]
fn detach_with_record() {
    let mut run = Detach::new(detach_request(true));
    assert_eq!(
        run.step(DetachEvent::Started { privileged: true }),
        DetachAction::CheckMounted { mount_point: "/mnt/secure".to_string() }
    );
    assert_eq!(
        run.step(DetachEvent::MountChecked(Ok(true))),
        DetachAction::LookUpRecord { mount_point: "/mnt/secure".to_string() }
    );
    let rec = MountRecord { mapper_name: "luks-7".to_string(), device: "/dev/sdb1".to_string() };
    assert_eq!(
        run.step(DetachEvent::RecordFound(Ok(Some(rec)))),
        DetachAction::Unmount { mount_point: "/mnt/secure".to_string(), lazy: true }
    );
    assert_eq!(
        run.step(DetachEvent::Unmounted(Ok(()))),
        DetachAction::Close { mapper_name: "luks-7".to_string() }
    );
    assert_eq!(
        run.step(DetachEvent::Closed(Ok(()))),
        DetachAction::RemoveRecord { mount_point: "/mnt/secure".to_string() }
    );
    assert_eq!(
        run.step(DetachEvent::Removed(Err(LuksError::PersistenceFailed))),
        DetachAction::Succeed { mapper_name: "luks-7".to_string() }
    );
}

#[test]
fn detach_falls_back_to_mount_table() {
    let mut run = Detach::new(detach_request(false));
    run.step(DetachEvent::Started { privileged: true });
    run.step(DetachEvent::MountChecked(Ok(true)));
    assert_eq!(
        run.step(DetachEvent::RecordFound(Ok(None))),
        DetachAction::Discover { mount_point: "/mnt/secure".to_string() }
    );
    assert_eq!(
        run.step(DetachEvent::Discovered(Ok(Some("luks-8".to_string())))),
        DetachAction::Unmount { mount_point: "/mnt/secure".to_string(), lazy: false }
    );
}

#[test]
fn detach_failures() {
    let mut run = Detach::new(detach_request(false));
    run.step(DetachEvent::Started { privileged: true });
    run.step(DetachEvent::MountChecked(Ok(true)));
    run.step(DetachEvent::RecordFound(Ok(None)));
    assert_eq!(run.step(DetachEvent::Discovered(Ok(None))), DetachAction::Fail(LuksError::MappingNotFound));

    let mut run = Detach::new(detach_request(false));
    run.step(DetachEvent::Started { privileged: true });
    assert_eq!(run.step(DetachEvent::MountChecked(Ok(false))), DetachAction::Fail(LuksError::NotMounted));

    let mut run = Detach::new(detach_request(false));
    assert_eq!(run.step(DetachEvent::Started { privileged: false }), DetachAction::Fail(LuksError::NotPrivileged));

    let mut run = Detach::new(DetachRequest { mount_point: "mnt".to_string(), force: false });
    assert_eq!(run.step(DetachEvent::Started { privileged: true }), DetachAction::Fail(LuksError::PathInvalid));

    let mut run = Detach::new(detach_request(false));
    run.step(DetachEvent::Started { privileged: true });
    run.step(DetachEvent::MountChecked(Ok(true)));
    run.step(DetachEvent::RecordFound(Ok(None)));
    assert_eq!(
        run.step(DetachEvent::Discovered(Ok(Some("bad/name".to_string())))),
        DetachAction::Fail(LuksError::NameInvalid)
    );
}
