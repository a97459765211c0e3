//! The attach protocol as a state machine.
//!
//! Each call of `Attach::step` takes what the last requested action produced
//! and returns the next action. The caller carries out the actions (probing,
//! creating the mount point, generating a name, opening, mounting, closing,
//! recording) and reports each outcome back; the machine decides, including
//! the rollback of an open mapping when its mount fails.

use vstd::prelude::*;
use crate::error::LuksError;
use crate::gateway::{opt_view, MountOptions};
use crate::mapper::{get_mapper_path, mapper_path};
use crate::validate::{
    device_path_result, fs_type_result, mount_point_result, options_result, path_shape_ok,
    validate_device_path, validate_fs_type, validate_mount_options, validate_mount_point,
    validate_path, PathStat,
};

verus! {

/// What the caller asks to attach.
#[derive(Debug, Clone)]
pub struct AttachRequest {
    /// The encrypted block device.
    pub device: String,
    /// Where its filesystem is to be mounted.
    pub mount_point: String,
    /// Create the mount point when it is missing.
    pub create_mount_point: bool,
    /// How to mount it.
    pub options: MountOptions,
}

/// Where the attach protocol stands.
#[derive(Debug, Clone)]
pub enum AttachPhase {
    /// Nothing has happened yet.
    Idle,
    /// Waiting for the encryption probe.
    Probing,
    /// Waiting for the mount point to be created.
    CreatingMountPoint,
    /// Waiting for the facts about the mount point.
    InspectingMountPoint,
    /// All inputs are valid; waiting for a collision-free name.
    Reserving,
    /// Waiting for the open of the named mapping.
    Opening(String),
    /// The mapping is open; waiting for the mount.
    Mounting(String),
    /// The mount failed; waiting for the close of the mapping.
    RollingBack(String, LuksError),
    /// Mounted; waiting for the record to be stored.
    Recording(String),
    /// Attached under the named mapping.
    Done(String),
    /// Stopped with the error.
    Failed(LuksError),
}

/// The outcome of the last requested action.
#[derive(Debug)]
pub enum AttachEvent {
    /// The protocol begins; whether the process is privileged, and the facts
    /// about the device path.
    Started { privileged: bool, device_stat: PathStat },
    /// Whether the device carries an encrypted volume.
    Probed(Result<bool, LuksError>),
    /// The mount point was created, or not.
    MountPointCreated(Result<(), LuksError>),
    /// The facts about the mount point.
    MountPointInspected(PathStat),
    /// A collision-free mapper name, or why none was found.
    NameReserved(Result<String, LuksError>),
    /// The open operation's outcome.
    Opened(Result<(), LuksError>),
    /// The mount operation's outcome.
    Mounted(Result<(), LuksError>),
    /// The close operation's outcome.
    Closed(Result<(), LuksError>),
    /// The record store's outcome.
    Recorded(Result<(), LuksError>),
}

/// What the caller is to do next.
#[derive(Debug, Clone, PartialEq, Eq)]
pub enum AttachAction {
    /// Probe `device` for an encrypted volume header.
    Probe { device: String },
    /// Create the directory `mount_point`.
    CreateMountPoint { mount_point: String },
    /// Report the facts about `mount_point`.
    InspectMountPoint { mount_point: String },
    /// Generate a collision-free mapper name.
    ReserveName,
    /// Open `device` as the mapping `mapper_name`, feeding the secret.
    Open { device: String, mapper_name: String },
    /// Mount the mapper device `device` on `mount_point` with the request's options.
    Mount { device: String, mount_point: String },
    /// Close the mapping `mapper_name`.
    Close { mapper_name: String },
    /// Store the record of `mount_point`.
    Record { mount_point: String, mapper_name: String, device: String },
    /// Report success under `mapper_name`.
    Succeed { mapper_name: String },
    /// Report the error.
    Fail(LuksError),
}

/// Whether `ev` answers the action that `phase` waits for.
pub open spec fn attach_accepts(phase: AttachPhase, ev: AttachEvent) -> bool {
    match phase {
        AttachPhase::Idle => ev is Started,
        AttachPhase::Probing => ev is Probed,
        AttachPhase::CreatingMountPoint => ev is MountPointCreated,
        AttachPhase::InspectingMountPoint => ev is MountPointInspected,
        AttachPhase::Reserving => ev is NameReserved,
        AttachPhase::Opening(_) => ev is Opened,
        AttachPhase::Mounting(_) => ev is Mounted,
        AttachPhase::RollingBack(_, _) => ev is Closed,
        AttachPhase::Recording(_) => ev is Recorded,
        AttachPhase::Done(_) | AttachPhase::Failed(_) => false,
    }
}

/// The move to the failed phase with error `e`.
pub open spec fn fails_with(p: AttachPhase, a: AttachAction, e: LuksError) -> bool {
    p == AttachPhase::Failed(e) && a == AttachAction::Fail(e)
}

/// Every input that the mount will use is valid, given the facts about the
/// mount point; otherwise the first error.
pub open spec fn inputs_result(req: AttachRequest, mount_point_stat: PathStat) -> Result<
    (),
    LuksError,
> {
    let fs = opt_view(req.options.fs_type);
    let opts = opt_view(req.options.options);
    if mount_point_result(req.mount_point@, mount_point_stat) is Err {
        mount_point_result(req.mount_point@, mount_point_stat)
    } else if fs is Some && fs_type_result(fs->Some_0) is Err {
        fs_type_result(fs->Some_0)
    } else if opts is Some && options_result(opts->Some_0) is Err {
        Err(options_result(opts->Some_0)->Err_0)
    } else {
        Ok(())
    }
}

/// One step of the attach protocol: from `phase`, on `ev`, to phase `p`
/// with action `a`.
pub open spec fn attach_transition(
    req: AttachRequest,
    phase: AttachPhase,
    ev: AttachEvent,
    p: AttachPhase,
    a: AttachAction,
) -> bool {
    match (phase, ev) {
        (AttachPhase::Idle, AttachEvent::Started { privileged, device_stat }) => if !privileged {
            fails_with(p, a, LuksError::NotPrivileged)
        } else if device_path_result(req.device@, device_stat) is Err {
            fails_with(p, a, device_path_result(req.device@, device_stat)->Err_0)
        } else {
            p == AttachPhase::Probing && a == AttachAction::Probe { device: req.device }
        },
        (AttachPhase::Probing, AttachEvent::Probed(res)) => match res {
            Err(e) => fails_with(p, a, e),
            Ok(encrypted) => if !encrypted {
                fails_with(p, a, LuksError::NotEncrypted)
            } else if !path_shape_ok(req.mount_point@) {
                fails_with(p, a, LuksError::PathInvalid)
            } else if req.create_mount_point {
                p == AttachPhase::CreatingMountPoint && a == AttachAction::CreateMountPoint {
                    mount_point: req.mount_point,
                }
            } else {
                p == AttachPhase::InspectingMountPoint && a == AttachAction::InspectMountPoint {
                    mount_point: req.mount_point,
                }
            },
        },
        (AttachPhase::CreatingMountPoint, AttachEvent::MountPointCreated(res)) => match res {
            Err(e) => fails_with(p, a, e),
            Ok(_) => p == AttachPhase::InspectingMountPoint && a
                == AttachAction::InspectMountPoint { mount_point: req.mount_point },
        },
        (AttachPhase::InspectingMountPoint, AttachEvent::MountPointInspected(st)) => match inputs_result(req, st) {
            Err(e) => fails_with(p, a, e),
            Ok(_) => p == AttachPhase::Reserving && a == AttachAction::ReserveName,
        },
        (AttachPhase::Reserving, AttachEvent::NameReserved(res)) => match res {
            Err(e) => fails_with(p, a, e),
            Ok(name) => p == AttachPhase::Opening(name) && a == AttachAction::Open {
                device: req.device,
                mapper_name: name,
            },
        },
        (AttachPhase::Opening(name), AttachEvent::Opened(res)) => match res {
            Err(e) => fails_with(p, a, e),
            Ok(_) => p == AttachPhase::Mounting(name) && (a matches AttachAction::Mount {
                device,
                mount_point,
            } && device@ == mapper_path(name@) && mount_point == req.mount_point),
        },
        (AttachPhase::Mounting(name), AttachEvent::Mounted(res)) => match res {
            Err(e) => p == AttachPhase::RollingBack(name, e) && a == AttachAction::Close {
                mapper_name: name,
            },
            Ok(_) => p == AttachPhase::Recording(name) && a == AttachAction::Record {
                mount_point: req.mount_point,
                mapper_name: name,
                device: req.device,
            },
        },
        (AttachPhase::RollingBack(_, e), AttachEvent::Closed(_)) => fails_with(p, a, e),
        (AttachPhase::Recording(name), AttachEvent::Recorded(res)) => match res {
            Err(e) => fails_with(p, a, e),
            Ok(_) => p == AttachPhase::Done(name) && a == AttachAction::Succeed {
                mapper_name: name,
            },
        },
        _ => false,
    }
}

/// When the open succeeded and the mount then fails, the next action closes
/// exactly the mapping that was opened; once the close has answered, whatever
/// it reports, the run ends with the mount's error and asks for nothing more.
pub proof fn lemma_mount_failure_rolls_back(
    req: AttachRequest,
    name: String,
    e: LuksError,
    close_outcome: Result<(), LuksError>,
    p0: AttachPhase,
    a0: AttachAction,
    p1: AttachPhase,
    a1: AttachAction,
    p2: AttachPhase,
    a2: AttachAction,
)
    requires
        attach_transition(req, AttachPhase::Opening(name), AttachEvent::Opened(Ok(())), p0, a0),
        attach_transition(req, p0, AttachEvent::Mounted(Err(e)), p1, a1),
        attach_transition(req, p1, AttachEvent::Closed(close_outcome), p2, a2),
    ensures
        (a0 is Mount),
        a1 == (AttachAction::Close { mapper_name: name }),
        a2 == AttachAction::Fail(e),
        p2 == AttachPhase::Failed(e),
        forall|ev: AttachEvent| !attach_accepts(p2, ev),
{
}

/// A run of the attach protocol.
pub struct Attach {
    pub request: AttachRequest,
    pub phase: AttachPhase,
}

impl Attach {
    /// A run that has not started.
    pub fn new(request: AttachRequest) -> (r: Attach)
        ensures
            r.request == request,
            r.phase == AttachPhase::Idle,
    {
        Attach { request, phase: AttachPhase::Idle }
    }

    /// Whether `ev` answers the action the run waits for.
    pub fn accepts(&self, ev: &AttachEvent) -> (r: bool)
        ensures
            r == attach_accepts(self.phase, *ev),
    {
        match (&self.phase, ev) {
            (AttachPhase::Idle, AttachEvent::Started { .. }) => true,
            (AttachPhase::Probing, AttachEvent::Probed(_)) => true,
            (AttachPhase::CreatingMountPoint, AttachEvent::MountPointCreated(_)) => true,
            (AttachPhase::InspectingMountPoint, AttachEvent::MountPointInspected(_)) => true,
            (AttachPhase::Reserving, AttachEvent::NameReserved(_)) => true,
            (AttachPhase::Opening(_), AttachEvent::Opened(_)) => true,
            (AttachPhase::Mounting(_), AttachEvent::Mounted(_)) => true,
            (AttachPhase::RollingBack(_, _), AttachEvent::Closed(_)) => true,
            (AttachPhase::Recording(_), AttachEvent::Recorded(_)) => true,
            _ => false,
        }
    }

    fn fail(&mut self, e: LuksError) -> (r: AttachAction)
        ensures
            final(self).request == old(self).request,
            fails_with(final(self).phase, r, e),
    {
        self.phase = AttachPhase::Failed(e.duplicate());
        AttachAction::Fail(e)
    }

    fn check_inputs(&self, st: &PathStat) -> (r: Result<(), LuksError>)
        ensures
            r == inputs_result(self.request, *st),
    {
        validate_mount_point(self.request.mount_point.as_str(), st)?;
        match &self.request.options.fs_type {
            Some(t) => validate_fs_type(t.as_str())?,
            None => {},
        }
        match &self.request.options.options {
            Some(o) => {
                match validate_mount_options(o.as_str()) {
                    Ok(_) => {},
                    Err(e) => {
                        return Err(e);
                    },
                }
            },
            None => {},
        }
        Ok(())
    }

    /// Takes the outcome of the last action and returns the next action.
    pub fn step(&mut self, ev: AttachEvent) -> (r: AttachAction)
        requires
            attach_accepts(old(self).phase, ev),
        ensures
            final(self).request == old(self).request,
            attach_transition(old(self).request, old(self).phase, ev, final(self).phase, r),
    {
        let mut phase = AttachPhase::Idle;
        std::mem::swap(&mut phase, &mut self.phase);
        match (phase, ev) {
            (AttachPhase::Idle, AttachEvent::Started { privileged, device_stat }) => {
                if !privileged {
                    return self.fail(LuksError::NotPrivileged);
                }
                match validate_device_path(self.request.device.as_str(), &device_stat) {
                    Err(e) => self.fail(e),
                    Ok(_) => {
                        self.phase = AttachPhase::Probing;
                        AttachAction::Probe { device: self.request.device.clone() }
                    },
                }
            },
            (AttachPhase::Probing, AttachEvent::Probed(res)) => match res {
                Err(e) => self.fail(e),
                Ok(encrypted) => {
                    if !encrypted {
                        return self.fail(LuksError::NotEncrypted);
                    }
                    if validate_path(self.request.mount_point.as_str()).is_err() {
                        return self.fail(LuksError::PathInvalid);
                    }
                    let mount_point = self.request.mount_point.clone();
                    if self.request.create_mount_point {
                        self.phase = AttachPhase::CreatingMountPoint;
                        AttachAction::CreateMountPoint { mount_point }
                    } else {
                        self.phase = AttachPhase::InspectingMountPoint;
                        AttachAction::InspectMountPoint { mount_point }
                    }
                },
            },
            (AttachPhase::CreatingMountPoint, AttachEvent::MountPointCreated(res)) => match res {
                Err(e) => self.fail(e),
                Ok(_) => {
                    self.phase = AttachPhase::InspectingMountPoint;
                    AttachAction::InspectMountPoint { mount_point: self.request.mount_point.clone() }
                },
            },
            (AttachPhase::InspectingMountPoint, AttachEvent::MountPointInspected(st)) => {
                match self.check_inputs(&st) {
                    Err(e) => self.fail(e),
                    Ok(_) => {
                        self.phase = AttachPhase::Reserving;
                        AttachAction::ReserveName
                    },
                }
            },
            (AttachPhase::Reserving, AttachEvent::NameReserved(res)) => match res {
                Err(e) => self.fail(e),
                Ok(name) => {
                    self.phase = AttachPhase::Opening(name.clone());
                    AttachAction::Open { device: self.request.device.clone(), mapper_name: name }
                },
            },
            (AttachPhase::Opening(name), AttachEvent::Opened(res)) => match res {
                Err(e) => self.fail(e),
                Ok(_) => {
                    let device = get_mapper_path(name.as_str());
                    self.phase = AttachPhase::Mounting(name);
                    AttachAction::Mount { device, mount_point: self.request.mount_point.clone() }
                },
            },
            (AttachPhase::Mounting(name), AttachEvent::Mounted(res)) => match res {
                Err(e) => {
                    self.phase = AttachPhase::RollingBack(name.clone(), e);
                    AttachAction::Close { mapper_name: name }
                },
                Ok(_) => {
                    self.phase = AttachPhase::Recording(name.clone());
                    AttachAction::Record {
                        mount_point: self.request.mount_point.clone(),
                        mapper_name: name,
                        device: self.request.device.clone(),
                    }
                },
            },
            (AttachPhase::RollingBack(_, e), AttachEvent::Closed(_)) => self.fail(e),
            (AttachPhase::Recording(name), AttachEvent::Recorded(res)) => match res {
                Err(e) => self.fail(e),
                Ok(_) => {
                    self.phase = AttachPhase::Done(name.clone());
                    AttachAction::Succeed { mapper_name: name }
                },
            },
            (phase, _) => {
                self.phase = phase;
                AttachAction::ReserveName
            },
        }
    }
}

} // verus!
