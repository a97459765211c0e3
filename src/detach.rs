//! The detach protocol as a state machine.
//!
//! The mapping behind a mount point is found in the record store first and
//! in the live mount table second; the filesystem is unmounted, the mapping
//! closed, and the record removed on a best-effort basis.

use vstd::prelude::*;
use crate::error::LuksError;
use crate::store::MountRecord;
use crate::text::has_char;
use crate::validate::{valid_mapper_name, validate_mapper_name};

verus! {

/// What the caller asks to detach.
#[derive(Debug, Clone)]
pub struct DetachRequest {
    /// The (canonical) mount point.
    pub mount_point: String,
    /// Unmount lazily, so that a busy target is detached now and cleaned up later.
    pub force: bool,
}

/// Where the detach protocol stands.
#[derive(Debug, Clone)]
pub enum DetachPhase {
    /// Nothing has happened yet.
    Idle,
    /// Waiting to learn whether the mount point is mounted.
    CheckingMounted,
    /// Waiting for the record store's answer.
    LookingUp,
    /// Waiting for the mount table's answer.
    Discovering,
    /// The mapping is located; waiting for the unmount.
    Unmounting(String),
    /// Unmounted; waiting for the close.
    Closing(String),
    /// Closed; waiting for the record's removal.
    Cleaning(String),
    /// Detached; the mapping named is closed.
    Done(String),
    /// Stopped with the error.
    Failed(LuksError),
}

/// The outcome of the last requested action.
#[derive(Debug)]
pub enum DetachEvent {
    /// The protocol begins; whether the process is privileged.
    Started { privileged: bool },
    /// Whether the mount point is currently mounted.
    MountChecked(Result<bool, LuksError>),
    /// The stored record, if any.
    RecordFound(Result<Option<MountRecord>, LuksError>),
    /// The owned mapping found in the mount table, if any.
    Discovered(Result<Option<String>, LuksError>),
    /// The unmount operation's outcome.
    Unmounted(Result<(), LuksError>),
    /// The close operation's outcome.
    Closed(Result<(), LuksError>),
    /// The record removal's outcome.
    Removed(Result<(), LuksError>),
}

/// What the caller is to do next.
#[derive(Debug, Clone, PartialEq, Eq)]
pub enum DetachAction {
    /// Report whether `mount_point` is mounted.
    CheckMounted { mount_point: String },
    /// Look up the record of `mount_point`.
    LookUpRecord { mount_point: String },
    /// Search the mount table for the owned mapping on `mount_point`.
    Discover { mount_point: String },
    /// Unmount `mount_point`, lazily when `lazy`.
    Unmount { mount_point: String, lazy: bool },
    /// Close the mapping `mapper_name`.
    Close { mapper_name: String },
    /// Remove the record of `mount_point`.
    RemoveRecord { mount_point: String },
    /// Report success; the mapping `mapper_name` is closed.
    Succeed { mapper_name: String },
    /// Report the error.
    Fail(LuksError),
}

/// Whether `ev` answers the action that `phase` waits for.
pub open spec fn detach_accepts(phase: DetachPhase, ev: DetachEvent) -> bool {
    match phase {
        DetachPhase::Idle => ev is Started,
        DetachPhase::CheckingMounted => ev is MountChecked,
        DetachPhase::LookingUp => ev is RecordFound,
        DetachPhase::Discovering => ev is Discovered,
        DetachPhase::Unmounting(_) => ev is Unmounted,
        DetachPhase::Closing(_) => ev is Closed,
        DetachPhase::Cleaning(_) => ev is Removed,
        DetachPhase::Done(_) | DetachPhase::Failed(_) => false,
    }
}

/// The move to the failed phase with error `e`.
pub open spec fn detach_fails_with(p: DetachPhase, a: DetachAction, e: LuksError) -> bool {
    p == DetachPhase::Failed(e) && a == DetachAction::Fail(e)
}

/// The move that starts unmounting once the mapping `name` is located.
pub open spec fn located(req: DetachRequest, name: String, p: DetachPhase, a: DetachAction) -> bool {
    if valid_mapper_name(name@) {
        p == DetachPhase::Unmounting(name) && a == DetachAction::Unmount {
            mount_point: req.mount_point,
            lazy: req.force,
        }
    } else {
        detach_fails_with(p, a, LuksError::NameInvalid)
    }
}

/// One step of the detach protocol: from `phase`, on `ev`, to phase `p`
/// with action `a`.
pub open spec fn detach_transition(
    req: DetachRequest,
    phase: DetachPhase,
    ev: DetachEvent,
    p: DetachPhase,
    a: DetachAction,
) -> bool {
    match (phase, ev) {
        (DetachPhase::Idle, DetachEvent::Started { privileged }) => if !privileged {
            detach_fails_with(p, a, LuksError::NotPrivileged)
        } else if !(req.mount_point@.len() > 0 && req.mount_point@[0] == '/') || has_char(
            req.mount_point@,
            '\0',
        ) {
            detach_fails_with(p, a, LuksError::PathInvalid)
        } else {
            p == DetachPhase::CheckingMounted && a == DetachAction::CheckMounted {
                mount_point: req.mount_point,
            }
        },
        (DetachPhase::CheckingMounted, DetachEvent::MountChecked(res)) => match res {
            Err(e) => detach_fails_with(p, a, e),
            Ok(mounted) => if mounted {
                p == DetachPhase::LookingUp && a == DetachAction::LookUpRecord {
                    mount_point: req.mount_point,
                }
            } else {
                detach_fails_with(p, a, LuksError::NotMounted)
            },
        },
        (DetachPhase::LookingUp, DetachEvent::RecordFound(res)) => match res {
            Err(e) => detach_fails_with(p, a, e),
            Ok(found) => match found {
                Some(rec) => located(req, rec.mapper_name, p, a),
                None => p == DetachPhase::Discovering && a == DetachAction::Discover {
                    mount_point: req.mount_point,
                },
            },
        },
        (DetachPhase::Discovering, DetachEvent::Discovered(res)) => match res {
            Err(e) => detach_fails_with(p, a, e),
            Ok(found) => match found {
                Some(name) => located(req, name, p, a),
                None => detach_fails_with(p, a, LuksError::MappingNotFound),
            },
        },
        (DetachPhase::Unmounting(name), DetachEvent::Unmounted(res)) => match res {
            Err(e) => detach_fails_with(p, a, e),
            Ok(_) => p == DetachPhase::Closing(name) && a == DetachAction::Close {
                mapper_name: name,
            },
        },
        (DetachPhase::Closing(name), DetachEvent::Closed(res)) => match res {
            Err(e) => detach_fails_with(p, a, e),
            Ok(_) => p == DetachPhase::Cleaning(name) && a == DetachAction::RemoveRecord {
                mount_point: req.mount_point,
            },
        },
        (DetachPhase::Cleaning(name), DetachEvent::Removed(_)) => p == DetachPhase::Done(name)
            && a == DetachAction::Succeed { mapper_name: name },
        _ => false,
    }
}

/// A run of the detach protocol.
pub struct Detach {
    pub request: DetachRequest,
    pub phase: DetachPhase,
}

impl Detach {
    /// A run that has not started.
    pub fn new(request: DetachRequest) -> (r: Detach)
        ensures
            r.request == request,
            r.phase == DetachPhase::Idle,
    {
        Detach { request, phase: DetachPhase::Idle }
    }

    /// Whether `ev` answers the action the run waits for.
    pub fn accepts(&self, ev: &DetachEvent) -> (r: bool)
        ensures
            r == detach_accepts(self.phase, *ev),
    {
        match (&self.phase, ev) {
            (DetachPhase::Idle, DetachEvent::Started { .. }) => true,
            (DetachPhase::CheckingMounted, DetachEvent::MountChecked(_)) => true,
            (DetachPhase::LookingUp, DetachEvent::RecordFound(_)) => true,
            (DetachPhase::Discovering, DetachEvent::Discovered(_)) => true,
            (DetachPhase::Unmounting(_), DetachEvent::Unmounted(_)) => true,
            (DetachPhase::Closing(_), DetachEvent::Closed(_)) => true,
            (DetachPhase::Cleaning(_), DetachEvent::Removed(_)) => true,
            _ => false,
        }
    }

    fn fail(&mut self, e: LuksError) -> (r: DetachAction)
        ensures
            final(self).request == old(self).request,
            detach_fails_with(final(self).phase, r, e),
    {
        self.phase = DetachPhase::Failed(e.duplicate());
        DetachAction::Fail(e)
    }

    fn locate(&mut self, name: String) -> (r: DetachAction)
        ensures
            final(self).request == old(self).request,
            located(old(self).request, name, final(self).phase, r),
    {
        if validate_mapper_name(name.as_str()).is_err() {
            return self.fail(LuksError::NameInvalid);
        }
        self.phase = DetachPhase::Unmounting(name);
        DetachAction::Unmount {
            mount_point: self.request.mount_point.clone(),
            lazy: self.request.force,
        }
    }

    /// Takes the outcome of the last action and returns the next action.
    pub fn step(&mut self, ev: DetachEvent) -> (r: DetachAction)
        requires
            detach_accepts(old(self).phase, ev),
        ensures
            final(self).request == old(self).request,
            detach_transition(old(self).request, old(self).phase, ev, final(self).phase, r),
    {
        let mut phase = DetachPhase::Idle;
        std::mem::swap(&mut phase, &mut self.phase);
        match (phase, ev) {
            (DetachPhase::Idle, DetachEvent::Started { privileged }) => {
                if !privileged {
                    return self.fail(LuksError::NotPrivileged);
                }
                let mp = self.request.mount_point.as_str();
                if mp.unicode_len() == 0 || mp.get_char(0) != '/' || crate::text::contains_char(
                    mp,
                    '\0',
                ) {
                    return self.fail(LuksError::PathInvalid);
                }
                self.phase = DetachPhase::CheckingMounted;
                DetachAction::CheckMounted { mount_point: self.request.mount_point.clone() }
            },
            (DetachPhase::CheckingMounted, DetachEvent::MountChecked(res)) => match res {
                Err(e) => self.fail(e),
                Ok(mounted) => {
                    if !mounted {
                        return self.fail(LuksError::NotMounted);
                    }
                    self.phase = DetachPhase::LookingUp;
                    DetachAction::LookUpRecord { mount_point: self.request.mount_point.clone() }
                },
            },
            (DetachPhase::LookingUp, DetachEvent::RecordFound(res)) => match res {
                Err(e) => self.fail(e),
                Ok(Some(rec)) => self.locate(rec.mapper_name),
                Ok(None) => {
                    self.phase = DetachPhase::Discovering;
                    DetachAction::Discover { mount_point: self.request.mount_point.clone() }
                },
            },
            (DetachPhase::Discovering, DetachEvent::Discovered(res)) => match res {
                Err(e) => self.fail(e),
                Ok(Some(name)) => self.locate(name),
                Ok(None) => self.fail(LuksError::MappingNotFound),
            },
            (DetachPhase::Unmounting(name), DetachEvent::Unmounted(res)) => match res {
                Err(e) => self.fail(e),
                Ok(_) => {
                    self.phase = DetachPhase::Closing(name.clone());
                    DetachAction::Close { mapper_name: name }
                },
            },
            (DetachPhase::Closing(name), DetachEvent::Closed(res)) => match res {
                Err(e) => self.fail(e),
                Ok(_) => {
                    self.phase = DetachPhase::Cleaning(name);
                    DetachAction::RemoveRecord { mount_point: self.request.mount_point.clone() }
                },
            },
            (DetachPhase::Cleaning(name), DetachEvent::Removed(_)) => {
                self.phase = DetachPhase::Done(name.clone());
                DetachAction::Succeed { mapper_name: name }
            },
            (phase, _) => {
                self.phase = phase;
                DetachAction::Fail(LuksError::MappingNotFound)
            },
        }
    }
}

} // verus!
