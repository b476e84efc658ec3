//! Execution statuses: the outcome classes a virtual-machine run can report.
//!
//! A status is either *kept* (the run produced a chargeable, recordable
//! outcome: success or an on-chain failure) or *discarded* (a protocol-level
//! rejection that must never occur for a verified transaction).

use vstd::prelude::*;

verus! {

/// Status code reported when a read-only call asks for more gas than the
/// read-only ceiling allows.
pub const CODE_MAX_GAS_BOUND: u64 = 1;

/// Status code reported when an action fails the static checks of `verify`.
pub const CODE_INVALID_ACTION: u64 = 2;

/// Status code reported when a read-only session accumulated state
/// mutations by the time it was finalized.
pub const CODE_READONLY_MUTATION: u64 = 3;

/// Status code reported when the event store has no identifiers left to
/// assign.
pub const CODE_EVENT_ID_OVERFLOW: u64 = 4;

/// A status that the host keeps: the transaction is charged and its outcome
/// is recorded on chain.
#[derive(Clone, Copy, Debug, PartialEq, Eq, Structural)]
pub enum KeptStatus {
    /// The action ran to completion.
    Executed,
    /// The gas budget was exhausted mid-run.
    OutOfGas,
    /// The action aborted with the given code.
    MoveAbort { code: u64 },
}

/// The full status of a virtual-machine operation, including protocol-level
/// rejections that are never recorded on chain.
#[derive(Clone, Copy, Debug, PartialEq, Eq, Structural)]
pub enum Status {
    Executed,
    OutOfGas,
    MoveAbort { code: u64 },
    /// Protocol-level rejection; indicates a verifier or VM defect when it
    /// appears after verification.
    Discarded { code: u64 },
}

/// Classification of a status as kept or discarded.
pub open spec fn spec_keep_or_discard(s: Status) -> Result<KeptStatus, u64> {
    match s {
        Status::Executed => Ok(KeptStatus::Executed),
        Status::OutOfGas => Ok(KeptStatus::OutOfGas),
        Status::MoveAbort { code } => Ok(KeptStatus::MoveAbort { code }),
        Status::Discarded { code } => Err(code),
    }
}

/// The kept statuses, embedded back into the full status space.
pub open spec fn spec_status_of_kept(k: KeptStatus) -> Status {
    match k {
        KeptStatus::Executed => Status::Executed,
        KeptStatus::OutOfGas => Status::OutOfGas,
        KeptStatus::MoveAbort { code } => Status::MoveAbort { code },
    }
}

impl Status {
    /// True unless the status is a protocol-level rejection.
    pub open spec fn is_kept(self) -> bool {
        !(self is Discarded)
    }

    /// Splits a status into its kept form or the discard code.
    pub fn keep_or_discard(self) -> (r: Result<KeptStatus, u64>)
        ensures
            r == spec_keep_or_discard(self),
    {
        match self {
            Status::Executed => Ok(KeptStatus::Executed),
            Status::OutOfGas => Ok(KeptStatus::OutOfGas),
            Status::MoveAbort { code } => Ok(KeptStatus::MoveAbort { code }),
            Status::Discarded { code } => Err(code),
        }
    }
}

/// Error carried out of a failed virtual-machine operation.
#[derive(Clone, Copy, Debug, PartialEq, Eq, Structural)]
pub struct VmError {
    pub status: Status,
}

impl VmError {
    /// The status recorded in this error.
    pub fn into_vm_status(self) -> (r: Status)
        ensures
            r == self.status,
    {
        self.status
    }
}

/// The status of an execution result: success means `Executed`.
pub open spec fn spec_status_of_result(r: Result<(), VmError>) -> Status {
    match r {
        Ok(()) => Status::Executed,
        Err(e) => e.status,
    }
}

/// Computes the status of an execution result.
pub fn vm_status_of_result(r: &Result<(), VmError>) -> (s: Status)
    ensures
        s == spec_status_of_result(*r),
{
    match r {
        Ok(()) => Status::Executed,
        Err(e) => e.status,
    }
}

} // verus!
