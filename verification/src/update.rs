use vstd::prelude::*;
use crate::dns::ResponseCode;
use crate::name::DomainName;

verus! {

/// The two operations of the command surface.
#[derive(Clone, Copy, PartialEq, Eq, Structural, Debug)]
pub enum Commands {
    /// Publish the challenge record.
    SetRecord,
    /// Remove the challenge record.
    UnsetRecord,
}

/// The time-to-live of every challenge record, in seconds.
pub const CHALLENGE_TTL_SECONDS: u32 = 60;

/// The TSIG signature validity (fudge) window, in seconds.
pub const TSIG_FUDGE_SECONDS: u16 = 300;

/// The TXT record of one challenge: its owner name, its fixed time-to-live,
/// and the proof token as its single text value.
pub struct ChallengeRecord {
    pub owner: DomainName,
    pub ttl_seconds: u32,
    pub value: String,
}

/// The tagged result of a create-or-delete transaction.
#[derive(Clone, Copy, PartialEq, Eq, Structural, Debug)]
pub enum OperationOutcome {
    /// The server accepted the transaction.
    Success,
    /// On create: the record set already existed; an idempotent outcome,
    /// reported as a warning, not an error.
    AlreadyExists,
    /// On delete: there was no such record set; reported as an error.
    NoSuchRecordSet,
    /// The server rejected the transaction with this code; an error.
    Rejected(ResponseCode),
}

/// How the response code of the signed update transaction reads. For a
/// create, NoError is success and YXRRSet means the prerequisite "record set
/// does not already exist" failed; for a delete, NoError is success and
/// NXRRSet tags the absent record set; every other code is a rejection.
pub open spec fn interpret_update_spec(command: Commands, code: ResponseCode) -> OperationOutcome {
    match command {
        Commands::SetRecord => {
            if code is NoError {
                OperationOutcome::Success
            } else if code is YXRRSet {
                OperationOutcome::AlreadyExists
            } else {
                OperationOutcome::Rejected(code)
            }
        },
        Commands::UnsetRecord => {
            if code is NoError {
                OperationOutcome::Success
            } else if code is NXRRSet {
                OperationOutcome::NoSuchRecordSet
            } else {
                OperationOutcome::Rejected(code)
            }
        },
    }
}

/// Interprets the response code of the update transaction, as
/// `interpret_update_spec` says.
pub fn interpret_update_response(command: &Commands, code: ResponseCode) -> (r: OperationOutcome)
    ensures
        r == interpret_update_spec(*command, code),
{
    match command {
        Commands::SetRecord => {
            match code {
                ResponseCode::NoError => OperationOutcome::Success,
                ResponseCode::YXRRSet => OperationOutcome::AlreadyExists,
                _ => OperationOutcome::Rejected(code),
            }
        },
        Commands::UnsetRecord => {
            match code {
                ResponseCode::NoError => OperationOutcome::Success,
                ResponseCode::NXRRSet => OperationOutcome::NoSuchRecordSet,
                _ => OperationOutcome::Rejected(code),
            }
        },
    }
}

/// Whether an outcome counts as success: a plain success, or the idempotent
/// already-exists outcome of a create.
pub open spec fn outcome_success_spec(outcome: OperationOutcome) -> bool {
    outcome is Success || outcome is AlreadyExists
}

pub fn outcome_is_success(outcome: &OperationOutcome) -> (r: bool)
    ensures
        r == outcome_success_spec(*outcome),
{
    match outcome {
        OperationOutcome::Success => true,
        OperationOutcome::AlreadyExists => true,
        _ => false,
    }
}

} // verus!
