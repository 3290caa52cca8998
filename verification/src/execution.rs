use vstd::prelude::*;
use vstd::string::*;

use crate::codecs::{decimal, decimal_text};
use crate::types::IntentStatus;

verus! {

/// Whether a proposal may be executed.
pub enum ExecutionGate {
    /// Execute it.
    Proceed,
    /// Do not; answer with this status.
    Refuse(IntentStatus),
}

/// Decides on executing proposal `proposal_id`, given the number of its
/// signers (`None` where no such proposal is stored) and the account's
/// signing threshold: a missing proposal or one with fewer signers than the
/// threshold is refused with a `Failed` status, any other proceeds.
pub fn execution_gate(proposal_id: u64, signers: Option<usize>, threshold: u64) -> (g: ExecutionGate)
    ensures
        match signers {
            None => g matches ExecutionGate::Refuse(IntentStatus::Failed(m)) && m@
                == "Proposal not found: "@ + decimal(proposal_id as nat),
            Some(count) => if count < threshold {
                g matches ExecutionGate::Refuse(IntentStatus::Failed(m)) && m@
                    == "Threshold not met"@
            } else {
                g is Proceed
            },
        },
{
    match signers {
        None => ExecutionGate::Refuse(
            IntentStatus::Failed(
                String::from_str("Proposal not found: ").concat(decimal_text(proposal_id).as_str()),
            ),
        ),
        Some(count) => {
            let length = count as u64;
            if length < threshold {
                ExecutionGate::Refuse(IntentStatus::Failed(String::from_str("Threshold not met")))
            } else {
                ExecutionGate::Proceed
            }
        },
    }
}

/// The status an executed intent ends in: the adapter's status, or
/// `Failed` with the adapter's error.
pub fn settle_execution(result: Result<IntentStatus, String>) -> (status: IntentStatus)
    ensures
        match result {
            Ok(s) => status == s,
            Err(e) => status == IntentStatus::Failed(e),
        },
{
    match result {
        Ok(s) => s,
        Err(e) => IntentStatus::Failed(e),
    }
}

} // verus!
