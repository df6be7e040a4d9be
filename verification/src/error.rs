//! The failures that end a guest call.

use vstd::prelude::*;
use vstd::string::StringExecFns;

verus! {

/// A failure that aborts the current guest call.
#[derive(Clone, Debug, PartialEq, Eq)]
pub enum HypervisorError {
    /// The guest violated the host interface: a missing or mistyped memory
    /// export, an access outside the memory, malformed text.
    ContractViolation(String),
    /// The instruction budget cannot pay for what was asked.
    OutOfInstructions,
    /// The guest asked for the abort itself, with this message.
    CalledTrap(String),
}

/// A failure with its texts as sequences of characters.
pub enum Failure {
    ContractViolation(Seq<char>),
    OutOfInstructions,
    CalledTrap(Seq<char>),
}

impl Failure {
    /// The text shown to the guest and to the caller of the execution.
    pub open spec fn message(self) -> Seq<char> {
        match self {
            Failure::ContractViolation(detail) => "Canister violated contract: "@ + detail,
            Failure::OutOfInstructions =>
                "Canister exceeded the instructions limit for single message execution."@,
            Failure::CalledTrap(detail) => "Canister trapped explicitly: "@ + detail,
        }
    }
}

impl View for HypervisorError {
    type V = Failure;

    open spec fn view(&self) -> Failure {
        match self {
            HypervisorError::ContractViolation(detail) => Failure::ContractViolation(detail@),
            HypervisorError::OutOfInstructions => Failure::OutOfInstructions,
            HypervisorError::CalledTrap(detail) => Failure::CalledTrap(detail@),
        }
    }
}

impl HypervisorError {
    /// The text shown to the guest and to the caller of the execution.
    pub fn message(&self) -> (text: String)
        ensures
            text@ == self@.message(),
    {
        match self {
            HypervisorError::ContractViolation(detail) => {
                String::from_str("Canister violated contract: ").concat(detail.as_str())
            },
            HypervisorError::OutOfInstructions => String::from_str(
                "Canister exceeded the instructions limit for single message execution.",
            ),
            HypervisorError::CalledTrap(detail) => {
                String::from_str("Canister trapped explicitly: ").concat(detail.as_str())
            },
        }
    }

    /// A contract violation with the given detail.
    pub fn contract_violation(detail: &str) -> (e: Self)
        ensures
            e@ == Failure::ContractViolation(detail@),
    {
        HypervisorError::ContractViolation(String::from_str(detail))
    }
}

} // verus!
