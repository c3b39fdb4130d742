use vstd::prelude::*;

verus! {

/// Every way a bridge instruction can fail.
#[derive(Clone, Copy, Debug, PartialEq, Eq, Structural)]
pub enum BridgeError {
    /// The opcode byte names no instruction.
    InvalidInstruction,
    /// The instruction or a payload is empty, truncated, has trailing bytes or is malformed.
    DecodeError,
    /// The account list has the wrong length, or an account lacks a required kind or writability.
    AccountShape,
    /// The custody account is not the derived one, or is not in the state the instruction needs.
    InvalidCustodyAccount,
    /// The caller fails the admin or spender policy.
    NotAnAdmin,
    /// The caller did not sign.
    Unauthorized,
    /// The withdrawal nonce is not the one the bridge expects.
    StaleNonce,
    /// A withdrawal batch with no amounts.
    EmptyBatch,
    /// A withdrawal amount of zero.
    InvalidAmount,
    /// A reserved opcode.
    NotImplemented,
}

impl BridgeError {
    /// The small integer code under which the host reports the error.
    pub open spec fn spec_code(self) -> u32 {
        match self {
            BridgeError::NotAnAdmin => 0,
            BridgeError::InvalidInstruction => 1,
            BridgeError::DecodeError => 2,
            BridgeError::AccountShape => 3,
            BridgeError::InvalidCustodyAccount => 4,
            BridgeError::Unauthorized => 5,
            BridgeError::StaleNonce => 6,
            BridgeError::EmptyBatch => 7,
            BridgeError::InvalidAmount => 8,
            BridgeError::NotImplemented => 9,
        }
    }

    pub fn code(&self) -> (r: u32)
        ensures
            r == self.spec_code(),
    {
        match self {
            BridgeError::NotAnAdmin => 0,
            BridgeError::InvalidInstruction => 1,
            BridgeError::DecodeError => 2,
            BridgeError::AccountShape => 3,
            BridgeError::InvalidCustodyAccount => 4,
            BridgeError::Unauthorized => 5,
            BridgeError::StaleNonce => 6,
            BridgeError::EmptyBatch => 7,
            BridgeError::InvalidAmount => 8,
            BridgeError::NotImplemented => 9,
        }
    }

    /// The error's message.
    pub fn message(&self) -> (r: &'static str) {
        match self {
            BridgeError::InvalidInstruction => "Invalid instruction.",
            BridgeError::DecodeError => "Malformed instruction data.",
            BridgeError::AccountShape => "Wrong account list.",
            BridgeError::InvalidCustodyAccount => "Invalid custody account.",
            BridgeError::NotAnAdmin => "Not a bridge admin.",
            BridgeError::Unauthorized => "Caller must sign.",
            BridgeError::StaleNonce => "Stale nonce.",
            BridgeError::EmptyBatch => "Empty batch.",
            BridgeError::InvalidAmount => "Amount must be positive.",
            BridgeError::NotImplemented => "Not implemented.",
        }
    }
}

} // verus!
