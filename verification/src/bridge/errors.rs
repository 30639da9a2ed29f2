//! Human-readable texts of bridge errors.
use vstd::prelude::*;
use vstd::string::StringExecFns;

use crate::bridge::BridgeError;

verus! {

/// The short text shown for a bridge error.
pub open spec fn bridge_error_text(e: BridgeError) -> Seq<char> {
    match e {
        BridgeError::Unauthorized => "Caller is not authorized"@,
        BridgeError::TokenNotFound => "Token does not exist"@,
        BridgeError::InvalidChain => "Invalid chain ID"@,
        BridgeError::BridgeNotSupported => "Bridge not supported for this token"@,
        BridgeError::InsufficientSignatures => "Insufficient signatures collected"@,
        BridgeError::RequestExpired => "Bridge request has expired"@,
        BridgeError::AlreadySigned => "Already signed this request"@,
        BridgeError::InvalidRequest => "Invalid bridge request"@,
        BridgeError::BridgePaused => "Bridge operations are paused"@,
        BridgeError::InvalidMetadata => "Invalid metadata"@,
        BridgeError::DuplicateRequest => "Duplicate bridge request"@,
        BridgeError::GasLimitExceeded => "Gas limit exceeded"@,
        BridgeError::RateLimitExceeded => "Rate limit exceeded"@,
        BridgeError::ReentrantCall => "Reentrant call"@,
        BridgeError::OperationPaused => "This bridge operation is paused"@,
        BridgeError::NotGuardian => "Caller is not a guardian"@,
        BridgeError::TransactionNotFound => "Cross-chain transaction not found"@,
        BridgeError::InvalidStatusTransition => "Invalid chain status transition"@,
    }
}

/// The longer explanation of a bridge error.
pub open spec fn bridge_error_description(e: BridgeError) -> Seq<char> {
    match e {
        BridgeError::Unauthorized => "Caller does not have permission to perform this operation"@,
        BridgeError::TokenNotFound => "The specified token does not exist"@,
        BridgeError::InvalidChain => "The destination chain ID is invalid"@,
        BridgeError::BridgeNotSupported => "Cross-chain bridging is not supported for this token"@,
        BridgeError::InsufficientSignatures => "Not enough signatures collected for bridge operation"@,
        BridgeError::RequestExpired => "The bridge request has expired and can no longer be executed"@,
        BridgeError::AlreadySigned => "You have already signed this bridge request"@,
        BridgeError::InvalidRequest => "The bridge request is invalid or malformed"@,
        BridgeError::BridgePaused => "Bridge operations are temporarily paused"@,
        BridgeError::InvalidMetadata => "The token metadata is invalid"@,
        BridgeError::DuplicateRequest => "A bridge request with these parameters already exists"@,
        BridgeError::GasLimitExceeded => "The operation exceeded the gas limit"@,
        BridgeError::RateLimitExceeded => "The operation exceeded the daily rate limit"@,
        BridgeError::ReentrantCall => "Reentrancy guard detected a reentrant call"@,
        BridgeError::OperationPaused => "This bridge operation is paused by the emergency controls"@,
        BridgeError::NotGuardian => "Only a bridge guardian may perform this operation"@,
        BridgeError::TransactionNotFound => "No cross-chain transaction is tracked under this identifier"@,
        BridgeError::InvalidStatusTransition => "The requested chain status change is not an allowed transition"@,
    }
}

impl BridgeError {
    /// The short text shown for this error.
    pub fn to_string(&self) -> (r: String)
        ensures
            r@ == bridge_error_text(*self),
    {
        let s: &str = match self {
            BridgeError::Unauthorized => "Caller is not authorized",
            BridgeError::TokenNotFound => "Token does not exist",
            BridgeError::InvalidChain => "Invalid chain ID",
            BridgeError::BridgeNotSupported => "Bridge not supported for this token",
            BridgeError::InsufficientSignatures => "Insufficient signatures collected",
            BridgeError::RequestExpired => "Bridge request has expired",
            BridgeError::AlreadySigned => "Already signed this request",
            BridgeError::InvalidRequest => "Invalid bridge request",
            BridgeError::BridgePaused => "Bridge operations are paused",
            BridgeError::InvalidMetadata => "Invalid metadata",
            BridgeError::DuplicateRequest => "Duplicate bridge request",
            BridgeError::GasLimitExceeded => "Gas limit exceeded",
            BridgeError::RateLimitExceeded => "Rate limit exceeded",
            BridgeError::ReentrantCall => "Reentrant call",
            BridgeError::OperationPaused => "This bridge operation is paused",
            BridgeError::NotGuardian => "Caller is not a guardian",
            BridgeError::TransactionNotFound => "Cross-chain transaction not found",
            BridgeError::InvalidStatusTransition => "Invalid chain status transition",
        };
        String::from_str(s)
    }

    /// The longer explanation of this error.
    pub fn error_description(&self) -> (r: &'static str)
        ensures
            r@ == bridge_error_description(*self),
    {
        match self {
            BridgeError::Unauthorized => "Caller does not have permission to perform this operation",
            BridgeError::TokenNotFound => "The specified token does not exist",
            BridgeError::InvalidChain => "The destination chain ID is invalid",
            BridgeError::BridgeNotSupported => "Cross-chain bridging is not supported for this token",
            BridgeError::InsufficientSignatures => "Not enough signatures collected for bridge operation",
            BridgeError::RequestExpired => "The bridge request has expired and can no longer be executed",
            BridgeError::AlreadySigned => "You have already signed this bridge request",
            BridgeError::InvalidRequest => "The bridge request is invalid or malformed",
            BridgeError::BridgePaused => "Bridge operations are temporarily paused",
            BridgeError::InvalidMetadata => "The token metadata is invalid",
            BridgeError::DuplicateRequest => "A bridge request with these parameters already exists",
            BridgeError::GasLimitExceeded => "The operation exceeded the gas limit",
            BridgeError::RateLimitExceeded => "The operation exceeded the daily rate limit",
            BridgeError::ReentrantCall => "Reentrancy guard detected a reentrant call",
            BridgeError::OperationPaused => "This bridge operation is paused by the emergency controls",
            BridgeError::NotGuardian => "Only a bridge guardian may perform this operation",
            BridgeError::TransactionNotFound => "No cross-chain transaction is tracked under this identifier",
            BridgeError::InvalidStatusTransition => "The requested chain status change is not an allowed transition",
        }
    }
}

} // verus!
