//! Human-readable texts of exchange errors.
use vstd::prelude::*;
use vstd::string::StringExecFns;

use crate::dex::DexError;

verus! {

/// The short text shown for an exchange error.
pub open spec fn dex_error_text(e: DexError) -> Seq<char> {
    match e {
        DexError::Unauthorized => "Caller is not authorized"@,
        DexError::InvalidPair => "Invalid trading pair"@,
        DexError::PoolNotFound => "Liquidity pool not found"@,
        DexError::InsufficientLiquidity => "Insufficient liquidity"@,
        DexError::SlippageExceeded => "Slippage tolerance exceeded"@,
        DexError::OrderNotFound => "Order not found"@,
        DexError::InvalidOrder => "Order parameters are invalid"@,
        DexError::OrderNotExecutable => "Order is not executable"@,
        DexError::InvalidRequest => "Invalid request"@,
        DexError::RewardUnavailable => "Reward unavailable"@,
        DexError::ProposalNotFound => "Governance proposal not found"@,
        DexError::ProposalClosed => "Governance proposal is closed"@,
        DexError::AlreadyVoted => "Vote already recorded"@,
        DexError::InvalidBridgeRoute => "Invalid cross-chain bridge route"@,
        DexError::CrossChainTradeNotFound => "Cross-chain trade not found"@,
        DexError::InsufficientGovernanceBalance => "Insufficient governance balance"@,
        DexError::ReentrantCall => "Reentrant call"@,
        DexError::TimelockRequired => "Sensitive admin change must be scheduled through the timelock"@,
        DexError::TimelockActive => "Scheduled admin action has not reached its execution block"@,
        DexError::AdminActionNotFound => "Scheduled admin action not found"@,
        DexError::AdminActionAlreadyFinalized => "Scheduled admin action was already executed or cancelled"@,
    }
}

/// The longer explanation of an exchange error.
pub open spec fn dex_error_description(e: DexError) -> Seq<char> {
    match e {
        DexError::Unauthorized => "Caller does not have permission to perform this operation"@,
        DexError::InvalidPair => "The requested trading pair is invalid or inactive"@,
        DexError::PoolNotFound => "The referenced liquidity pool does not exist"@,
        DexError::InsufficientLiquidity => "Not enough liquidity is available"@,
        DexError::SlippageExceeded => "Trade output is below the allowed threshold"@,
        DexError::OrderNotFound => "The order does not exist"@,
        DexError::InvalidOrder => "Order parameters are invalid"@,
        DexError::InvalidRequest => "The request is invalid"@,
        DexError::OrderNotExecutable => "Order conditions are not satisfied"@,
        DexError::RewardUnavailable => "There are no rewards available to claim"@,
        DexError::ProposalNotFound => "The governance proposal does not exist"@,
        DexError::ProposalClosed => "The governance proposal can no longer be modified"@,
        DexError::AlreadyVoted => "The account has already voted on this proposal"@,
        DexError::InvalidBridgeRoute => "The selected bridge route is not supported"@,
        DexError::CrossChainTradeNotFound => "The cross-chain trade does not exist"@,
        DexError::InsufficientGovernanceBalance => "The account does not hold enough governance tokens"@,
        DexError::ReentrantCall => "Reentrancy guard detected a reentrant call"@,
        DexError::TimelockRequired => "Direct admin call blocked: action must be scheduled while a timelock is active"@,
        DexError::TimelockActive => "Scheduled admin action cannot execute until the timelock delay has elapsed"@,
        DexError::AdminActionNotFound => "The scheduled admin action does not exist"@,
        DexError::AdminActionAlreadyFinalized => "The scheduled admin action has already been executed or cancelled"@,
    }
}

impl DexError {
    /// The short text shown for this error.
    pub fn to_string(&self) -> (r: String)
        ensures
            r@ == dex_error_text(*self),
    {
        let s: &str = match self {
            DexError::Unauthorized => "Caller is not authorized",
            DexError::InvalidPair => "Invalid trading pair",
            DexError::PoolNotFound => "Liquidity pool not found",
            DexError::InsufficientLiquidity => "Insufficient liquidity",
            DexError::SlippageExceeded => "Slippage tolerance exceeded",
            DexError::OrderNotFound => "Order not found",
            DexError::InvalidOrder => "Order parameters are invalid",
            DexError::OrderNotExecutable => "Order is not executable",
            DexError::InvalidRequest => "Invalid request",
            DexError::RewardUnavailable => "Reward unavailable",
            DexError::ProposalNotFound => "Governance proposal not found",
            DexError::ProposalClosed => "Governance proposal is closed",
            DexError::AlreadyVoted => "Vote already recorded",
            DexError::InvalidBridgeRoute => "Invalid cross-chain bridge route",
            DexError::CrossChainTradeNotFound => "Cross-chain trade not found",
            DexError::InsufficientGovernanceBalance => "Insufficient governance balance",
            DexError::ReentrantCall => "Reentrant call",
            DexError::TimelockRequired => "Sensitive admin change must be scheduled through the timelock",
            DexError::TimelockActive => "Scheduled admin action has not reached its execution block",
            DexError::AdminActionNotFound => "Scheduled admin action not found",
            DexError::AdminActionAlreadyFinalized => "Scheduled admin action was already executed or cancelled",
        };
        String::from_str(s)
    }

    /// The longer explanation of this error.
    pub fn error_description(&self) -> (r: &'static str)
        ensures
            r@ == dex_error_description(*self),
    {
        match self {
            DexError::Unauthorized => "Caller does not have permission to perform this operation",
            DexError::InvalidPair => "The requested trading pair is invalid or inactive",
            DexError::PoolNotFound => "The referenced liquidity pool does not exist",
            DexError::InsufficientLiquidity => "Not enough liquidity is available",
            DexError::SlippageExceeded => "Trade output is below the allowed threshold",
            DexError::OrderNotFound => "The order does not exist",
            DexError::InvalidOrder => "Order parameters are invalid",
            DexError::InvalidRequest => "The request is invalid",
            DexError::OrderNotExecutable => "Order conditions are not satisfied",
            DexError::RewardUnavailable => "There are no rewards available to claim",
            DexError::ProposalNotFound => "The governance proposal does not exist",
            DexError::ProposalClosed => "The governance proposal can no longer be modified",
            DexError::AlreadyVoted => "The account has already voted on this proposal",
            DexError::InvalidBridgeRoute => "The selected bridge route is not supported",
            DexError::CrossChainTradeNotFound => "The cross-chain trade does not exist",
            DexError::InsufficientGovernanceBalance => "The account does not hold enough governance tokens",
            DexError::ReentrantCall => "Reentrancy guard detected a reentrant call",
            DexError::TimelockRequired => "Direct admin call blocked: action must be scheduled while a timelock is active",
            DexError::TimelockActive => "Scheduled admin action cannot execute until the timelock delay has elapsed",
            DexError::AdminActionNotFound => "The scheduled admin action does not exist",
            DexError::AdminActionAlreadyFinalized => "The scheduled admin action has already been executed or cancelled",
        }
    }
}

} // verus!
