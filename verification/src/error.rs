//! Why an operation on a market did not happen.

use crate::token::TransferError;
use vstd::prelude::*;

verus! {

/// The reasons for which an operation is refused. A refused operation has
/// changed nothing.
#[derive(Clone, Copy, Debug, PartialEq, Eq, Structural)]
pub enum BettingError {
    /// The market has already been resolved.
    AlreadyResolved,
    /// The market's end time has not been reached.
    NotYetEligibleToResolve,
    /// The caller is not the market's creator, or does not own the funds.
    Unauthorized,
    /// The vault is not the one recorded on the market.
    VaultMismatch,
    /// The position has already been paid.
    AlreadyClaimed,
    /// The position is not on the winning side.
    NotAWinner,
    /// The participant already has a position in the market.
    DuplicatePosition,
    /// The paying account does not hold the amount.
    InsufficientBalance,
    /// The market has not been resolved yet.
    BetNotResolved,
    /// The market's end time has passed and bets after it are refused.
    BetEndTimeExceeded,
    /// A market with the same title already exists.
    DuplicateMarket,
    /// The account holds another asset than the market wagers.
    MintMismatch,
    /// An amount or a count would leave the range of 64 bits.
    Overflow,
    /// No address can be derived for the account.
    InvalidSeeds,
    /// No market lives at the address.
    MarketNotFound,
    /// The participant has no position in the market.
    PositionNotFound,
    /// The stake of a market must be more than zero.
    InvalidStake,
}

impl BettingError {
    /// The reason that stands for a failed transfer.
    pub open spec fn of_transfer(e: TransferError) -> BettingError {
        match e {
            TransferError::InsufficientBalance => BettingError::InsufficientBalance,
            TransferError::MintMismatch => BettingError::MintMismatch,
            TransferError::Unauthorized => BettingError::Unauthorized,
            TransferError::Overflow => BettingError::Overflow,
        }
    }

    /// The reason that stands for a failed transfer.
    pub fn from_transfer(e: TransferError) -> (r: BettingError)
        ensures
            r == BettingError::of_transfer(e),
    {
        match e {
            TransferError::InsufficientBalance => BettingError::InsufficientBalance,
            TransferError::MintMismatch => BettingError::MintMismatch,
            TransferError::Unauthorized => BettingError::Unauthorized,
            TransferError::Overflow => BettingError::Overflow,
        }
    }

    /// The sentence that tells the caller of the reason.
    pub open spec fn sentence(self) -> Seq<char> {
        match self {
            BettingError::AlreadyResolved => "Bet has already been resolved"@,
            BettingError::NotYetEligibleToResolve => "Bet has not ended yet"@,
            BettingError::Unauthorized => "Signer may not authorize this"@,
            BettingError::VaultMismatch => "Invalid vault token account"@,
            BettingError::AlreadyClaimed => "Winnings have already been claimed"@,
            BettingError::NotAWinner => "User did not win this bet"@,
            BettingError::DuplicatePosition => "User has already placed a bet"@,
            BettingError::InsufficientBalance => "Insufficient funds"@,
            BettingError::BetNotResolved => "Bet has not been resolved yet"@,
            BettingError::BetEndTimeExceeded => "Bet end time has been exceeded"@,
            BettingError::DuplicateMarket => "A bet with this title already exists"@,
            BettingError::MintMismatch => "Token account holds another mint"@,
            BettingError::Overflow => "Amount out of range"@,
            BettingError::InvalidSeeds => "No address can be derived"@,
            BettingError::MarketNotFound => "Bet not found"@,
            BettingError::PositionNotFound => "User has no bet here"@,
            BettingError::InvalidStake => "Bet amount must be more than zero"@,
        }
    }

    /// A sentence for the caller.
    pub fn message(&self) -> (r: &'static str)
        ensures
            r@ == self.sentence(),
    {
        match self {
            BettingError::AlreadyResolved => "Bet has already been resolved",
            BettingError::NotYetEligibleToResolve => "Bet has not ended yet",
            BettingError::Unauthorized => "Signer may not authorize this",
            BettingError::VaultMismatch => "Invalid vault token account",
            BettingError::AlreadyClaimed => "Winnings have already been claimed",
            BettingError::NotAWinner => "User did not win this bet",
            BettingError::DuplicatePosition => "User has already placed a bet",
            BettingError::InsufficientBalance => "Insufficient funds",
            BettingError::BetNotResolved => "Bet has not been resolved yet",
            BettingError::BetEndTimeExceeded => "Bet end time has been exceeded",
            BettingError::DuplicateMarket => "A bet with this title already exists",
            BettingError::MintMismatch => "Token account holds another mint",
            BettingError::Overflow => "Amount out of range",
            BettingError::InvalidSeeds => "No address can be derived",
            BettingError::MarketNotFound => "Bet not found",
            BettingError::PositionNotFound => "User has no bet here",
            BettingError::InvalidStake => "Bet amount must be more than zero",
        }
    }
}

} // verus!
