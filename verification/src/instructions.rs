//! The four operations of a market, each on the accounts it touches.
//!
//! A context holds the accounts that one operation reads and writes, as the
//! host loaded them. An operation either succeeds and leaves its effect in the
//! context, or is refused and leaves the context as it was.

use crate::address::Address;
use crate::error::BettingError;
use crate::state::{Bet, UserBet};
use crate::token::{credited, debited, transfer, transfer_error, TokenAccount};
use vstd::prelude::*;

verus! {

/// The bump seeds of the addresses that opening a market derives.
#[derive(Clone, Copy, Debug)]
pub struct CreateBetBumps {
    pub bet: u8,
    pub vault_authority: u8,
    pub vault_token_account: u8,
}

/// The accounts of `create_bet`.
#[derive(Debug)]
pub struct CreateBet {
    /// Who opens the market.
    pub signer: Address,
    /// The market's record, freshly allocated.
    pub bet: Bet,
    /// The keyless authority over the vault.
    pub vault_authority: Address,
    /// The vault, freshly allocated.
    pub vault_token_account: TokenAccount,
    /// The asset to wager.
    pub token_mint: Address,
    pub bumps: CreateBetBumps,
}

/// The accounts of `place_bet`.
#[derive(Debug)]
pub struct PlaceBet {
    /// The participant, who signs.
    pub bettor: Address,
    /// Where the market lives.
    pub bet_key: Address,
    /// The market.
    pub bet: Bet,
    /// The participant's position, freshly allocated.
    pub user_bet: UserBet,
    /// The account that pays the stake.
    pub bettor_token_account: TokenAccount,
    /// The vault that receives it.
    pub vault_token_account: TokenAccount,
    /// The present instant.
    pub unix_timestamp: i64,
    /// Whether bets at or after the market's end time are refused.
    pub enforce_cutoff: bool,
}

/// The accounts of `resolve_bet`.
#[derive(Debug)]
pub struct ResolveBet {
    /// The market.
    pub bet: Bet,
    /// The caller, who signs.
    pub creator: Address,
    /// The present instant.
    pub unix_timestamp: i64,
}

/// The accounts of `claim_winnings`.
#[derive(Debug)]
pub struct ClaimWinnings {
    /// Where the market lives.
    pub bet_key: Address,
    /// The market.
    pub bet: Bet,
    /// The caller's position.
    pub user_bet: UserBet,
    /// The caller, who signs.
    pub user: Address,
    /// The keyless authority over the vault, which signs the payment.
    pub vault_authority: Address,
    /// The vault that pays.
    pub vault_token_account: TokenAccount,
    /// The account that is paid.
    pub user_token_account: TokenAccount,
}

/// The record of a market that was just opened.
pub open spec fn opened(
    signer: Address,
    token_mint: Address,
    vault: Address,
    bumps: CreateBetBumps,
    title: String,
    bet_amount: u64,
    end_time: i64,
) -> Bet {
    Bet {
        creator: signer,
        title,
        bet_amount,
        total_yes_amount: 0,
        total_no_amount: 0,
        yes_bettors: 0,
        no_bettors: 0,
        end_time,
        resolved: false,
        outcome: false,
        token_mint,
        vault,
        bump: bumps.bet,
        bump_vault_authority: bumps.vault_authority,
        bump_vault_ta: bumps.vault_token_account,
    }
}

/// What `create_bet` is refused for, if it is: a stake of zero.
pub open spec fn create_bet_error(bet_amount: u64) -> Option<BettingError> {
    if bet_amount == 0 {
        Some(BettingError::InvalidStake)
    } else {
        None
    }
}

/// Opens a market: fills its record, with nothing staked and no outcome.
/// No funds move. The stake must be more than zero.
pub fn create_bet(ctx: &mut CreateBet, title: String, bet_amount: u64, end_time: i64) -> (r:
    Result<(), BettingError>)
    ensures
        match create_bet_error(bet_amount) {
            Some(e) => r == Err::<(), BettingError>(e) && *final(ctx) == *old(ctx),
            None => r is Ok && *final(ctx) == (CreateBet {
                bet: opened(
                    old(ctx).signer,
                    old(ctx).token_mint,
                    old(ctx).vault_token_account.key,
                    old(ctx).bumps,
                    title,
                    bet_amount,
                    end_time,
                ),
                ..*old(ctx)
            }) && final(ctx).bet.wf(),
        },
{
    if bet_amount == 0 {
        return Err(BettingError::InvalidStake);
    }
    assert(bet_amount * 0 == 0) by (nonlinear_arith);
    ctx.bet.creator = ctx.signer;
    ctx.bet.title = title;
    ctx.bet.bet_amount = bet_amount;
    ctx.bet.total_yes_amount = 0;
    ctx.bet.total_no_amount = 0;
    ctx.bet.yes_bettors = 0;
    ctx.bet.no_bettors = 0;
    ctx.bet.end_time = end_time;
    ctx.bet.resolved = false;
    ctx.bet.outcome = false;
    ctx.bet.token_mint = ctx.token_mint;
    ctx.bet.vault = ctx.vault_token_account.key;
    ctx.bet.bump = ctx.bumps.bet;
    ctx.bet.bump_vault_authority = ctx.bumps.vault_authority;
    ctx.bet.bump_vault_ta = ctx.bumps.vault_token_account;
    Ok(())
}

/// What a transfer within an operation is refused for, if it is.
pub open spec fn payment_error(
    from: TokenAccount,
    to: TokenAccount,
    authority: Address,
    amount: u64,
) -> Option<BettingError> {
    match transfer_error(from, to, authority, amount) {
        Some(e) => Some(BettingError::of_transfer(e)),
        None => None,
    }
}

/// What `place_bet` is refused for, if it is.
pub open spec fn place_bet_error(ctx: PlaceBet, bet_direction: bool) -> Option<BettingError> {
    if ctx.bet.resolved {
        Some(BettingError::AlreadyResolved)
    } else if ctx.enforce_cutoff && ctx.unix_timestamp >= ctx.bet.end_time {
        Some(BettingError::BetEndTimeExceeded)
    } else if ctx.vault_token_account.key != ctx.bet.vault {
        Some(BettingError::VaultMismatch)
    } else if ctx.bettor_token_account.mint != ctx.bet.token_mint {
        Some(BettingError::MintMismatch)
    } else {
        match payment_error(
            ctx.bettor_token_account,
            ctx.vault_token_account,
            ctx.bettor,
            ctx.bet.bet_amount,
        ) {
            Some(e) => Some(e),
            None => if ctx.bet.stake_overflows(bet_direction) {
                Some(BettingError::Overflow)
            } else {
                None
            },
        }
    }
}

/// The accounts after a bet on `bet_direction` was placed.
pub open spec fn place_bet_effect(ctx: PlaceBet, bet_direction: bool) -> PlaceBet {
    PlaceBet {
        bet: ctx.bet.staked(bet_direction),
        user_bet: UserBet {
            user: ctx.bettor,
            bet: ctx.bet_key,
            amount: ctx.bet.bet_amount,
            direction: bet_direction,
            claimed: false,
            ..ctx.user_bet
        },
        bettor_token_account: debited(ctx.bettor_token_account, ctx.bettor, ctx.bet.bet_amount),
        vault_token_account: credited(ctx.vault_token_account, ctx.bet.bet_amount),
        ..ctx
    }
}

/// Places a bet on yes (`true`) or no: moves the market's stake from the
/// participant into the vault, counts it on the side taken, and records the
/// position.
pub fn place_bet(ctx: &mut PlaceBet, bet_direction: bool) -> (r: Result<(), BettingError>)
    ensures
        match place_bet_error(*old(ctx), bet_direction) {
            Some(e) => r == Err::<(), BettingError>(e) && *final(ctx) == *old(ctx),
            None => r is Ok && *final(ctx) == place_bet_effect(*old(ctx), bet_direction),
        },
        old(ctx).bet.wf() ==> final(ctx).bet.wf(),
{
    if ctx.bet.resolved {
        return Err(BettingError::AlreadyResolved);
    }
    if ctx.enforce_cutoff && ctx.unix_timestamp >= ctx.bet.end_time {
        return Err(BettingError::BetEndTimeExceeded);
    }
    if ctx.vault_token_account.key != ctx.bet.vault {
        return Err(BettingError::VaultMismatch);
    }
    if ctx.bettor_token_account.mint != ctx.bet.token_mint {
        return Err(BettingError::MintMismatch);
    }
    let stake: u64 = ctx.bet.bet_amount;
    let bettor = ctx.bettor;
    let mut from = ctx.bettor_token_account;
    let mut to = ctx.vault_token_account;
    match transfer(&mut from, &mut to, &bettor, stake) {
        Err(e) => {
            return Err(BettingError::from_transfer(e));
        },
        Ok(()) => {},
    }
    let count: u64 = if bet_direction {
        ctx.bet.yes_bettors
    } else {
        ctx.bet.no_bettors
    };
    if count == u64::MAX {
        return Err(BettingError::Overflow);
    }
    match ctx.bet.pool() {
        None => {
            return Err(BettingError::Overflow);
        },
        Some(pool) => {
            if stake > u64::MAX - pool {
                return Err(BettingError::Overflow);
            }
        },
    }
    proof {
        if old(ctx).bet.wf() {
            crate::state::lemma_staked_wf(old(ctx).bet, bet_direction);
        }
    }
    if bet_direction {
        ctx.bet.yes_bettors = ctx.bet.yes_bettors + 1;
        ctx.bet.total_yes_amount = ctx.bet.total_yes_amount + stake;
    } else {
        ctx.bet.no_bettors = ctx.bet.no_bettors + 1;
        ctx.bet.total_no_amount = ctx.bet.total_no_amount + stake;
    }
    ctx.bettor_token_account = from;
    ctx.vault_token_account = to;
    ctx.user_bet.user = ctx.bettor;
    ctx.user_bet.bet = ctx.bet_key;
    ctx.user_bet.amount = stake;
    ctx.user_bet.direction = bet_direction;
    ctx.user_bet.claimed = false;
    Ok(())
}

/// What `resolve_bet` is refused for, if it is.
pub open spec fn resolve_bet_error(ctx: ResolveBet) -> Option<BettingError> {
    if ctx.bet.creator != ctx.creator {
        Some(BettingError::Unauthorized)
    } else if ctx.bet.resolved {
        Some(BettingError::AlreadyResolved)
    } else if ctx.unix_timestamp < ctx.bet.end_time {
        Some(BettingError::NotYetEligibleToResolve)
    } else {
        None
    }
}

/// Resolves the market with `outcome`, yes being `true`. Only the creator
/// may, once, and not before the end time.
pub fn resolve_bet(ctx: &mut ResolveBet, outcome: bool) -> (r: Result<(), BettingError>)
    ensures
        match resolve_bet_error(*old(ctx)) {
            Some(e) => r == Err::<(), BettingError>(e) && *final(ctx) == *old(ctx),
            None => r is Ok && *final(ctx) == (ResolveBet {
                bet: old(ctx).bet.settled(outcome),
                ..*old(ctx)
            }),
        },
        old(ctx).bet.wf() ==> final(ctx).bet.wf(),
{
    if ctx.bet.creator != ctx.creator {
        return Err(BettingError::Unauthorized);
    }
    if ctx.bet.resolved {
        return Err(BettingError::AlreadyResolved);
    }
    if ctx.unix_timestamp < ctx.bet.end_time {
        return Err(BettingError::NotYetEligibleToResolve);
    }
    ctx.bet.resolved = true;
    ctx.bet.outcome = outcome;
    Ok(())
}

/// What `claim_winnings` is refused for, if it is.
pub open spec fn claim_winnings_error(ctx: ClaimWinnings) -> Option<BettingError> {
    if ctx.user_bet.user != ctx.user || ctx.user_bet.bet != ctx.bet_key {
        Some(BettingError::PositionNotFound)
    } else if !ctx.bet.resolved {
        Some(BettingError::BetNotResolved)
    } else if ctx.user_bet.claimed {
        Some(BettingError::AlreadyClaimed)
    } else if ctx.user_bet.direction != ctx.bet.outcome {
        Some(BettingError::NotAWinner)
    } else if ctx.vault_token_account.key != ctx.bet.vault {
        Some(BettingError::VaultMismatch)
    } else if ctx.user_token_account.mint != ctx.bet.token_mint {
        Some(BettingError::MintMismatch)
    } else if ctx.bet.winners_count() == 0 {
        Some(BettingError::NotAWinner)
    } else if ctx.bet.total_pool() > u64::MAX {
        Some(BettingError::Overflow)
    } else {
        payment_error(
            ctx.vault_token_account,
            ctx.user_token_account,
            ctx.vault_authority,
            ctx.bet.winning_amount() as u64,
        )
    }
}

/// The accounts after the caller's share was paid.
pub open spec fn claim_winnings_effect(ctx: ClaimWinnings) -> ClaimWinnings {
    ClaimWinnings {
        user_bet: UserBet { claimed: true, ..ctx.user_bet },
        vault_token_account: debited(
            ctx.vault_token_account,
            ctx.vault_authority,
            ctx.bet.winning_amount() as u64,
        ),
        user_token_account: credited(ctx.user_token_account, ctx.bet.winning_amount() as u64),
        ..ctx
    }
}

/// Pays a winner's share out of the vault: the pool divided by the number of
/// winners, rounded down. The remainder of the division stays in the vault.
/// Only the caller's own position in this market is paid.
pub fn claim_winnings(ctx: &mut ClaimWinnings) -> (r: Result<(), BettingError>)
    ensures
        match claim_winnings_error(*old(ctx)) {
            Some(e) => r == Err::<(), BettingError>(e) && *final(ctx) == *old(ctx),
            None => r is Ok && *final(ctx) == claim_winnings_effect(*old(ctx)),
        },
{
    if ctx.user_bet.user != ctx.user || ctx.user_bet.bet != ctx.bet_key {
        return Err(BettingError::PositionNotFound);
    }
    if !ctx.bet.resolved {
        return Err(BettingError::BetNotResolved);
    }
    if ctx.user_bet.claimed {
        return Err(BettingError::AlreadyClaimed);
    }
    if ctx.user_bet.direction != ctx.bet.outcome {
        return Err(BettingError::NotAWinner);
    }
    if ctx.vault_token_account.key != ctx.bet.vault {
        return Err(BettingError::VaultMismatch);
    }
    if ctx.user_token_account.mint != ctx.bet.token_mint {
        return Err(BettingError::MintMismatch);
    }
    let winners_count: u64 = ctx.bet.winners();
    if winners_count == 0 {
        return Err(BettingError::NotAWinner);
    }
    let total_winning_amount: u64 = match ctx.bet.pool() {
        None => {
            return Err(BettingError::Overflow);
        },
        Some(pool) => pool,
    };
    let winning_amount: u64 = total_winning_amount / winners_count;
    let authority = ctx.vault_authority;
    let mut from = ctx.vault_token_account;
    let mut to = ctx.user_token_account;
    match transfer(&mut from, &mut to, &authority, winning_amount) {
        Err(e) => {
            return Err(BettingError::from_transfer(e));
        },
        Ok(()) => {},
    }
    ctx.vault_token_account = from;
    ctx.user_token_account = to;
    ctx.user_bet.claimed = true;
    Ok(())
}

} // verus!
