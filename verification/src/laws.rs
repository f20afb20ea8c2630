//! What holds of every ledger, whatever was called on it and in what order.

use crate::address::Address;
use crate::error::BettingError;
use crate::instructions::{claim_winnings_effect, claim_winnings_error, ClaimWinnings};
use crate::model::{LedgerState, Operation};
use crate::state::{Bet, UserBet};
use crate::token::TokenAccount;
use vstd::arithmetic::div_mod::{
    lemma_div_is_ordered, lemma_div_multiples_vanish, lemma_fundamental_div_mod,
    lemma_mod_pos_bound,
};
use vstd::prelude::*;

verus! {

/// `later` is `earlier` at a later time: what was fixed when the market was
/// opened is the same, and an outcome, once set, has stayed.
pub open spec fn bet_follows(earlier: Bet, later: Bet) -> bool {
    &&& later.creator == earlier.creator
    &&& later.title == earlier.title
    &&& later.bet_amount == earlier.bet_amount
    &&& later.end_time == earlier.end_time
    &&& later.token_mint == earlier.token_mint
    &&& later.vault == earlier.vault
    &&& earlier.resolved ==> later.resolved && later.outcome == earlier.outcome
}

/// `later` is `earlier` at a later time: the wager is the same, and a
/// payment, once made, has stayed.
pub open spec fn user_bet_follows(earlier: UserBet, later: UserBet) -> bool {
    &&& later.user == earlier.user
    &&& later.bet == earlier.bet
    &&& later.amount == earlier.amount
    &&& later.direction == earlier.direction
    &&& earlier.claimed ==> later.claimed
}

/// `later` holds every market and every position of `earlier`, each at a
/// later time.
pub open spec fn follows(earlier: LedgerState, later: LedgerState) -> bool {
    &&& later.program_id == earlier.program_id
    &&& later.enforce_cutoff == earlier.enforce_cutoff
    &&& forall|key: Address| #[trigger]
        earlier.markets.contains_key(key) ==> later.markets.contains_key(key) && bet_follows(
            earlier.markets[key].bet,
            later.markets[key].bet,
        )
    &&& forall|p: Address| #[trigger]
        earlier.positions.contains_key(p) ==> later.positions.contains_key(p) && user_bet_follows(
            earlier.positions[p],
            later.positions[p],
        )
}

/// The pool of a sound market is the stake times the number of its
/// participants.
pub proof fn lemma_pool_is_stake_times_bettors(bet: Bet)
    requires
        bet.wf(),
    ensures
        bet.total_yes_amount + bet.total_no_amount == bet.bet_amount * (bet.yes_bettors
            + bet.no_bettors),
{
    let stake = bet.bet_amount as int;
    let yes = bet.yes_bettors as int;
    let no = bet.no_bettors as int;
    assert(stake * (yes + no) == stake * yes + stake * no) by (nonlinear_arith);
}

/// One call keeps a sound ledger sound, whether it succeeds or is refused.
pub proof fn lemma_step_keeps_inv(s: LedgerState, op: Operation)
    requires
        s.inv(),
    ensures
        s.step(op).inv(),
{
    match op {
        Operation::CreateBet { signer, token_mint, title, bet_amount, end_time } => {
            if s.create_bet_error(title@, bet_amount) is None {
                s.lemma_create_bet_at_inv(
                    crate::pda::market_addresses(title@, s.program_id).unwrap(),
                    signer,
                    token_mint,
                    title,
                    bet_amount,
                    end_time,
                );
            }
        },
        Operation::PlaceBet { bettor, bet_key, account, vault_key, bet_direction, now } => {
            if s.place_bet_error(bettor, bet_key, account, vault_key, bet_direction, now) is None {
                s.lemma_place_bet_at_inv(
                    s.position_address(bettor, bet_key).unwrap(),
                    bettor,
                    bet_key,
                    account,
                    vault_key,
                    bet_direction,
                    now,
                );
            }
        },
        Operation::ResolveBet { creator, bet_key, outcome, now } => {
            if s.resolve_bet_error(creator, bet_key, now) is None {
                s.lemma_resolve_bet_inv(creator, bet_key, outcome, now);
            }
        },
        Operation::ClaimWinnings { user, bet_key, vault_key, account } => {
            if s.claim_winnings_error(user, bet_key, vault_key, account) is None {
                s.lemma_claim_winnings_at_inv(
                    s.position_address(user, bet_key).unwrap(),
                    user,
                    bet_key,
                    vault_key,
                    account,
                );
            }
        },
    }
}

/// Any sequence of calls keeps a sound ledger sound.
pub proof fn lemma_run_keeps_inv(s: LedgerState, ops: Seq<Operation>)
    requires
        s.inv(),
    ensures
        s.run(ops).inv(),
    decreases ops.len(),
{
    if ops.len() > 0 {
        lemma_run_keeps_inv(s, ops.drop_last());
        lemma_step_keeps_inv(s.run(ops.drop_last()), ops.last());
    }
}

/// After any sequence of calls on a new ledger, the totals of every market
/// are the stake times the number of its participants.
pub proof fn lemma_totals_are_exact(
    program_id: Address,
    enforce_cutoff: bool,
    ops: Seq<Operation>,
    bet_key: Address,
)
    requires
        LedgerState::empty(program_id, enforce_cutoff).run(ops).markets.contains_key(bet_key),
    ensures
        ({
            let bet = LedgerState::empty(program_id, enforce_cutoff).run(ops).markets[bet_key].bet;
            bet.total_yes_amount + bet.total_no_amount == bet.bet_amount * (bet.yes_bettors
                + bet.no_bettors)
        }),
{
    let start = LedgerState::empty(program_id, enforce_cutoff);
    lemma_run_keeps_inv(start, ops);
    assert(start.run(ops).market_inv(bet_key));
    lemma_pool_is_stake_times_bettors(start.run(ops).markets[bet_key].bet);
}

/// One call deletes nothing and takes nothing back.
pub proof fn lemma_step_follows(s: LedgerState, op: Operation)
    ensures
        follows(s, s.step(op)),
{
}

/// No sequence of calls deletes anything or takes anything back.
pub proof fn lemma_run_follows(s: LedgerState, ops: Seq<Operation>)
    ensures
        follows(s, s.run(ops)),
    decreases ops.len(),
{
    if ops.len() > 0 {
        lemma_run_follows(s, ops.drop_last());
        lemma_step_follows(s.run(ops.drop_last()), ops.last());
    }
}

/// A participant who has placed a bet in a market cannot place a second one
/// there: whatever is called in between, and whatever side, account or vault
/// the second attempt names, it is refused with `DuplicatePosition`.
pub proof fn lemma_second_bet_is_refused(
    s: LedgerState,
    bettor: Address,
    bet_key: Address,
    account: TokenAccount,
    vault_key: Address,
    bet_direction: bool,
    now: i64,
    between: Seq<Operation>,
    again_account: TokenAccount,
    again_vault_key: Address,
    again_direction: bool,
    again_now: i64,
)
    requires
        s.place_bet_error(bettor, bet_key, account, vault_key, bet_direction, now) is None,
    ensures
        s.place_bet_effect(bettor, bet_key, account, vault_key, bet_direction, now).0.run(
            between,
        ).place_bet_error(
            bettor,
            bet_key,
            again_account,
            again_vault_key,
            again_direction,
            again_now,
        ) == Some(BettingError::DuplicatePosition),
{
    let placed = s.place_bet_effect(bettor, bet_key, account, vault_key, bet_direction, now).0;
    let position = s.position_address(bettor, bet_key).unwrap();
    assert(placed.markets.contains_key(bet_key));
    assert(placed.positions.contains_key(position));
    lemma_run_follows(placed, between);
}

/// A market cannot be resolved before its end time: the creator's attempt on
/// an open market is refused with `NotYetEligibleToResolve`.
pub proof fn lemma_resolve_too_early(s: LedgerState, bet_key: Address, now: i64)
    requires
        s.markets.contains_key(bet_key),
        !s.markets[bet_key].bet.resolved,
        now < s.markets[bet_key].bet.end_time,
    ensures
        s.resolve_bet_error(s.markets[bet_key].bet.creator, bet_key, now) == Some(
            BettingError::NotYetEligibleToResolve,
        ),
{
}

/// At or after the end time the creator resolves an open market, and only
/// once: the outcome is set, and whatever is called afterwards, the outcome
/// stays and the creator's next attempt is refused with `AlreadyResolved`.
pub proof fn lemma_resolve_exactly_once(
    s: LedgerState,
    bet_key: Address,
    outcome: bool,
    now: i64,
    between: Seq<Operation>,
    again_now: i64,
)
    requires
        s.markets.contains_key(bet_key),
        !s.markets[bet_key].bet.resolved,
        now >= s.markets[bet_key].bet.end_time,
    ensures
        s.resolve_bet_error(s.markets[bet_key].bet.creator, bet_key, now) is None,
        ({
            let later = s.resolve_bet_effect(bet_key, outcome).run(between);
            &&& later.markets.contains_key(bet_key)
            &&& later.markets[bet_key].bet.resolved
            &&& later.markets[bet_key].bet.outcome == outcome
            &&& later.resolve_bet_error(s.markets[bet_key].bet.creator, bet_key, again_now) == Some(
                BettingError::AlreadyResolved,
            )
        }),
{
    let resolved = s.resolve_bet_effect(bet_key, outcome);
    assert(resolved.markets.contains_key(bet_key));
    lemma_run_follows(resolved, between);
}

/// Nobody is paid before the market is resolved: a participant's claim is
/// refused with `BetNotResolved`.
pub proof fn lemma_claim_before_resolution(
    s: LedgerState,
    user: Address,
    bet_key: Address,
    vault_key: Address,
    account: TokenAccount,
)
    requires
        s.markets.contains_key(bet_key),
        !s.markets[bet_key].bet.resolved,
        s.position_address(user, bet_key) is Some,
        s.has_position(s.position_address(user, bet_key).unwrap(), user, bet_key),
    ensures
        s.claim_winnings_error(user, bet_key, vault_key, account) == Some(
            BettingError::BetNotResolved,
        ),
{
}

/// A participant on the losing side is never paid: the claim is refused with
/// `NotAWinner`.
pub proof fn lemma_loser_cannot_claim(
    s: LedgerState,
    user: Address,
    bet_key: Address,
    vault_key: Address,
    account: TokenAccount,
)
    requires
        s.inv(),
        s.markets.contains_key(bet_key),
        s.markets[bet_key].bet.resolved,
        s.position_address(user, bet_key) is Some,
        s.has_position(s.position_address(user, bet_key).unwrap(), user, bet_key),
        s.positions[s.position_address(user, bet_key).unwrap()].direction
            != s.markets[bet_key].bet.outcome,
    ensures
        s.claim_winnings_error(user, bet_key, vault_key, account) == Some(BettingError::NotAWinner),
{
    assert(s.position_inv(s.position_address(user, bet_key).unwrap()));
}

/// What a claim of a winner who was not paid yet can still be refused for:
/// a vault that is not the market's, an account in another asset, or an
/// account that cannot hold the share. The vault never lacks the funds.
pub proof fn lemma_winner_is_paid(
    s: LedgerState,
    user: Address,
    bet_key: Address,
    vault_key: Address,
    account: TokenAccount,
)
    requires
        s.inv(),
        s.markets.contains_key(bet_key),
        s.markets[bet_key].bet.resolved,
        s.position_address(user, bet_key) is Some,
        s.has_position(s.position_address(user, bet_key).unwrap(), user, bet_key),
        !s.positions[s.position_address(user, bet_key).unwrap()].claimed,
        s.positions[s.position_address(user, bet_key).unwrap()].direction
            == s.markets[bet_key].bet.outcome,
    ensures
        s.claim_winnings_error(user, bet_key, vault_key, account) == (if vault_key
            != s.markets[bet_key].bet.vault {
            Some(BettingError::VaultMismatch)
        } else if account.mint != s.markets[bet_key].bet.token_mint {
            Some(BettingError::MintMismatch)
        } else if account.amount + s.markets[bet_key].bet.winning_amount() > u64::MAX {
            Some(BettingError::Overflow)
        } else {
            None
        }),
{
    let position = s.position_address(user, bet_key).unwrap();
    assert(s.market_inv(bet_key));
    s.lemma_vault_covers_share(position, bet_key);
    let bet = s.markets[bet_key].bet;
    lemma_fundamental_div_mod(bet.total_pool(), bet.winners_count());
    lemma_mod_pos_bound(bet.total_pool(), bet.winners_count());
}

/// A winner's share is never less than the stake.
pub proof fn lemma_share_covers_stake(bet: Bet)
    requires
        bet.wf(),
        bet.winners_count() > 0,
    ensures
        bet.winning_amount() == bet.total_pool() / bet.winners_count(),
        bet.winning_amount() >= bet.bet_amount,
{
    let stake = bet.bet_amount as int;
    let winners = bet.winners_count();
    let others = bet.bettors_on(!bet.outcome);
    assert(bet.total_pool() == winners * stake + stake * others) by (nonlinear_arith)
        requires
            bet.total_pool() == stake * bet.yes_bettors + stake * bet.no_bettors,
            winners + others == bet.yes_bettors + bet.no_bettors,
    ;
    assert(stake * others >= 0) by (nonlinear_arith)
        requires
            stake >= 0,
            others >= 0,
    ;
    lemma_div_multiples_vanish(stake, winners);
    lemma_div_is_ordered(winners * stake, bet.total_pool(), winners);
}

/// On accounts that fit together, `claim_winnings` pays a winner who was not
/// paid yet: the pool divided by the number of winners, rounded down and
/// never less than the stake, moves from the vault to the winner, and the
/// position counts as paid.
///
/// The accounts fit together where the position is the caller's in this
/// market and is counted among the winners, the vault is the market's, holds
/// the share and is owned by the authority that signs, and both token
/// accounts hold the market's asset, the winner's with room for the share.
pub proof fn lemma_claim_winnings_pays_the_share(ctx: ClaimWinnings)
    requires
        ctx.bet.wf(),
        ctx.bet.resolved,
        ctx.user_bet.user == ctx.user,
        ctx.user_bet.bet == ctx.bet_key,
        !ctx.user_bet.claimed,
        ctx.user_bet.direction == ctx.bet.outcome,
        ctx.bet.winners_count() > 0,
        ctx.vault_token_account.key == ctx.bet.vault,
        ctx.vault_token_account.mint == ctx.bet.token_mint,
        ctx.vault_token_account.owner == ctx.vault_authority,
        ctx.vault_token_account.delegate is None,
        ctx.vault_token_account.amount >= ctx.bet.winning_amount(),
        ctx.user_token_account.mint == ctx.bet.token_mint,
        ctx.user_token_account.amount + ctx.bet.winning_amount() <= u64::MAX,
    ensures
        claim_winnings_error(ctx) is None,
        ({
            let share = ctx.bet.total_pool() / ctx.bet.winners_count();
            let paid = claim_winnings_effect(ctx);
            &&& share >= ctx.bet.bet_amount
            &&& paid.user_bet == (UserBet { claimed: true, ..ctx.user_bet })
            &&& paid.bet == ctx.bet
            &&& paid.vault_token_account == (TokenAccount {
                amount: (ctx.vault_token_account.amount - share) as u64,
                ..ctx.vault_token_account
            })
            &&& paid.user_token_account == (TokenAccount {
                amount: (ctx.user_token_account.amount + share) as u64,
                ..ctx.user_token_account
            })
        }),
{
    let bet = ctx.bet;
    lemma_share_covers_stake(bet);
    lemma_fundamental_div_mod(bet.total_pool(), bet.winners_count());
    lemma_mod_pos_bound(bet.total_pool(), bet.winners_count());
}

/// A winner who was not paid yet is paid by the claim: the vault pays the
/// pool divided by the number of winners, rounded down and never less than
/// the stake, into the winner's account, and the position counts as paid.
///
/// The account must hold the market's asset and have room for the share: no
/// payment into another asset or beyond 64 bits can be made.
pub proof fn lemma_winner_claim_pays_the_share(
    s: LedgerState,
    user: Address,
    bet_key: Address,
    account: TokenAccount,
)
    requires
        s.inv(),
        s.markets.contains_key(bet_key),
        s.markets[bet_key].bet.resolved,
        s.position_address(user, bet_key) is Some,
        s.has_position(s.position_address(user, bet_key).unwrap(), user, bet_key),
        !s.positions[s.position_address(user, bet_key).unwrap()].claimed,
        s.positions[s.position_address(user, bet_key).unwrap()].direction
            == s.markets[bet_key].bet.outcome,
        account.mint == s.markets[bet_key].bet.token_mint,
        account.amount + s.markets[bet_key].bet.winning_amount() <= u64::MAX,
    ensures
        s.claim_winnings_error(user, bet_key, s.markets[bet_key].bet.vault, account) is None,
        ({
            let bet = s.markets[bet_key].bet;
            let position = s.position_address(user, bet_key).unwrap();
            let share = bet.total_pool() / bet.winners_count();
            let paid = s.claim_winnings_effect(user, bet_key, bet.vault, account);
            &&& bet.winners_count() > 0
            &&& share >= bet.bet_amount
            &&& paid.1 == (TokenAccount { amount: (account.amount + share) as u64, ..account })
            &&& paid.0.markets[bet_key].vault == (TokenAccount {
                amount: (s.markets[bet_key].vault.amount - share) as u64,
                ..s.markets[bet_key].vault
            })
            &&& paid.0.markets[bet_key].bet == bet
            &&& paid.0.positions[position] == (UserBet { claimed: true, ..s.positions[position] })
        }),
{
    let bet = s.markets[bet_key].bet;
    let position = s.position_address(user, bet_key).unwrap();
    lemma_winner_is_paid(s, user, bet_key, bet.vault, account);
    assert(s.market_inv(bet_key));
    s.lemma_vault_covers_share(position, bet_key);
    lemma_share_covers_stake(bet);
}

/// A winner is paid exactly once: the first claim pays the share into the
/// winner's account, and whatever is called afterwards, the next claim is
/// refused with `AlreadyClaimed`.
pub proof fn lemma_winner_claims_exactly_once(
    s: LedgerState,
    user: Address,
    bet_key: Address,
    account: TokenAccount,
    between: Seq<Operation>,
    again_vault_key: Address,
    again_account: TokenAccount,
)
    requires
        s.inv(),
        s.markets.contains_key(bet_key),
        s.markets[bet_key].bet.resolved,
        s.position_address(user, bet_key) is Some,
        s.has_position(s.position_address(user, bet_key).unwrap(), user, bet_key),
        !s.positions[s.position_address(user, bet_key).unwrap()].claimed,
        s.positions[s.position_address(user, bet_key).unwrap()].direction
            == s.markets[bet_key].bet.outcome,
        account.mint == s.markets[bet_key].bet.token_mint,
        account.amount + s.markets[bet_key].bet.winning_amount() <= u64::MAX,
    ensures
        s.claim_winnings_error(user, bet_key, s.markets[bet_key].bet.vault, account) is None,
        s.claim_winnings_effect(user, bet_key, s.markets[bet_key].bet.vault, account).1.amount
            == account.amount + s.markets[bet_key].bet.winning_amount(),
        s.claim_winnings_effect(user, bet_key, s.markets[bet_key].bet.vault, account).0.run(
            between,
        ).claim_winnings_error(user, bet_key, again_vault_key, again_account) == Some(
            BettingError::AlreadyClaimed,
        ),
{
    let vault_key = s.markets[bet_key].bet.vault;
    let position = s.position_address(user, bet_key).unwrap();
    lemma_winner_is_paid(s, user, bet_key, vault_key, account);
    let paid = s.claim_winnings_effect(user, bet_key, vault_key, account).0;
    assert(paid.markets.contains_key(bet_key));
    assert(paid.positions.contains_key(position));
    lemma_run_follows(paid, between);
}

/// What was paid out of a market's vault so far: one share for each position
/// paid.
pub open spec fn disbursed(s: LedgerState, bet_key: Address) -> int {
    s.markets[bet_key].bet.winning_amount() * s.paid(bet_key).len()
}

/// What a market has paid never exceeds its pool, and the vault holds the
/// rest. When every winner has been paid, the rest is the remainder of the
/// pool divided by the number of winners.
pub proof fn lemma_disbursed_within_pool(s: LedgerState, bet_key: Address)
    requires
        s.inv(),
        s.markets.contains_key(bet_key),
    ensures
        0 <= disbursed(s, bet_key) <= s.markets[bet_key].bet.total_pool(),
        s.markets[bet_key].vault.amount == s.markets[bet_key].bet.total_pool() - disbursed(
            s,
            bet_key,
        ),
        s.paid(bet_key).len() <= s.markets[bet_key].bet.winners_count(),
        s.paid(bet_key).len() == s.markets[bet_key].bet.winners_count() ==> s.markets[bet_key].vault.amount
            == s.markets[bet_key].bet.stranded(),
{
    let bet = s.markets[bet_key].bet;
    assert(s.market_inv(bet_key));
    s.lemma_position_sets(bet_key);
    let count = bet.winners_count();
    if count > 0 {
        lemma_fundamental_div_mod(bet.total_pool(), count);
        lemma_mod_pos_bound(bet.total_pool(), count);
        assert(bet.winning_amount() * count == count * bet.winning_amount()) by (nonlinear_arith);
    }
}

} // verus!
