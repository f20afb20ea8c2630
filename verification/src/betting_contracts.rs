//! A market that pays every winner when it is resolved.
//!
//! The market keeps the list of its participants on each side. Resolving it
//! walks the winning side and pays each winner out of the escrow, into the
//! accounts that the caller supplies in the order of that list. The whole
//! payout is one operation: where any payment is refused, none has happened.

use crate::address::Address;
use crate::token::{credited, debited, transfer, transfer_error, TokenAccount, TransferError};
use vstd::prelude::*;

verus! {

/// Why an operation on the market did not happen.
#[derive(Clone, Copy, Debug, PartialEq, Eq, Structural)]
pub enum ErrorCode {
    /// The market has already been resolved.
    BetAlreadyResolved,
    /// Only the creator can resolve the market.
    UnauthorizedResolver,
    /// The account supplied for a winner is not the winner's.
    InvalidWinner,
    /// Fewer accounts were supplied than there are winners.
    NotEnoughAccountKeys,
    /// A total would leave the range of 64 bits.
    Overflow,
    /// The stake of a market must be more than zero.
    InvalidStake,
    /// A payment was refused.
    Transfer(TransferError),
}

/// One proposition with two sides, and who has staked on each.
#[derive(Debug)]
pub struct Bet {
    /// Who opened the market and may resolve it.
    pub creator: Address,
    /// The market's label.
    pub title: String,
    /// The stake that every participant puts in.
    pub bet_amount: u64,
    /// The sum staked on yes.
    pub total_yes_amount: u64,
    /// The sum staked on no.
    pub total_no_amount: u64,
    /// The participants on yes, in the order of their bets.
    pub yes_bettors: Vec<Address>,
    /// The participants on no, in the order of their bets.
    pub no_bettors: Vec<Address>,
    /// Whether the market has been resolved and paid.
    pub resolved: bool,
}

/// The accounts of `initialize_bet`.
#[derive(Debug)]
pub struct InitializeBet {
    /// The market's record, freshly allocated.
    pub bet: Bet,
    /// Who opens the market.
    pub creator: Address,
}

/// The accounts of `place_bet`.
#[derive(Debug)]
pub struct PlaceBet {
    /// The market.
    pub bet: Bet,
    /// The participant, who signs.
    pub bettor: Address,
    /// The account that pays the stake.
    pub bettor_token_account: TokenAccount,
    /// The escrow that receives it.
    pub escrow_token_account: TokenAccount,
}

/// The two accounts that the caller supplies for one winner.
#[derive(Clone, Copy, Debug)]
pub struct WinnerAccounts {
    /// The winner.
    pub winner: Address,
    /// The account that is paid.
    pub token_account: TokenAccount,
}

/// The accounts of `resolve_bet`.
#[derive(Debug)]
pub struct ResolveBet {
    /// Where the market lives. The market itself is the authority over its
    /// escrow.
    pub bet_key: Address,
    /// The market.
    pub bet: Bet,
    /// The caller, who signs.
    pub creator: Address,
    /// The escrow that pays.
    pub escrow_token_account: TokenAccount,
    /// The winners' accounts, in the order of the winning side's list.
    pub remaining_accounts: Vec<WinnerAccounts>,
}

impl Bet {
    /// The stake is more than zero, and each side's total is the stake times
    /// the side's participants.
    pub open spec fn wf(&self) -> bool {
        &&& self.bet_amount > 0
        &&& self.total_yes_amount == self.bet_amount * self.yes_bettors@.len()
        &&& self.total_no_amount == self.bet_amount * self.no_bettors@.len()
    }

    /// Everything that was staked, on both sides.
    pub open spec fn total_pot(&self) -> int {
        self.total_yes_amount + self.total_no_amount
    }

    /// The sum staked on the given side.
    pub open spec fn total_on(&self, side: bool) -> int {
        if side {
            self.total_yes_amount as int
        } else {
            self.total_no_amount as int
        }
    }

    /// The participants on the given side.
    pub open spec fn bettors_on(&self, side: bool) -> Seq<Address> {
        if side {
            self.yes_bettors@
        } else {
            self.no_bettors@
        }
    }

    /// What each winner is paid where `winning_side` wins: the pot divided by
    /// the winners, rounded down, and zero where nobody won.
    pub open spec fn profit_per_winner(&self, winning_side: bool) -> int {
        if self.bettors_on(winning_side).len() > 0 {
            self.total_pot() / (self.bettors_on(winning_side).len() as int)
        } else {
            0
        }
    }
}

/// Opens a market: fills its record, with nobody on either side. A stake of
/// zero is refused with `InvalidStake`, and the record stays as it was.
pub fn initialize_bet(ctx: &mut InitializeBet, title: String, bet_amount: u64) -> (r: Result<
    (),
    ErrorCode,
>)
    ensures
        bet_amount == 0 ==> r == Err::<(), ErrorCode>(ErrorCode::InvalidStake) && *final(ctx)
            == *old(ctx),
        bet_amount > 0 ==> {
            &&& r is Ok
            &&& final(ctx).creator == old(ctx).creator
            &&& final(ctx).bet.creator == old(ctx).creator
            &&& final(ctx).bet.title == title
            &&& final(ctx).bet.bet_amount == bet_amount
            &&& final(ctx).bet.total_yes_amount == 0
            &&& final(ctx).bet.total_no_amount == 0
            &&& final(ctx).bet.yes_bettors@ == Seq::<Address>::empty()
            &&& final(ctx).bet.no_bettors@ == Seq::<Address>::empty()
            &&& !final(ctx).bet.resolved
            &&& final(ctx).bet.wf()
        },
{
    if bet_amount == 0 {
        return Err(ErrorCode::InvalidStake);
    }
    assert(bet_amount * 0 == 0) by (nonlinear_arith);
    ctx.bet.creator = ctx.creator;
    ctx.bet.title = title;
    ctx.bet.bet_amount = bet_amount;
    ctx.bet.total_yes_amount = 0;
    ctx.bet.total_no_amount = 0;
    ctx.bet.yes_bettors = Vec::new();
    ctx.bet.no_bettors = Vec::new();
    ctx.bet.resolved = false;
    Ok(())
}

/// What `place_bet` is refused for, if it is.
pub open spec fn place_bet_error(ctx: PlaceBet, side: bool) -> Option<ErrorCode> {
    if ctx.bet.resolved {
        Some(ErrorCode::BetAlreadyResolved)
    } else {
        match transfer_error(
            ctx.bettor_token_account,
            ctx.escrow_token_account,
            ctx.bettor,
            ctx.bet.bet_amount,
        ) {
            Some(e) => Some(ErrorCode::Transfer(e)),
            None => if ctx.bet.total_on(side) + ctx.bet.bet_amount > u64::MAX {
                Some(ErrorCode::Overflow)
            } else {
                None
            },
        }
    }
}

/// `after` is `before` with the participant's stake moved into the escrow
/// and the participant added at the end of the side taken.
pub open spec fn place_bet_effect(before: PlaceBet, after: PlaceBet, side: bool) -> bool {
    &&& after.bettor == before.bettor
    &&& after.bettor_token_account == debited(
        before.bettor_token_account,
        before.bettor,
        before.bet.bet_amount,
    )
    &&& after.escrow_token_account == credited(before.escrow_token_account, before.bet.bet_amount)
    &&& after.bet.creator == before.bet.creator
    &&& after.bet.title == before.bet.title
    &&& after.bet.bet_amount == before.bet.bet_amount
    &&& after.bet.resolved == before.bet.resolved
    &&& after.bet.bettors_on(side) == before.bet.bettors_on(side).push(before.bettor)
    &&& after.bet.bettors_on(!side) == before.bet.bettors_on(!side)
    &&& after.bet.total_on(side) == before.bet.total_on(side) + before.bet.bet_amount
    &&& after.bet.total_on(!side) == before.bet.total_on(!side)
}

/// Places a bet on yes (`true`) or no: moves the market's stake from the
/// participant into the escrow and adds the participant to the side taken.
pub fn place_bet(ctx: &mut PlaceBet, side: bool) -> (r: Result<(), ErrorCode>)
    ensures
        match place_bet_error(*old(ctx), side) {
            Some(e) => r == Err::<(), ErrorCode>(e) && *final(ctx) == *old(ctx),
            None => r is Ok && place_bet_effect(*old(ctx), *final(ctx), side),
        },
        old(ctx).bet.wf() ==> final(ctx).bet.wf(),
{
    if ctx.bet.resolved {
        return Err(ErrorCode::BetAlreadyResolved);
    }
    let stake: u64 = ctx.bet.bet_amount;
    let bettor = ctx.bettor;
    let mut from = ctx.bettor_token_account;
    let mut to = ctx.escrow_token_account;
    match transfer(&mut from, &mut to, &bettor, stake) {
        Err(e) => {
            return Err(ErrorCode::Transfer(e));
        },
        Ok(()) => {},
    }
    let total: u64 = if side {
        ctx.bet.total_yes_amount
    } else {
        ctx.bet.total_no_amount
    };
    if stake > u64::MAX - total {
        return Err(ErrorCode::Overflow);
    }
    proof {
        let stake = stake as int;
        let yes = ctx.bet.yes_bettors@.len() as int;
        let no = ctx.bet.no_bettors@.len() as int;
        assert(stake * (yes + 1) == stake * yes + stake) by (nonlinear_arith);
        assert(stake * (no + 1) == stake * no + stake) by (nonlinear_arith);
    }
    if side {
        ctx.bet.yes_bettors.push(bettor);
        ctx.bet.total_yes_amount = total + stake;
    } else {
        ctx.bet.no_bettors.push(bettor);
        ctx.bet.total_no_amount = total + stake;
    }
    ctx.bettor_token_account = from;
    ctx.escrow_token_account = to;
    Ok(())
}

/// The escrow after the first `paid` winners were paid. The market itself
/// signs each payment.
pub open spec fn escrow_after(ctx: ResolveBet, winning_side: bool, paid: int) -> TokenAccount
    decreases paid,
{
    if paid <= 0 {
        ctx.escrow_token_account
    } else {
        debited(
            escrow_after(ctx, winning_side, paid - 1),
            ctx.bet_key,
            ctx.bet.profit_per_winner(winning_side) as u64,
        )
    }
}

/// What the payment to the winner at index `i` is refused for, if it is,
/// when the winners before were paid.
pub open spec fn payout_error_at(ctx: ResolveBet, winning_side: bool, i: int) -> Option<ErrorCode> {
    if i >= ctx.remaining_accounts@.len() {
        Some(ErrorCode::NotEnoughAccountKeys)
    } else if ctx.remaining_accounts@[i].winner != ctx.bet.bettors_on(winning_side)[i] {
        Some(ErrorCode::InvalidWinner)
    } else {
        match transfer_error(
            escrow_after(ctx, winning_side, i),
            ctx.remaining_accounts@[i].token_account,
            ctx.bet_key,
            ctx.bet.profit_per_winner(winning_side) as u64,
        ) {
            Some(e) => Some(ErrorCode::Transfer(e)),
            None => None,
        }
    }
}

/// What the first payment that is refused, among those to the winners from
/// index `from` on, is refused for.
pub open spec fn first_payout_error(ctx: ResolveBet, winning_side: bool, from: int) -> Option<
    ErrorCode,
>
    decreases ctx.bet.bettors_on(winning_side).len() - from,
{
    if from >= ctx.bet.bettors_on(winning_side).len() {
        None
    } else if payout_error_at(ctx, winning_side, from) is Some {
        payout_error_at(ctx, winning_side, from)
    } else {
        first_payout_error(ctx, winning_side, from + 1)
    }
}

/// What `resolve_bet` is refused for, if it is.
pub open spec fn resolve_bet_error(ctx: ResolveBet, winning_side: bool) -> Option<ErrorCode> {
    if ctx.bet.resolved {
        Some(ErrorCode::BetAlreadyResolved)
    } else if ctx.creator != ctx.bet.creator {
        Some(ErrorCode::UnauthorizedResolver)
    } else if ctx.bet.total_pot() > u64::MAX {
        Some(ErrorCode::Overflow)
    } else {
        first_payout_error(ctx, winning_side, 0)
    }
}

/// `after` is `before` with the market resolved and every winner paid: each
/// of the first accounts, one for each winner, holds the profit more, and
/// the escrow has paid as many profits.
pub open spec fn resolve_bet_effect(before: ResolveBet, after: ResolveBet, winning_side: bool) -> bool {
    let winners = before.bet.bettors_on(winning_side).len() as int;
    let profit = before.bet.profit_per_winner(winning_side);
    &&& after.bet_key == before.bet_key
    &&& after.creator == before.creator
    &&& after.bet == (Bet { resolved: true, ..before.bet })
    &&& after.escrow_token_account == escrow_after(before, winning_side, winners)
    &&& after.remaining_accounts@.len() == before.remaining_accounts@.len()
    &&& forall|i: int|
        0 <= i < winners ==> #[trigger] after.remaining_accounts@[i] == (WinnerAccounts {
            winner: before.remaining_accounts@[i].winner,
            token_account: credited(before.remaining_accounts@[i].token_account, profit as u64),
        })
    &&& forall|i: int|
        winners <= i < before.remaining_accounts@.len() ==> #[trigger] after.remaining_accounts@[i]
            == before.remaining_accounts@[i]
}

/// Where the payments to the first `paid` winners are not refused, the escrow
/// holds as many profits less after them, and is otherwise the same but for
/// what its delegate may still move.
pub proof fn lemma_escrow_after(ctx: ResolveBet, winning_side: bool, paid: int)
    requires
        0 <= paid <= ctx.bet.bettors_on(winning_side).len(),
        ctx.bet.total_pot() <= u64::MAX,
        forall|j: int| 0 <= j < paid ==> payout_error_at(ctx, winning_side, j) is None,
    ensures
        escrow_after(ctx, winning_side, paid).amount == ctx.escrow_token_account.amount - paid
            * ctx.bet.profit_per_winner(winning_side),
        escrow_after(ctx, winning_side, paid).key == ctx.escrow_token_account.key,
        escrow_after(ctx, winning_side, paid).mint == ctx.escrow_token_account.mint,
        escrow_after(ctx, winning_side, paid).owner == ctx.escrow_token_account.owner,
    decreases paid,
{
    if paid > 0 {
        lemma_escrow_after(ctx, winning_side, paid - 1);
        assert(payout_error_at(ctx, winning_side, paid - 1) is None);
        let profit = ctx.bet.profit_per_winner(winning_side);
        let winners = ctx.bet.bettors_on(winning_side).len() as int;
        assert(0 <= profit <= ctx.bet.total_pot()) by (nonlinear_arith)
            requires
                profit == ctx.bet.total_pot() / winners,
                winners > 0,
                ctx.bet.total_pot() >= 0,
        ;
        assert(paid * profit == (paid - 1) * profit + profit) by (nonlinear_arith);
    }
}

/// Where the payments to the winners from `from` up to `upto` are not
/// refused, the first refusal from `from` on is the first from `upto` on.
pub proof fn lemma_first_payout_error(ctx: ResolveBet, winning_side: bool, from: int, upto: int)
    requires
        0 <= from <= upto <= ctx.bet.bettors_on(winning_side).len(),
        forall|j: int| from <= j < upto ==> payout_error_at(ctx, winning_side, j) is None,
    ensures
        first_payout_error(ctx, winning_side, from) == first_payout_error(ctx, winning_side, upto),
    decreases upto - from,
{
    if from < upto {
        lemma_first_payout_error(ctx, winning_side, from + 1, upto);
    }
}

/// Resolves the market for `winning_side`, yes being `true`, and pays every
/// winner the pot divided by the number of winners, rounded down. The
/// remainder of the division stays in the escrow.
pub fn resolve_bet(ctx: &mut ResolveBet, winning_side: bool) -> (r: Result<(), ErrorCode>)
    ensures
        match resolve_bet_error(*old(ctx), winning_side) {
            Some(e) => r == Err::<(), ErrorCode>(e) && *final(ctx) == *old(ctx),
            None => r is Ok && resolve_bet_effect(*old(ctx), *final(ctx), winning_side),
        },
{
    if ctx.bet.resolved {
        return Err(ErrorCode::BetAlreadyResolved);
    }
    if ctx.creator != ctx.bet.creator {
        return Err(ErrorCode::UnauthorizedResolver);
    }
    let total_pot: u64 = match ctx.bet.total_yes_amount.checked_add(ctx.bet.total_no_amount) {
        None => {
            return Err(ErrorCode::Overflow);
        },
        Some(total_pot) => total_pot,
    };
    let winners: usize = if winning_side {
        ctx.bet.yes_bettors.len()
    } else {
        ctx.bet.no_bettors.len()
    };
    let winners_count: u64 = winners as u64;
    let profit_per_winner: u64 = if winners_count > 0 {
        total_pot / winners_count
    } else {
        0
    };
    let bet_key = ctx.bet_key;
    let mut escrow = ctx.escrow_token_account;
    let mut paid: Vec<WinnerAccounts> = Vec::new();
    let mut i: usize = 0;
    while i < winners
        invariant
            *ctx == *old(ctx),
            !ctx.bet.resolved,
            ctx.creator == ctx.bet.creator,
            ctx.bet.total_pot() <= u64::MAX,
            i <= winners,
            winners == ctx.bet.bettors_on(winning_side).len(),
            profit_per_winner == ctx.bet.profit_per_winner(winning_side),
            bet_key == ctx.bet_key,
            escrow == escrow_after(*ctx, winning_side, i as int),
            paid@.len() == i,
            i <= ctx.remaining_accounts@.len(),
            forall|j: int|
                0 <= j < i ==> #[trigger] paid@[j] == (WinnerAccounts {
                    winner: ctx.remaining_accounts@[j].winner,
                    token_account: credited(
                        ctx.remaining_accounts@[j].token_account,
                        profit_per_winner,
                    ),
                }),
            forall|j: int| 0 <= j < i ==> payout_error_at(*ctx, winning_side, j) is None,
        decreases winners - i,
    {
        proof {
            lemma_first_payout_error(*ctx, winning_side, 0, i as int);
        }
        if i >= ctx.remaining_accounts.len() {
            return Err(ErrorCode::NotEnoughAccountKeys);
        }
        let accounts = ctx.remaining_accounts[i];
        let winner = if winning_side {
            ctx.bet.yes_bettors[i]
        } else {
            ctx.bet.no_bettors[i]
        };
        if accounts.winner != winner {
            return Err(ErrorCode::InvalidWinner);
        }
        let mut to = accounts.token_account;
        match transfer(&mut escrow, &mut to, &bet_key, profit_per_winner) {
            Err(e) => {
                return Err(ErrorCode::Transfer(e));
            },
            Ok(()) => {},
        }
        paid.push(WinnerAccounts { winner: accounts.winner, token_account: to });
        i += 1;
    }
    proof {
        lemma_first_payout_error(*ctx, winning_side, 0, winners as int);
    }
    let mut j: usize = winners;
    while j < ctx.remaining_accounts.len()
        invariant
            *ctx == *old(ctx),
            winners <= j <= ctx.remaining_accounts@.len(),
            paid@.len() == j,
            forall|k: int|
                0 <= k < winners ==> #[trigger] paid@[k] == (WinnerAccounts {
                    winner: ctx.remaining_accounts@[k].winner,
                    token_account: credited(
                        ctx.remaining_accounts@[k].token_account,
                        profit_per_winner,
                    ),
                }),
            forall|k: int| winners <= k < j ==> #[trigger] paid@[k] == ctx.remaining_accounts@[k],
        decreases ctx.remaining_accounts@.len() - j,
    {
        paid.push(ctx.remaining_accounts[j]);
        j += 1;
    }
    ctx.remaining_accounts = paid;
    ctx.escrow_token_account = escrow;
    ctx.bet.resolved = true;
    Ok(())
}

} // verus!
