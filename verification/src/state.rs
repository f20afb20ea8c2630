//! The records of a market: the market itself and the positions taken in it.

use crate::address::Address;
use vstd::prelude::*;

verus! {

/// One proposition with two sides, and what has been staked on each.
#[derive(Debug)]
pub struct Bet {
    /// Who opened the market and may resolve it.
    pub creator: Address,
    /// The market's label, which also names its address.
    pub title: String,
    /// The stake that every participant puts in.
    pub bet_amount: u64,
    /// The sum staked on yes.
    pub total_yes_amount: u64,
    /// The sum staked on no.
    pub total_no_amount: u64,
    /// How many participants are on yes.
    pub yes_bettors: u64,
    /// How many participants are on no.
    pub no_bettors: u64,
    /// The first instant at which the market may be resolved.
    pub end_time: i64,
    /// Whether the outcome has been set. Once true it stays true.
    pub resolved: bool,
    /// The winning side, yes being `true`. It means nothing before `resolved`.
    pub outcome: bool,
    /// The asset that is wagered.
    pub token_mint: Address,
    /// The vault that holds the stakes.
    pub vault: Address,
    /// The bump seed of the market's address.
    pub bump: u8,
    /// The bump seed of the vault authority's address.
    pub bump_vault_authority: u8,
    /// The bump seed of the vault's address.
    pub bump_vault_ta: u8,
}

/// One participant's wager in one market.
#[derive(Clone, Copy, Debug)]
pub struct UserBet {
    /// The participant.
    pub user: Address,
    /// The market.
    pub bet: Address,
    /// What was staked: the market's stake at the time.
    pub amount: u64,
    /// The side taken, yes being `true`.
    pub direction: bool,
    /// Whether the share has been paid. Once true it stays true.
    pub claimed: bool,
    /// The bump seed of the position's address.
    pub bump: u8,
}

impl Clone for Bet {
    fn clone(&self) -> (r: Bet)
        ensures
            r == *self,
    {
        Bet {
            creator: self.creator,
            title: self.title.clone(),
            bet_amount: self.bet_amount,
            total_yes_amount: self.total_yes_amount,
            total_no_amount: self.total_no_amount,
            yes_bettors: self.yes_bettors,
            no_bettors: self.no_bettors,
            end_time: self.end_time,
            resolved: self.resolved,
            outcome: self.outcome,
            token_mint: self.token_mint,
            vault: self.vault,
            bump: self.bump,
            bump_vault_authority: self.bump_vault_authority,
            bump_vault_ta: self.bump_vault_ta,
        }
    }
}

impl Default for Bet {
    /// The record of a freshly allocated market account: every field zero.
    fn default() -> (r: Bet)
        ensures
            r.is_zeroed(),
    {
        Bet {
            creator: Address::default(),
            title: String::new(),
            bet_amount: 0,
            total_yes_amount: 0,
            total_no_amount: 0,
            yes_bettors: 0,
            no_bettors: 0,
            end_time: 0,
            resolved: false,
            outcome: false,
            token_mint: Address::default(),
            vault: Address::default(),
            bump: 0,
            bump_vault_authority: 0,
            bump_vault_ta: 0,
        }
    }
}

impl Default for UserBet {
    /// The record of a freshly allocated position account: every field zero.
    fn default() -> (r: UserBet)
        ensures
            r == UserBet::zeroed(),
    {
        UserBet {
            user: Address::default(),
            bet: Address::default(),
            amount: 0,
            direction: false,
            claimed: false,
            bump: 0,
        }
    }
}

impl UserBet {
    /// The record of a freshly allocated position account.
    pub open spec fn zeroed() -> UserBet {
        UserBet {
            user: Address::zero(),
            bet: Address::zero(),
            amount: 0,
            direction: false,
            claimed: false,
            bump: 0,
        }
    }
}

impl Bet {
    /// The record is that of a freshly allocated market account.
    pub open spec fn is_zeroed(&self) -> bool {
        &&& self.creator == Address::zero()
        &&& self.title@ == Seq::<char>::empty()
        &&& self.bet_amount == 0
        &&& self.total_yes_amount == 0
        &&& self.total_no_amount == 0
        &&& self.yes_bettors == 0
        &&& self.no_bettors == 0
        &&& self.end_time == 0
        &&& !self.resolved
        &&& !self.outcome
        &&& self.token_mint == Address::zero()
        &&& self.vault == Address::zero()
        &&& self.bump == 0
        &&& self.bump_vault_authority == 0
        &&& self.bump_vault_ta == 0
    }

    /// The stake is more than zero, each side's total is the stake times the
    /// side's participants, and the pool fits in 64 bits.
    pub open spec fn wf(&self) -> bool {
        &&& self.bet_amount > 0
        &&& self.total_yes_amount == self.bet_amount * self.yes_bettors
        &&& self.total_no_amount == self.bet_amount * self.no_bettors
        &&& self.total_yes_amount + self.total_no_amount <= u64::MAX
    }

    /// Everything that was staked, on both sides.
    pub open spec fn total_pool(&self) -> int {
        self.total_yes_amount + self.total_no_amount
    }

    /// How many participants took the given side.
    pub open spec fn bettors_on(&self, direction: bool) -> int {
        if direction {
            self.yes_bettors as int
        } else {
            self.no_bettors as int
        }
    }

    /// How many participants are on the side of the outcome.
    pub open spec fn winners_count(&self) -> int {
        self.bettors_on(self.outcome)
    }

    /// What each winner is paid: the pool divided by the winners, rounded
    /// down. Where nobody won it is zero.
    pub open spec fn winning_amount(&self) -> int {
        if self.winners_count() == 0 {
            0
        } else {
            self.total_pool() / self.winners_count()
        }
    }

    /// What is left in the vault when every winner has been paid.
    pub open spec fn stranded(&self) -> int {
        if self.winners_count() == 0 {
            self.total_pool()
        } else {
            self.total_pool() % self.winners_count()
        }
    }

    /// `true` where one more stake on `direction` would leave the range of 64
    /// bits, in the side's count or in the pool.
    pub open spec fn stake_overflows(&self, direction: bool) -> bool {
        ||| self.bettors_on(direction) + 1 > u64::MAX
        ||| self.total_pool() + self.bet_amount > u64::MAX
    }

    /// The market after one more stake on `direction`.
    pub open spec fn staked(self, direction: bool) -> Bet {
        if direction {
            Bet {
                yes_bettors: (self.yes_bettors + 1) as u64,
                total_yes_amount: (self.total_yes_amount + self.bet_amount) as u64,
                ..self
            }
        } else {
            Bet {
                no_bettors: (self.no_bettors + 1) as u64,
                total_no_amount: (self.total_no_amount + self.bet_amount) as u64,
                ..self
            }
        }
    }

    /// The market after it was resolved with `outcome`.
    pub open spec fn settled(self, outcome: bool) -> Bet {
        Bet { resolved: true, outcome, ..self }
    }

    /// Everything that was staked, or `None` where the sum does not fit.
    pub fn pool(&self) -> (r: Option<u64>)
        ensures
            r == if self.total_pool() <= u64::MAX {
                Some(self.total_pool() as u64)
            } else {
                None
            },
    {
        self.total_yes_amount.checked_add(self.total_no_amount)
    }

    /// How many participants are on the side of the outcome.
    pub fn winners(&self) -> (r: u64)
        ensures
            r == self.winners_count(),
    {
        if self.outcome {
            self.yes_bettors
        } else {
            self.no_bettors
        }
    }
}

/// A stake keeps each side's total at the stake times its participants.
pub proof fn lemma_staked_wf(bet: Bet, direction: bool)
    requires
        bet.wf(),
        !bet.stake_overflows(direction),
    ensures
        bet.staked(direction).wf(),
        bet.staked(direction).total_pool() == bet.total_pool() + bet.bet_amount,
        bet.staked(direction).bettors_on(direction) == bet.bettors_on(direction) + 1,
        bet.staked(direction).bettors_on(!direction) == bet.bettors_on(!direction),
{
    let stake = bet.bet_amount as int;
    let yes = bet.yes_bettors as int;
    let no = bet.no_bettors as int;
    assert(stake * (yes + 1) == stake * yes + stake) by (nonlinear_arith);
    assert(stake * (no + 1) == stake * no + stake) by (nonlinear_arith);
}

} // verus!
