//! The markets and positions of one program, kept by address.
//!
//! The ledger stands where the host stands for a program: it keeps each
//! market with its vault at the address derived from the market's title, and
//! each position at the address derived from its market and participant. It
//! loads the accounts of an operation, runs the operation, and stores what the
//! operation left only if it succeeded.

use crate::address::Address;
use crate::error::BettingError;
use crate::instructions::{
    claim_winnings, create_bet, place_bet, resolve_bet, ClaimWinnings, CreateBet, CreateBetBumps,
    PlaceBet, ResolveBet,
};
use crate::model::{LedgerState, Market};
use crate::pda::{find_market_addresses, find_user_bet, MarketAddresses};
use crate::state::{Bet, UserBet};
use crate::table::Table;
use crate::token::TokenAccount;
use vstd::prelude::*;

verus! {

/// The markets and positions of one program.
pub struct Ledger {
    program_id: Address,
    enforce_cutoff: bool,
    markets: Table<Market>,
    positions: Table<UserBet>,
}

impl View for Ledger {
    type V = LedgerState;

    closed spec fn view(&self) -> LedgerState {
        LedgerState {
            program_id: self.program_id,
            enforce_cutoff: self.enforce_cutoff,
            markets: self.markets@,
            positions: self.positions@,
        }
    }
}

impl Ledger {
    /// The ledger is sound: what it holds meets `LedgerState::inv`.
    pub closed spec fn wf(&self) -> bool {
        &&& self.markets.wf()
        &&& self.positions.wf()
        &&& self@.inv()
    }

    /// What a sound ledger holds meets the invariant.
    pub proof fn lemma_wf(&self)
        requires
            self.wf(),
        ensures
            self@.inv(),
    {
    }

    /// A ledger without markets for the given program. With `enforce_cutoff`
    /// it refuses bets at or after a market's end time.
    pub fn new(program_id: Address, enforce_cutoff: bool) -> (r: Ledger)
        ensures
            r.wf(),
            r@ == (LedgerState {
                program_id,
                enforce_cutoff,
                markets: Map::<Address, Market>::empty(),
                positions: Map::<Address, UserBet>::empty(),
            }),
    {
        Ledger { program_id, enforce_cutoff, markets: Table::new(), positions: Table::new() }
    }

    /// The program under which the ledger derives its addresses.
    pub fn program_id(&self) -> (r: Address)
        ensures
            r == self@.program_id,
    {
        self.program_id
    }

    /// The market at `bet_key`, if one lives there.
    pub fn market(&self, bet_key: &Address) -> (r: Option<&Market>)
        requires
            self.wf(),
        ensures
            match r {
                Some(market) => self@.markets.contains_key(*bet_key) && *market
                    == self@.markets[*bet_key],
                None => !self@.markets.contains_key(*bet_key),
            },
    {
        self.markets.get(bet_key)
    }

    /// The position at `position`, if one lives there.
    pub fn position(&self, position: &Address) -> (r: Option<&UserBet>)
        requires
            self.wf(),
        ensures
            match r {
                Some(user_bet) => self@.positions.contains_key(*position) && *user_bet
                    == self@.positions[*position],
                None => !self@.positions.contains_key(*position),
            },
    {
        self.positions.get(position)
    }

    /// The position of `user` in the market at `bet_key`, if there is one at
    /// the address derived for it.
    pub fn find_position(&self, user: &Address, bet_key: &Address) -> (r: Option<&UserBet>)
        requires
            self.wf(),
        ensures
            match r {
                Some(user_bet) => self@.position_address(*user, *bet_key) is Some
                    && self@.positions.contains_key(
                    self@.position_address(*user, *bet_key).unwrap(),
                ) && *user_bet == self@.positions[self@.position_address(*user, *bet_key).unwrap()],
                None => self@.position_address(*user, *bet_key) is None
                    || !self@.positions.contains_key(
                    self@.position_address(*user, *bet_key).unwrap(),
                ),
            },
    {
        match find_user_bet(bet_key, user, &self.program_id) {
            None => None,
            Some(position) => self.positions.get(&position.0),
        }
    }

    /// Opens a market at the given addresses, with an empty vault. The stake
    /// must be more than zero.
    pub fn create_bet_at(
        &mut self,
        keys: MarketAddresses,
        signer: Address,
        token_mint: Address,
        title: String,
        bet_amount: u64,
        end_time: i64,
    ) -> (r: Result<(), BettingError>)
        requires
            old(self).wf(),
        ensures
            final(self).wf(),
            match old(self)@.create_bet_at_error(keys, bet_amount) {
                Some(e) => r == Err::<(), BettingError>(e) && final(self)@ == old(self)@,
                None => r is Ok && final(self)@ == old(self)@.create_bet_at_effect(
                    keys,
                    signer,
                    token_mint,
                    title,
                    bet_amount,
                    end_time,
                ),
            },
            bet_amount == 0 ==> r is Err && final(self)@ == old(self)@,
    {
        if self.markets.contains_key(&keys.bet.0) {
            return Err(BettingError::DuplicateMarket);
        }
        let mut ctx = CreateBet {
            signer,
            bet: Bet::default(),
            vault_authority: keys.vault_authority.0,
            vault_token_account: TokenAccount {
                key: keys.vault_token_account.0,
                mint: token_mint,
                owner: keys.vault_authority.0,
                amount: 0,
                delegate: None,
                delegated_amount: 0,
            },
            token_mint,
            bumps: CreateBetBumps {
                bet: keys.bet.1,
                vault_authority: keys.vault_authority.1,
                vault_token_account: keys.vault_token_account.1,
            },
        };
        match create_bet(&mut ctx, title, bet_amount, end_time) {
            Err(e) => {
                return Err(e);
            },
            Ok(()) => {},
        }
        proof {
            old(self)@.lemma_create_bet_at_inv(keys, signer, token_mint, title, bet_amount, end_time);
        }
        self.markets.insert(keys.bet.0, Market { bet: ctx.bet, vault: ctx.vault_token_account });
        Ok(())
    }

    /// Opens the market with the given title, and returns its address.
    ///
    /// It is refused with `InvalidSeeds` where the title derives no address
    /// (one longer than 32 bytes derives none), with `DuplicateMarket` where
    /// a market with the title exists, and with `InvalidStake` where the
    /// stake is zero.
    pub fn create_bet(
        &mut self,
        signer: Address,
        token_mint: Address,
        title: String,
        bet_amount: u64,
        end_time: i64,
    ) -> (r: Result<Address, BettingError>)
        requires
            old(self).wf(),
        ensures
            final(self).wf(),
            match old(self)@.create_bet_error(title@, bet_amount) {
                Some(e) => r == Err::<Address, BettingError>(e) && final(self)@ == old(self)@,
                None => r == Ok::<Address, BettingError>(
                    crate::pda::market_addresses(title@, old(self)@.program_id).unwrap().bet.0,
                ) && final(self)@ == old(self)@.create_bet_effect(
                    signer,
                    token_mint,
                    title,
                    bet_amount,
                    end_time,
                ),
            },
            vstd::utf8::encode_utf8(title@).len() > 32 ==> r == Err::<Address, BettingError>(
                BettingError::InvalidSeeds,
            ),
            bet_amount == 0 ==> r is Err && final(self)@ == old(self)@,
    {
        let keys = match find_market_addresses(&title, &self.program_id) {
            None => {
                return Err(BettingError::InvalidSeeds);
            },
            Some(keys) => keys,
        };
        match self.create_bet_at(keys, signer, token_mint, title, bet_amount, end_time) {
            Err(e) => Err(e),
            Ok(()) => Ok(keys.bet.0),
        }
    }

    /// Places a bet whose position will live at `position`.
    pub fn place_bet_at(
        &mut self,
        position: Address,
        bettor: Address,
        bet_key: Address,
        account: &mut TokenAccount,
        vault_key: Address,
        bet_direction: bool,
        now: i64,
    ) -> (r: Result<(), BettingError>)
        requires
            old(self).wf(),
        ensures
            final(self).wf(),
            match old(self)@.place_bet_at_error(
                position,
                bettor,
                bet_key,
                *old(account),
                vault_key,
                bet_direction,
                now,
            ) {
                Some(e) => r == Err::<(), BettingError>(e) && final(self)@ == old(self)@ && *final(account) == *old(account),
                None => r is Ok && (final(self)@, *final(account)) == old(self)@.place_bet_at_effect(
                    position,
                    bettor,
                    bet_key,
                    *old(account),
                    vault_key,
                    bet_direction,
                    now,
                ),
            },
    {
        let market = match self.markets.get(&bet_key) {
            None => {
                return Err(BettingError::MarketNotFound);
            },
            Some(market) => market,
        };
        if self.positions.contains_key(&position) {
            return Err(BettingError::DuplicatePosition);
        }
        let mut ctx = PlaceBet {
            bettor,
            bet_key,
            bet: market.bet.clone(),
            user_bet: UserBet::default(),
            bettor_token_account: *account,
            vault_token_account: TokenAccount {
                key: vault_key,
                mint: market.vault.mint,
                owner: market.vault.owner,
                amount: market.vault.amount,
                delegate: market.vault.delegate,
                delegated_amount: market.vault.delegated_amount,
            },
            unix_timestamp: now,
            enforce_cutoff: self.enforce_cutoff,
        };
        match place_bet(&mut ctx, bet_direction) {
            Err(e) => {
                return Err(e);
            },
            Ok(()) => {},
        }
        proof {
            old(self)@.lemma_place_bet_at_inv(
                position,
                bettor,
                bet_key,
                *old(account),
                vault_key,
                bet_direction,
                now,
            );
        }
        *account = ctx.bettor_token_account;
        self.markets.insert(bet_key, Market { bet: ctx.bet, vault: ctx.vault_token_account });
        self.positions.insert(position, ctx.user_bet);
        Ok(())
    }

    /// Places `bettor`'s bet on yes (`true`) or no in the market at
    /// `bet_key`: the market's stake moves from `account` into the vault.
    ///
    /// It is refused with `InvalidSeeds` where the position derives no
    /// address, and with `DuplicatePosition` where `bettor` has a position in
    /// the market.
    pub fn place_bet(
        &mut self,
        bettor: Address,
        bet_key: Address,
        account: &mut TokenAccount,
        vault_key: Address,
        bet_direction: bool,
        now: i64,
    ) -> (r: Result<(), BettingError>)
        requires
            old(self).wf(),
        ensures
            final(self).wf(),
            match old(self)@.place_bet_error(
                bettor,
                bet_key,
                *old(account),
                vault_key,
                bet_direction,
                now,
            ) {
                Some(e) => r == Err::<(), BettingError>(e) && final(self)@ == old(self)@ && *final(account) == *old(account),
                None => r is Ok && (final(self)@, *final(account)) == old(self)@.place_bet_effect(
                    bettor,
                    bet_key,
                    *old(account),
                    vault_key,
                    bet_direction,
                    now,
                ),
            },
    {
        match find_user_bet(&bet_key, &bettor, &self.program_id) {
            None => Err(BettingError::InvalidSeeds),
            Some(position) => self.place_bet_at(
                position.0,
                bettor,
                bet_key,
                account,
                vault_key,
                bet_direction,
                now,
            ),
        }
    }

    /// Resolves the market at `bet_key` with `outcome`, yes being `true`.
    pub fn resolve_bet(&mut self, creator: Address, bet_key: Address, outcome: bool, now: i64) -> (r:
        Result<(), BettingError>)
        requires
            old(self).wf(),
        ensures
            final(self).wf(),
            match old(self)@.resolve_bet_error(creator, bet_key, now) {
                Some(e) => r == Err::<(), BettingError>(e) && final(self)@ == old(self)@,
                None => r is Ok && final(self)@ == old(self)@.resolve_bet_effect(bet_key, outcome),
            },
    {
        let market = match self.markets.get(&bet_key) {
            None => {
                return Err(BettingError::MarketNotFound);
            },
            Some(market) => market,
        };
        let vault = market.vault;
        let mut ctx = ResolveBet { bet: market.bet.clone(), creator, unix_timestamp: now };
        match resolve_bet(&mut ctx, outcome) {
            Err(e) => {
                return Err(e);
            },
            Ok(()) => {},
        }
        proof {
            old(self)@.lemma_resolve_bet_inv(creator, bet_key, outcome, now);
        }
        self.markets.insert(bet_key, Market { bet: ctx.bet, vault });
        Ok(())
    }

    /// Pays the share of the position at `position`.
    pub fn claim_winnings_at(
        &mut self,
        position: Address,
        user: Address,
        bet_key: Address,
        vault_key: Address,
        account: &mut TokenAccount,
    ) -> (r: Result<(), BettingError>)
        requires
            old(self).wf(),
        ensures
            final(self).wf(),
            match old(self)@.claim_winnings_at_error(position, user, bet_key, vault_key, *old(account)) {
                Some(e) => r == Err::<(), BettingError>(e) && final(self)@ == old(self)@ && *final(account) == *old(account),
                None => r is Ok && (final(self)@, *final(account)) == old(self)@.claim_winnings_at_effect(position, user, bet_key, vault_key, *old(account)),
            },
    {
        let market = match self.markets.get(&bet_key) {
            None => {
                return Err(BettingError::MarketNotFound);
            },
            Some(market) => market,
        };
        let user_bet = match self.positions.get(&position) {
            None => {
                return Err(BettingError::PositionNotFound);
            },
            Some(user_bet) => *user_bet,
        };
        if user_bet.user != user || user_bet.bet != bet_key {
            return Err(BettingError::PositionNotFound);
        }
        let mut ctx = ClaimWinnings {
            bet_key,
            bet: market.bet.clone(),
            user_bet,
            user,
            vault_authority: market.vault.owner,
            vault_token_account: TokenAccount {
                key: vault_key,
                mint: market.vault.mint,
                owner: market.vault.owner,
                amount: market.vault.amount,
                delegate: market.vault.delegate,
                delegated_amount: market.vault.delegated_amount,
            },
            user_token_account: *account,
        };
        match claim_winnings(&mut ctx) {
            Err(e) => {
                return Err(e);
            },
            Ok(()) => {},
        }
        proof {
            old(self)@.lemma_claim_winnings_at_inv(position, user, bet_key, vault_key, *old(account));
        }
        *account = ctx.user_token_account;
        self.markets.insert(bet_key, Market { bet: ctx.bet, vault: ctx.vault_token_account });
        self.positions.insert(position, ctx.user_bet);
        Ok(())
    }

    /// Pays `user`'s share of the market at `bet_key` out of the vault into
    /// `account`.
    ///
    /// It is refused with `InvalidSeeds` where the position derives no
    /// address, and with `PositionNotFound` where `user` has no position in
    /// the market.
    pub fn claim_winnings(
        &mut self,
        user: Address,
        bet_key: Address,
        vault_key: Address,
        account: &mut TokenAccount,
    ) -> (r: Result<(), BettingError>)
        requires
            old(self).wf(),
        ensures
            final(self).wf(),
            match old(self)@.claim_winnings_error(user, bet_key, vault_key, *old(account)) {
                Some(e) => r == Err::<(), BettingError>(e) && final(self)@ == old(self)@ && *final(account) == *old(account),
                None => r is Ok && (final(self)@, *final(account)) == old(self)@.claim_winnings_effect(user, bet_key, vault_key, *old(account)),
            },
    {
        match find_user_bet(&bet_key, &user, &self.program_id) {
            None => Err(BettingError::InvalidSeeds),
            Some(position) => self.claim_winnings_at(position.0, user, bet_key, vault_key, account),
        }
    }
}

} // verus!
