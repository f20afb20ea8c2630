//! What a ledger holds, and what each operation makes of it.
//!
//! The operations are stated here as functions on the ledger's content: for
//! each, the reason for which it is refused, if it is, and the content after
//! it where it is not. A refused operation leaves the content as it was.

use crate::address::Address;
use crate::error::BettingError;
use crate::instructions::{
    claim_winnings_effect, claim_winnings_error, create_bet_error, opened, place_bet_effect, place_bet_error,
    resolve_bet_error, ClaimWinnings, CreateBetBumps, PlaceBet, ResolveBet,
};
use crate::pda::{derived, market_addresses, user_bet_seeds, MarketAddresses};
use crate::state::{Bet, UserBet};
use crate::token::TokenAccount;
use vstd::prelude::*;

verus! {

/// A market with the vault that holds its stakes.
#[derive(Debug)]
pub struct Market {
    pub bet: Bet,
    pub vault: TokenAccount,
}

/// What a ledger holds.
pub struct LedgerState {
    /// The program under which the addresses are derived.
    pub program_id: Address,
    /// Whether bets at or after a market's end time are refused.
    pub enforce_cutoff: bool,
    /// The markets, by address.
    pub markets: Map<Address, Market>,
    /// The positions, by address.
    pub positions: Map<Address, UserBet>,
}

/// The bump seeds among a market's addresses.
pub open spec fn bumps_of(keys: MarketAddresses) -> CreateBetBumps {
    CreateBetBumps {
        bet: keys.bet.1,
        vault_authority: keys.vault_authority.1,
        vault_token_account: keys.vault_token_account.1,
    }
}

/// The empty vault of a market at the given addresses.
pub open spec fn new_vault(keys: MarketAddresses, token_mint: Address) -> TokenAccount {
    TokenAccount {
        key: keys.vault_token_account.0,
        mint: token_mint,
        owner: keys.vault_authority.0,
        amount: 0,
        delegate: None,
        delegated_amount: 0,
    }
}

impl LedgerState {
    /// What opening a market at `keys` is refused for, if it is.
    pub open spec fn create_bet_at_error(self, keys: MarketAddresses, bet_amount: u64) -> Option<
        BettingError,
    > {
        if self.markets.contains_key(keys.bet.0) {
            Some(BettingError::DuplicateMarket)
        } else {
            create_bet_error(bet_amount)
        }
    }

    /// The ledger after a market was opened at `keys`.
    pub open spec fn create_bet_at_effect(
        self,
        keys: MarketAddresses,
        signer: Address,
        token_mint: Address,
        title: String,
        bet_amount: u64,
        end_time: i64,
    ) -> LedgerState {
        LedgerState {
            markets: self.markets.insert(
                keys.bet.0,
                Market {
                    bet: opened(
                        signer,
                        token_mint,
                        keys.vault_token_account.0,
                        bumps_of(keys),
                        title,
                        bet_amount,
                        end_time,
                    ),
                    vault: new_vault(keys, token_mint),
                },
            ),
            ..self
        }
    }

    /// The accounts that a bet in the market at `bet_key` touches. The vault
    /// is the market's where `vault_key` names it.
    pub open spec fn place_bet_context(
        self,
        bettor: Address,
        bet_key: Address,
        account: TokenAccount,
        vault_key: Address,
        now: i64,
    ) -> PlaceBet {
        PlaceBet {
            bettor,
            bet_key,
            bet: self.markets[bet_key].bet,
            user_bet: UserBet::zeroed(),
            bettor_token_account: account,
            vault_token_account: TokenAccount { key: vault_key, ..self.markets[bet_key].vault },
            unix_timestamp: now,
            enforce_cutoff: self.enforce_cutoff,
        }
    }

    /// What a bet whose position would live at `position` is refused for, if
    /// it is.
    pub open spec fn place_bet_at_error(
        self,
        position: Address,
        bettor: Address,
        bet_key: Address,
        account: TokenAccount,
        vault_key: Address,
        bet_direction: bool,
        now: i64,
    ) -> Option<BettingError> {
        if !self.markets.contains_key(bet_key) {
            Some(BettingError::MarketNotFound)
        } else if self.positions.contains_key(position) {
            Some(BettingError::DuplicatePosition)
        } else {
            place_bet_error(
                self.place_bet_context(bettor, bet_key, account, vault_key, now),
                bet_direction,
            )
        }
    }

    /// The ledger after the bet was placed, and the account that paid.
    pub open spec fn place_bet_at_effect(
        self,
        position: Address,
        bettor: Address,
        bet_key: Address,
        account: TokenAccount,
        vault_key: Address,
        bet_direction: bool,
        now: i64,
    ) -> (LedgerState, TokenAccount) {
        let after = place_bet_effect(
            self.place_bet_context(bettor, bet_key, account, vault_key, now),
            bet_direction,
        );
        (
            LedgerState {
                markets: self.markets.insert(
                    bet_key,
                    Market { bet: after.bet, vault: after.vault_token_account },
                ),
                positions: self.positions.insert(position, after.user_bet),
                ..self
            },
            after.bettor_token_account,
        )
    }

    /// What resolving the market at `bet_key` is refused for, if it is.
    pub open spec fn resolve_bet_error(self, creator: Address, bet_key: Address, now: i64) -> Option<
        BettingError,
    > {
        if !self.markets.contains_key(bet_key) {
            Some(BettingError::MarketNotFound)
        } else {
            resolve_bet_error(
                ResolveBet { bet: self.markets[bet_key].bet, creator, unix_timestamp: now },
            )
        }
    }

    /// The ledger after the market at `bet_key` was resolved with `outcome`.
    pub open spec fn resolve_bet_effect(self, bet_key: Address, outcome: bool) -> LedgerState {
        LedgerState {
            markets: self.markets.insert(
                bet_key,
                Market {
                    bet: self.markets[bet_key].bet.settled(outcome),
                    vault: self.markets[bet_key].vault,
                },
            ),
            ..self
        }
    }

    /// The accounts that a claim on the market at `bet_key` touches. The
    /// vault is the market's where `vault_key` names it, and its owner signs.
    pub open spec fn claim_winnings_context(
        self,
        position: Address,
        user: Address,
        bet_key: Address,
        vault_key: Address,
        account: TokenAccount,
    ) -> ClaimWinnings {
        ClaimWinnings {
            bet_key,
            bet: self.markets[bet_key].bet,
            user_bet: self.positions[position],
            user,
            vault_authority: self.markets[bet_key].vault.owner,
            vault_token_account: TokenAccount { key: vault_key, ..self.markets[bet_key].vault },
            user_token_account: account,
        }
    }

    /// `user` has a position in the market at `bet_key`, and it lives at
    /// `position`.
    pub open spec fn has_position(self, position: Address, user: Address, bet_key: Address) -> bool {
        &&& self.positions.contains_key(position)
        &&& self.positions[position].user == user
        &&& self.positions[position].bet == bet_key
    }

    /// What a claim on the position at `position` is refused for, if it is.
    pub open spec fn claim_winnings_at_error(
        self,
        position: Address,
        user: Address,
        bet_key: Address,
        vault_key: Address,
        account: TokenAccount,
    ) -> Option<BettingError> {
        if !self.markets.contains_key(bet_key) {
            Some(BettingError::MarketNotFound)
        } else if !self.has_position(position, user, bet_key) {
            Some(BettingError::PositionNotFound)
        } else {
            claim_winnings_error(
                self.claim_winnings_context(position, user, bet_key, vault_key, account),
            )
        }
    }

    /// The ledger after the share was paid, and the account that received it.
    pub open spec fn claim_winnings_at_effect(
        self,
        position: Address,
        user: Address,
        bet_key: Address,
        vault_key: Address,
        account: TokenAccount,
    ) -> (LedgerState, TokenAccount) {
        let after = claim_winnings_effect(
            self.claim_winnings_context(position, user, bet_key, vault_key, account),
        );
        (
            LedgerState {
                markets: self.markets.insert(
                    bet_key,
                    Market { bet: after.bet, vault: after.vault_token_account },
                ),
                positions: self.positions.insert(position, after.user_bet),
                ..self
            },
            after.user_token_account,
        )
    }

    /// What opening the market with the given title is refused for, if it
    /// is.
    pub open spec fn create_bet_error(self, title: Seq<char>, bet_amount: u64) -> Option<
        BettingError,
    > {
        match market_addresses(title, self.program_id) {
            None => Some(BettingError::InvalidSeeds),
            Some(keys) => self.create_bet_at_error(keys, bet_amount),
        }
    }

    /// The ledger after the market with the given title was opened.
    pub open spec fn create_bet_effect(
        self,
        signer: Address,
        token_mint: Address,
        title: String,
        bet_amount: u64,
        end_time: i64,
    ) -> LedgerState {
        self.create_bet_at_effect(
            market_addresses(title@, self.program_id).unwrap(),
            signer,
            token_mint,
            title,
            bet_amount,
            end_time,
        )
    }

    /// Where the position of `user` in the market at `bet_key` lives, if an
    /// address can be derived for it.
    pub open spec fn position_address(self, user: Address, bet_key: Address) -> Option<Address> {
        match derived(user_bet_seeds(bet_key, user), self.program_id) {
            None => None,
            Some(found) => Some(found.0),
        }
    }

    /// What a bet of `bettor` in the market at `bet_key` is refused for, if
    /// it is.
    pub open spec fn place_bet_error(
        self,
        bettor: Address,
        bet_key: Address,
        account: TokenAccount,
        vault_key: Address,
        bet_direction: bool,
        now: i64,
    ) -> Option<BettingError> {
        match self.position_address(bettor, bet_key) {
            None => Some(BettingError::InvalidSeeds),
            Some(position) => self.place_bet_at_error(
                position,
                bettor,
                bet_key,
                account,
                vault_key,
                bet_direction,
                now,
            ),
        }
    }

    /// The ledger after the bet of `bettor` was placed, and the account that
    /// paid.
    pub open spec fn place_bet_effect(
        self,
        bettor: Address,
        bet_key: Address,
        account: TokenAccount,
        vault_key: Address,
        bet_direction: bool,
        now: i64,
    ) -> (LedgerState, TokenAccount) {
        self.place_bet_at_effect(
            self.position_address(bettor, bet_key).unwrap(),
            bettor,
            bet_key,
            account,
            vault_key,
            bet_direction,
            now,
        )
    }

    /// What a claim of `user` on the market at `bet_key` is refused for, if
    /// it is.
    pub open spec fn claim_winnings_error(
        self,
        user: Address,
        bet_key: Address,
        vault_key: Address,
        account: TokenAccount,
    ) -> Option<BettingError> {
        match self.position_address(user, bet_key) {
            None => Some(BettingError::InvalidSeeds),
            Some(position) => self.claim_winnings_at_error(
                position,
                user,
                bet_key,
                vault_key,
                account,
            ),
        }
    }

    /// The ledger after the share of `user` was paid, and the account that
    /// received it.
    pub open spec fn claim_winnings_effect(
        self,
        user: Address,
        bet_key: Address,
        vault_key: Address,
        account: TokenAccount,
    ) -> (LedgerState, TokenAccount) {
        self.claim_winnings_at_effect(
            self.position_address(user, bet_key).unwrap(),
            user,
            bet_key,
            vault_key,
            account,
        )
    }
}

/// One call on a ledger, with what the caller hands in.
pub enum Operation {
    /// Open the market with the given title.
    CreateBet { signer: Address, token_mint: Address, title: String, bet_amount: u64, end_time: i64 },
    /// Place a bet, paid from `account`.
    PlaceBet {
        bettor: Address,
        bet_key: Address,
        account: TokenAccount,
        vault_key: Address,
        bet_direction: bool,
        now: i64,
    },
    /// Resolve a market.
    ResolveBet { creator: Address, bet_key: Address, outcome: bool, now: i64 },
    /// Claim a share, paid into `account`.
    ClaimWinnings { user: Address, bet_key: Address, vault_key: Address, account: TokenAccount },
}

impl LedgerState {
    /// The ledger of a program before any market was opened.
    pub open spec fn empty(program_id: Address, enforce_cutoff: bool) -> LedgerState {
        LedgerState {
            program_id,
            enforce_cutoff,
            markets: Map::<Address, Market>::empty(),
            positions: Map::<Address, UserBet>::empty(),
        }
    }

    /// The ledger after one call: as the call left it, or as it was where the
    /// call was refused.
    pub open spec fn step(self, op: Operation) -> LedgerState {
        match op {
            Operation::CreateBet { signer, token_mint, title, bet_amount, end_time } => {
                if self.create_bet_error(title@, bet_amount) is None {
                    self.create_bet_effect(signer, token_mint, title, bet_amount, end_time)
                } else {
                    self
                }
            },
            Operation::PlaceBet { bettor, bet_key, account, vault_key, bet_direction, now } => {
                if self.place_bet_error(bettor, bet_key, account, vault_key, bet_direction, now)
                    is None {
                    self.place_bet_effect(bettor, bet_key, account, vault_key, bet_direction, now).0
                } else {
                    self
                }
            },
            Operation::ResolveBet { creator, bet_key, outcome, now } => {
                if self.resolve_bet_error(creator, bet_key, now) is None {
                    self.resolve_bet_effect(bet_key, outcome)
                } else {
                    self
                }
            },
            Operation::ClaimWinnings { user, bet_key, vault_key, account } => {
                if self.claim_winnings_error(user, bet_key, vault_key, account) is None {
                    self.claim_winnings_effect(user, bet_key, vault_key, account).0
                } else {
                    self
                }
            },
        }
    }

    /// The ledger after the calls of `ops`, in their order.
    pub open spec fn run(self, ops: Seq<Operation>) -> LedgerState
        decreases ops.len(),
    {
        if ops.len() == 0 {
            self
        } else {
            self.run(ops.drop_last()).step(ops.last())
        }
    }
}

} // verus!
