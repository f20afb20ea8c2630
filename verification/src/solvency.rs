//! What holds of a ledger at all times, and why the vault can always pay.
//!
//! Every operation keeps the ledger's invariant: each market's totals are the
//! stake times its participants, each side's count is the number of positions
//! on it, and the vault holds the pool less what was paid to winners. From it
//! follows that a winner's claim never lacks funds.

use crate::address::Address;
use crate::model::LedgerState;
use crate::state::lemma_staked_wf;
use crate::token::TokenAccount;
use vstd::arithmetic::div_mod::{lemma_fundamental_div_mod, lemma_mod_pos_bound};
use vstd::prelude::*;
use vstd::set_lib::{lemma_len_subset, lemma_set_subset_finite};

verus! {

impl LedgerState {
    /// The addresses of the positions in the market at `bet_key` that took
    /// `direction`.
    pub open spec fn side(self, bet_key: Address, direction: bool) -> Set<Address> {
        Set::new(
            |p: Address|
                self.positions.contains_key(p) && self.positions[p].bet == bet_key
                    && self.positions[p].direction == direction,
        )
    }

    /// The addresses of the positions in the market at `bet_key` that were
    /// paid.
    pub open spec fn paid(self, bet_key: Address) -> Set<Address> {
        Set::new(
            |p: Address|
                self.positions.contains_key(p) && self.positions[p].bet == bet_key
                    && self.positions[p].claimed,
        )
    }

    /// The market at `bet_key` is sound: its totals are exact, its vault is
    /// the one it records, in its asset and without a delegate, each side
    /// counts its positions, and the vault holds the pool less one share for
    /// each position paid.
    pub open spec fn market_inv(self, bet_key: Address) -> bool {
        let market = self.markets[bet_key];
        &&& market.bet.wf()
        &&& market.vault.key == market.bet.vault
        &&& market.vault.mint == market.bet.token_mint
        &&& market.vault.delegate is None
        &&& self.side(bet_key, true).len() == market.bet.yes_bettors
        &&& self.side(bet_key, false).len() == market.bet.no_bettors
        &&& market.vault.amount + market.bet.winning_amount() * self.paid(bet_key).len()
            == market.bet.total_pool()
    }

    /// The position at `position` is sound: its market exists, it staked the
    /// market's stake, and it was paid only if the market was resolved in its
    /// favour.
    pub open spec fn position_inv(self, position: Address) -> bool {
        let user_bet = self.positions[position];
        &&& self.markets.contains_key(user_bet.bet)
        &&& user_bet.amount == self.markets[user_bet.bet].bet.bet_amount
        &&& user_bet.claimed ==> self.markets[user_bet.bet].bet.resolved && user_bet.direction
            == self.markets[user_bet.bet].bet.outcome
    }

    /// Every market and every position is sound.
    pub open spec fn inv(self) -> bool {
        &&& self.positions.dom().finite()
        &&& forall|key: Address| #[trigger] self.markets.contains_key(key) ==> self.market_inv(key)
        &&& forall|p: Address| #[trigger] self.positions.contains_key(p) ==> self.position_inv(p)
    }

    /// The positions of a market are finitely many, and the paid ones among
    /// them are on the winning side.
    pub proof fn lemma_position_sets(self, bet_key: Address)
        requires
            self.inv(),
            self.markets.contains_key(bet_key),
        ensures
            self.side(bet_key, true).finite(),
            self.side(bet_key, false).finite(),
            self.paid(bet_key).finite(),
            self.paid(bet_key).subset_of(self.side(bet_key, self.markets[bet_key].bet.outcome)),
            !self.markets[bet_key].bet.resolved ==> self.paid(bet_key) == Set::<Address>::empty(),
            self.paid(bet_key).len() <= self.markets[bet_key].bet.winners_count(),
    {
        let positions = self.positions.dom();
        assert(self.side(bet_key, true).subset_of(positions));
        assert(self.side(bet_key, false).subset_of(positions));
        assert(self.paid(bet_key).subset_of(positions));
        lemma_set_subset_finite(positions, self.side(bet_key, true));
        lemma_set_subset_finite(positions, self.side(bet_key, false));
        lemma_set_subset_finite(positions, self.paid(bet_key));
        let outcome = self.markets[bet_key].bet.outcome;
        assert forall|p: Address| self.paid(bet_key).contains(p) implies self.side(
            bet_key,
            outcome,
        ).contains(p) by {
            assert(self.positions.contains_key(p));
            assert(self.position_inv(p));
        }
        lemma_len_subset(self.paid(bet_key), self.side(bet_key, outcome));
        if !self.markets[bet_key].bet.resolved {
            assert forall|p: Address| !self.paid(bet_key).contains(p) by {
                if self.positions.contains_key(p) {
                    assert(self.position_inv(p));
                }
            }
            assert(self.paid(bet_key) =~= Set::<Address>::empty());
        }
    }

    /// Opening a market keeps the ledger sound.
    pub proof fn lemma_create_bet_at_inv(
        self,
        keys: crate::pda::MarketAddresses,
        signer: Address,
        token_mint: Address,
        title: String,
        bet_amount: u64,
        end_time: i64,
    )
        requires
            self.inv(),
            self.create_bet_at_error(keys, bet_amount) is None,
        ensures
            self.create_bet_at_effect(keys, signer, token_mint, title, bet_amount, end_time).inv(),
    {
        let after = self.create_bet_at_effect(keys, signer, token_mint, title, bet_amount, end_time);
        let new_key = keys.bet.0;
        assert forall|key: Address| #[trigger] after.markets.contains_key(key) implies after.market_inv(
            key,
        ) by {
            assert(after.side(key, true) =~= self.side(key, true));
            assert(after.side(key, false) =~= self.side(key, false));
            assert(after.paid(key) =~= self.paid(key));
            if key == new_key {
                assert forall|p: Address| self.positions.contains_key(p) implies self.positions[p].bet
                    != new_key by {
                    assert(self.position_inv(p));
                }
                assert(self.side(key, true) =~= Set::<Address>::empty());
                assert(self.side(key, false) =~= Set::<Address>::empty());
                assert(self.paid(key) =~= Set::<Address>::empty());
            } else {
                assert(self.markets.contains_key(key));
                assert(self.market_inv(key));
            }
        }
        assert forall|p: Address| #[trigger] after.positions.contains_key(p) implies after.position_inv(
            p,
        ) by {
            assert(self.position_inv(p));
        }
    }

    /// Placing a bet keeps the ledger sound.
    pub proof fn lemma_place_bet_at_inv(
        self,
        position: Address,
        bettor: Address,
        bet_key: Address,
        account: TokenAccount,
        vault_key: Address,
        bet_direction: bool,
        now: i64,
    )
        requires
            self.inv(),
            self.place_bet_at_error(position, bettor, bet_key, account, vault_key, bet_direction, now)
                is None,
        ensures
            self.place_bet_at_effect(
                position,
                bettor,
                bet_key,
                account,
                vault_key,
                bet_direction,
                now,
            ).0.inv(),
    {
        let after = self.place_bet_at_effect(
            position,
            bettor,
            bet_key,
            account,
            vault_key,
            bet_direction,
            now,
        ).0;
        let bet = self.markets[bet_key].bet;
        assert(self.market_inv(bet_key));
        self.lemma_position_sets(bet_key);
        lemma_staked_wf(bet, bet_direction);
        assert(after.positions.dom() =~= self.positions.dom().insert(position));
        assert forall|key: Address| #[trigger] after.markets.contains_key(key) implies after.market_inv(
            key,
        ) by {
            assert(self.markets.contains_key(key));
            assert(self.market_inv(key));
            assert(after.paid(key) =~= self.paid(key));
            if key == bet_key {
                assert(after.side(key, bet_direction) =~= self.side(key, bet_direction).insert(
                    position,
                ));
                assert(after.side(key, !bet_direction) =~= self.side(key, !bet_direction));
                assert(!self.side(key, bet_direction).contains(position));
            } else {
                assert(after.side(key, true) =~= self.side(key, true));
                assert(after.side(key, false) =~= self.side(key, false));
            }
        }
        assert forall|p: Address| #[trigger] after.positions.contains_key(p) implies after.position_inv(
            p,
        ) by {
            if p != position {
                assert(self.position_inv(p));
            }
        }
    }

    /// Resolving a market keeps the ledger sound.
    pub proof fn lemma_resolve_bet_inv(self, creator: Address, bet_key: Address, outcome: bool, now: i64)
        requires
            self.inv(),
            self.resolve_bet_error(creator, bet_key, now) is None,
        ensures
            self.resolve_bet_effect(bet_key, outcome).inv(),
    {
        let after = self.resolve_bet_effect(bet_key, outcome);
        self.lemma_position_sets(bet_key);
        assert forall|key: Address| #[trigger] after.markets.contains_key(key) implies after.market_inv(
            key,
        ) by {
            assert(self.markets.contains_key(key));
            assert(self.market_inv(key));
            assert(after.side(key, true) =~= self.side(key, true));
            assert(after.side(key, false) =~= self.side(key, false));
            assert(after.paid(key) =~= self.paid(key));
        }
        assert forall|p: Address| #[trigger] after.positions.contains_key(p) implies after.position_inv(
            p,
        ) by {
            assert(self.position_inv(p));
            if self.positions[p].bet == bet_key && self.positions[p].claimed {
                assert(self.paid(bet_key).contains(p));
            }
        }
    }

    /// The vault of a resolved market holds a share for every winner that
    /// was not paid yet.
    pub proof fn lemma_vault_covers_share(self, position: Address, bet_key: Address)
        requires
            self.inv(),
            self.markets.contains_key(bet_key),
            self.positions.contains_key(position),
            self.positions[position].bet == bet_key,
            !self.positions[position].claimed,
            self.positions[position].direction == self.markets[bet_key].bet.outcome,
        ensures
            self.markets[bet_key].bet.winners_count() > 0,
            self.paid(bet_key).len() < self.markets[bet_key].bet.winners_count(),
            self.markets[bet_key].bet.winning_amount() <= self.markets[bet_key].vault.amount,
    {
        let bet = self.markets[bet_key].bet;
        let winners = self.side(bet_key, bet.outcome);
        let paid = self.paid(bet_key);
        assert(self.market_inv(bet_key));
        self.lemma_position_sets(bet_key);
        assert(winners.contains(position));
        assert(paid.insert(position).subset_of(winners));
        lemma_len_subset(paid.insert(position), winners);
        let n = paid.len() as int;
        let count = bet.winners_count();
        let pool = bet.total_pool();
        let share = bet.winning_amount();
        lemma_fundamental_div_mod(pool, count);
        lemma_mod_pos_bound(pool, count);
        assert(count * share <= pool);
        assert(share >= 0) by (nonlinear_arith)
            requires
                count * share + pool % count == pool,
                pool % count < count,
                count > 0,
                pool >= 0,
        ;
        assert(share * (n + 1) <= count * share) by (nonlinear_arith)
            requires
                n + 1 <= count,
                share >= 0,
        ;
        assert(share * (n + 1) == share * n + share) by (nonlinear_arith);
    }

    /// Paying a share keeps the ledger sound.
    pub proof fn lemma_claim_winnings_at_inv(
        self,
        position: Address,
        user: Address,
        bet_key: Address,
        vault_key: Address,
        account: TokenAccount,
    )
        requires
            self.inv(),
            self.claim_winnings_at_error(position, user, bet_key, vault_key, account) is None,
        ensures
            self.claim_winnings_at_effect(position, user, bet_key, vault_key, account).0.inv(),
    {
        let after = self.claim_winnings_at_effect(position, user, bet_key, vault_key, account).0;
        let bet = self.markets[bet_key].bet;
        assert(self.market_inv(bet_key));
        self.lemma_position_sets(bet_key);
        self.lemma_vault_covers_share(position, bet_key);
        assert(after.positions.dom() =~= self.positions.dom());
        let share = bet.winning_amount();
        let n = self.paid(bet_key).len() as int;
        assert(share * (n + 1) == share * n + share) by (nonlinear_arith);
        assert forall|key: Address| #[trigger] after.markets.contains_key(key) implies after.market_inv(
            key,
        ) by {
            assert(self.markets.contains_key(key));
            assert(self.market_inv(key));
            assert(after.side(key, true) =~= self.side(key, true));
            assert(after.side(key, false) =~= self.side(key, false));
            if key == bet_key {
                assert(after.paid(key) =~= self.paid(key).insert(position));
                assert(!self.paid(key).contains(position));
            } else {
                assert(after.paid(key) =~= self.paid(key));
            }
        }
        assert forall|p: Address| #[trigger] after.positions.contains_key(p) implies after.position_inv(
            p,
        ) by {
            assert(self.position_inv(p));
        }
    }
}

} // verus!
