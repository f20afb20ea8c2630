use betting::address::Address;
use betting::error::BettingError;
use betting::instructions::{
    claim_winnings, create_bet, place_bet, resolve_bet, ClaimWinnings, CreateBet, CreateBetBumps,
    PlaceBet, ResolveBet,
};
use betting::state::{Bet, UserBet};
use betting::table::Table;
use betting::token::{transfer, TokenAccount, TransferError};

fn addr(n: u8) -> Address {
    Address::new([n; 32])
}

fn account(key: u8, owner: u8, amount: u64) -> TokenAccount {
    TokenAccount {
        key: addr(key), mint: addr(50), owner: addr(owner),
        amount,
        delegate: None,
        delegated_amount: 0,
    }
}

fn open_bet(stake: u64) -> Bet {
    let mut ctx = CreateBet {
        signer: addr(1),
        bet: Bet::default(),
        vault_authority: addr(60),
        vault_token_account: account(61, 60, 0),
        token_mint: addr(50),
        bumps: CreateBetBumps { bet: 254, vault_authority: 253, vault_token_account: 252 },
    };
    assert_eq!(create_bet(&mut ctx, String::from("m"), stake, 1_000), Ok(()));
    ctx.bet
}

fn bet_with(stake: u64, yes: u64, no: u64, resolved: bool, outcome: bool) -> Bet {
    let mut bet = open_bet(stake);
    bet.yes_bettors = yes;
    bet.no_bettors = no;
    bet.total_yes_amount = stake * yes;
    bet.total_no_amount = stake * no;
    bet.resolved = resolved;
    bet.outcome = outcome;
    bet
}

fn placing(bet: Bet, bettor: u8, funds: u64, vault: u64) -> PlaceBet {
    PlaceBet {
        bettor: addr(bettor),
        bet_key: addr(70),
        bet,
        user_bet: UserBet::default(),
        bettor_token_account: account(100 + bettor, bettor, funds),
        vault_token_account: account(61, 60, vault),
        unix_timestamp: 10,
        enforce_cutoff: false,
    }
}

fn claiming(bet: Bet, direction: bool, claimed: bool, vault: u64) -> ClaimWinnings {
    ClaimWinnings {
        bet_key: addr(70),
        bet,
        user_bet: UserBet {
            user: addr(2),
            bet: addr(70),
            amount: 100,
            direction,
            claimed,
            bump: 0,
        },
        user: addr(2),
        vault_authority: addr(60),
        vault_token_account: account(61, 60, vault),
        user_token_account: account(102, 2, 1),
    }
}

#[test]
fn transfer_moves_the_amount() {
    let mut from = account(10, 1, 70);
    let mut to = account(11, 2, 5);
    assert_eq!(transfer(&mut from, &mut to, &addr(1), 30), Ok(()));
    assert_eq!((from.amount, to.amount), (40, 35));
    assert_eq!(transfer(&mut from, &mut to, &addr(1), 40), Ok(()));
    assert_eq!((from.amount, to.amount), (0, 75));
    assert_eq!(transfer(&mut from, &mut to, &addr(1), 0), Ok(()));
    assert_eq!((from.amount, to.amount), (0, 75));
    assert_eq!((from.key, from.owner, to.key, to.owner), (addr(10), addr(1), addr(11), addr(2)));
}

#[test]
fn transfer_is_refused_for_each_reason() {
    let mut from = account(10, 1, 70);
    let mut to = account(11, 2, u64::MAX - 10);
    assert_eq!(
        transfer(&mut from, &mut to, &addr(1), 71),
        Err(TransferError::InsufficientBalance)
    );
    assert_eq!(transfer(&mut from, &mut to, &addr(2), 10), Err(TransferError::Unauthorized));
    assert_eq!(transfer(&mut from, &mut to, &addr(1), 11), Err(TransferError::Overflow));
    let mut other = TokenAccount { mint: addr(51), ..account(12, 2, 0) };
    assert_eq!(transfer(&mut from, &mut other, &addr(1), 10), Err(TransferError::MintMismatch));
    assert_eq!((from.amount, to.amount, other.amount), (70, u64::MAX - 10, 0));
    assert_eq!(transfer(&mut from, &mut to, &addr(1), 10), Ok(()));
    assert_eq!((from.amount, to.amount), (60, u64::MAX));
}

#[test]
fn transfer_by_the_delegate_uses_up_what_it_may_move() {
    let mut from = TokenAccount { delegate: Some(addr(7)), delegated_amount: 50, ..account(10, 1, 70) };
    let mut to = account(11, 2, 0);
    assert_eq!(transfer(&mut from, &mut to, &addr(7), 51), Err(TransferError::InsufficientBalance));
    assert_eq!(transfer(&mut from, &mut to, &addr(7), 20), Ok(()));
    assert_eq!((from.amount, from.delegated_amount, from.delegate), (50, 30, Some(addr(7))));
    assert_eq!(to.amount, 20);
    assert_eq!(transfer(&mut from, &mut to, &addr(1), 10), Ok(()));
    assert_eq!((from.amount, from.delegated_amount, from.delegate), (40, 30, Some(addr(7))));
    assert_eq!(transfer(&mut from, &mut to, &addr(7), 30), Ok(()));
    assert_eq!((from.amount, from.delegated_amount, from.delegate), (10, 0, None));
    assert_eq!(transfer(&mut from, &mut to, &addr(7), 5), Err(TransferError::Unauthorized));
    assert_eq!(transfer(&mut from, &mut to, &addr(8), 5), Err(TransferError::Unauthorized));
    assert_eq!((from.amount, to.amount), (10, 60));
    assert_eq!((to.delegate, to.delegated_amount), (None, 0));
}

#[test]
fn transfer_by_an_owner_who_is_the_delegate_counts_as_the_delegates() {
    let mut from = TokenAccount { delegate: Some(addr(1)), delegated_amount: 5, ..account(10, 1, 70) };
    let mut to = account(11, 2, 0);
    assert_eq!(transfer(&mut from, &mut to, &addr(1), 6), Err(TransferError::InsufficientBalance));
    assert_eq!(transfer(&mut from, &mut to, &addr(1), 5), Ok(()));
    assert_eq!((from.amount, from.delegated_amount, from.delegate), (65, 0, None));
    assert_eq!(transfer(&mut from, &mut to, &addr(1), 6), Ok(()));
    assert_eq!((from.amount, to.amount), (59, 11));
}

#[test]
fn create_bet_refuses_a_stake_of_zero() {
    let mut ctx = CreateBet {
        signer: addr(1),
        bet: bet_with(5, 3, 4, true, true),
        vault_authority: addr(60),
        vault_token_account: account(61, 60, 0),
        token_mint: addr(50),
        bumps: CreateBetBumps { bet: 1, vault_authority: 2, vault_token_account: 3 },
    };
    assert_eq!(create_bet(&mut ctx, String::from("again"), 0, 9), Err(BettingError::InvalidStake));
    assert_eq!(ctx.bet.title, "m");
    assert_eq!((ctx.bet.bet_amount, ctx.bet.end_time), (5, 1_000));
    assert_eq!((ctx.bet.yes_bettors, ctx.bet.no_bettors), (3, 4));
    assert!(ctx.bet.resolved && ctx.bet.outcome);
    assert_eq!(create_bet(&mut ctx, String::from("again"), 1, 9), Ok(()));
    assert_eq!(ctx.bet.bet_amount, 1);
}

#[test]
fn transfer_errors_become_betting_errors() {
    assert_eq!(
        BettingError::from_transfer(TransferError::InsufficientBalance),
        BettingError::InsufficientBalance
    );
    assert_eq!(
        BettingError::from_transfer(TransferError::MintMismatch),
        BettingError::MintMismatch
    );
    assert_eq!(
        BettingError::from_transfer(TransferError::Unauthorized),
        BettingError::Unauthorized
    );
    assert_eq!(BettingError::from_transfer(TransferError::Overflow), BettingError::Overflow);
}

#[test]
fn create_bet_fills_the_record() {
    let bet = open_bet(100);
    assert_eq!(bet.creator, addr(1));
    assert_eq!(bet.title, "m");
    assert_eq!(bet.bet_amount, 100);
    assert_eq!((bet.total_yes_amount, bet.total_no_amount), (0, 0));
    assert_eq!((bet.yes_bettors, bet.no_bettors), (0, 0));
    assert_eq!(bet.end_time, 1_000);
    assert!(!bet.resolved);
    assert!(!bet.outcome);
    assert_eq!(bet.token_mint, addr(50));
    assert_eq!(bet.vault, addr(61));
    assert_eq!((bet.bump, bet.bump_vault_authority, bet.bump_vault_ta), (254, 253, 252));
}

#[test]
fn create_bet_overwrites_what_the_account_held() {
    let mut ctx = CreateBet {
        signer: addr(1),
        bet: bet_with(5, 3, 4, true, true),
        vault_authority: addr(60),
        vault_token_account: account(61, 60, 0),
        token_mint: addr(50),
        bumps: CreateBetBumps { bet: 1, vault_authority: 2, vault_token_account: 3 },
    };
    assert_eq!(create_bet(&mut ctx, String::from("again"), 9, -4), Ok(()));
    assert_eq!(ctx.bet.title, "again");
    assert_eq!((ctx.bet.bet_amount, ctx.bet.end_time), (9, -4));
    assert_eq!((ctx.bet.total_yes_amount, ctx.bet.yes_bettors), (0, 0));
    assert_eq!((ctx.bet.total_no_amount, ctx.bet.no_bettors), (0, 0));
    assert!(!ctx.bet.resolved && !ctx.bet.outcome);
    assert_eq!(ctx.vault_token_account.amount, 0);
}

#[test]
fn place_bet_on_yes_counts_on_yes() {
    let mut ctx = placing(bet_with(100, 2, 1, false, false), 5, 150, 300);
    assert_eq!(place_bet(&mut ctx, true), Ok(()));
    assert_eq!((ctx.bet.yes_bettors, ctx.bet.total_yes_amount), (3, 300));
    assert_eq!((ctx.bet.no_bettors, ctx.bet.total_no_amount), (1, 100));
    assert_eq!(ctx.bettor_token_account.amount, 50);
    assert_eq!(ctx.vault_token_account.amount, 400);
    assert_eq!(ctx.user_bet.user, addr(5));
    assert_eq!(ctx.user_bet.bet, addr(70));
    assert_eq!(ctx.user_bet.amount, 100);
    assert!(ctx.user_bet.direction);
    assert!(!ctx.user_bet.claimed);
}

#[test]
fn place_bet_on_no_counts_on_no() {
    let mut ctx = placing(bet_with(100, 2, 1, false, false), 5, 100, 300);
    assert_eq!(place_bet(&mut ctx, false), Ok(()));
    assert_eq!((ctx.bet.yes_bettors, ctx.bet.total_yes_amount), (2, 200));
    assert_eq!((ctx.bet.no_bettors, ctx.bet.total_no_amount), (2, 200));
    assert_eq!(ctx.bettor_token_account.amount, 0);
    assert!(!ctx.user_bet.direction);
}

#[test]
fn place_bet_is_refused_in_the_order_of_its_checks() {
    let mut ctx = placing(bet_with(100, 0, 0, true, false), 5, 0, 0);
    ctx.vault_token_account.key = addr(62);
    ctx.enforce_cutoff = true;
    ctx.unix_timestamp = 1_000;
    assert_eq!(place_bet(&mut ctx, true), Err(BettingError::AlreadyResolved));
    ctx.bet.resolved = false;
    assert_eq!(place_bet(&mut ctx, true), Err(BettingError::BetEndTimeExceeded));
    ctx.unix_timestamp = 999;
    assert_eq!(place_bet(&mut ctx, true), Err(BettingError::VaultMismatch));
    ctx.vault_token_account.key = addr(61);
    assert_eq!(place_bet(&mut ctx, true), Err(BettingError::InsufficientBalance));
    ctx.bettor_token_account.amount = 100;
    ctx.bet.yes_bettors = u64::MAX;
    assert_eq!(place_bet(&mut ctx, true), Err(BettingError::Overflow));
    assert_eq!(ctx.bettor_token_account.amount, 100);
    assert_eq!(ctx.vault_token_account.amount, 0);
    assert_eq!(ctx.bet.yes_bettors, u64::MAX);
    assert_eq!(place_bet(&mut ctx, false), Ok(()));
    assert_eq!((ctx.bet.no_bettors, ctx.bet.total_no_amount), (1, 100));
}

#[test]
fn place_bet_refuses_a_pool_beyond_64_bits() {
    let mut bet = bet_with(10, 0, 0, false, false);
    bet.total_yes_amount = u64::MAX - 5;
    let mut ctx = placing(bet, 5, 10, 0);
    assert_eq!(place_bet(&mut ctx, false), Err(BettingError::Overflow));
    assert_eq!(ctx.bet.total_no_amount, 0);
    assert_eq!(ctx.bettor_token_account.amount, 10);
}

#[test]
fn resolve_bet_sets_the_outcome() {
    let mut ctx = ResolveBet {
        bet: bet_with(100, 2, 1, false, false),
        creator: addr(1),
        unix_timestamp: 1_000,
    };
    assert_eq!(resolve_bet(&mut ctx, true), Ok(()));
    assert!(ctx.bet.resolved);
    assert!(ctx.bet.outcome);
    assert_eq!((ctx.bet.total_yes_amount, ctx.bet.total_no_amount), (200, 100));
    assert_eq!((ctx.bet.yes_bettors, ctx.bet.no_bettors), (2, 1));
}

#[test]
fn resolve_bet_is_refused_in_the_order_of_its_checks() {
    let mut ctx = ResolveBet {
        bet: bet_with(100, 2, 1, true, false),
        creator: addr(2),
        unix_timestamp: 999,
    };
    assert_eq!(resolve_bet(&mut ctx, true), Err(BettingError::Unauthorized));
    ctx.creator = addr(1);
    assert_eq!(resolve_bet(&mut ctx, true), Err(BettingError::AlreadyResolved));
    ctx.bet.resolved = false;
    assert_eq!(resolve_bet(&mut ctx, true), Err(BettingError::NotYetEligibleToResolve));
    assert!(!ctx.bet.resolved && !ctx.bet.outcome);
    ctx.unix_timestamp = 1_000;
    assert_eq!(resolve_bet(&mut ctx, false), Ok(()));
    assert!(ctx.bet.resolved && !ctx.bet.outcome);
}

#[test]
fn claim_winnings_pays_the_pool_divided_by_the_winners() {
    let mut ctx = claiming(bet_with(100, 3, 1, true, true), true, false, 400);
    assert_eq!(claim_winnings(&mut ctx), Ok(()));
    assert_eq!(ctx.user_token_account.amount, 134);
    assert_eq!(ctx.vault_token_account.amount, 267);
    assert!(ctx.user_bet.claimed);
    assert_eq!(ctx.bet.total_yes_amount, 300);
}

#[test]
fn claim_winnings_counts_the_winners_on_no_when_no_wins() {
    let mut ctx = claiming(bet_with(100, 3, 2, true, false), false, false, 500);
    assert_eq!(claim_winnings(&mut ctx), Ok(()));
    assert_eq!(ctx.user_token_account.amount, 251);
    assert_eq!(ctx.vault_token_account.amount, 250);
}

#[test]
fn claim_winnings_is_refused_in_the_order_of_its_checks() {
    let mut ctx = claiming(bet_with(100, 0, 4, false, true), false, true, 0);
    ctx.vault_token_account.key = addr(62);
    assert_eq!(claim_winnings(&mut ctx), Err(BettingError::BetNotResolved));
    ctx.bet.resolved = true;
    assert_eq!(claim_winnings(&mut ctx), Err(BettingError::AlreadyClaimed));
    ctx.user_bet.claimed = false;
    assert_eq!(claim_winnings(&mut ctx), Err(BettingError::NotAWinner));
    ctx.user_bet.direction = true;
    assert_eq!(claim_winnings(&mut ctx), Err(BettingError::VaultMismatch));
    ctx.vault_token_account.key = addr(61);
    assert_eq!(claim_winnings(&mut ctx), Err(BettingError::NotAWinner));
    ctx.bet.yes_bettors = 3;
    assert_eq!(claim_winnings(&mut ctx), Err(BettingError::InsufficientBalance));
    ctx.vault_token_account.amount = 133;
    ctx.vault_authority = addr(63);
    assert_eq!(claim_winnings(&mut ctx), Err(BettingError::Unauthorized));
    assert!(!ctx.user_bet.claimed);
    assert_eq!((ctx.vault_token_account.amount, ctx.user_token_account.amount), (133, 1));
    ctx.vault_authority = addr(60);
    assert_eq!(claim_winnings(&mut ctx), Ok(()));
    assert_eq!((ctx.vault_token_account.amount, ctx.user_token_account.amount), (0, 134));
}

#[test]
fn claim_winnings_pays_only_the_callers_own_position() {
    let mut ctx = claiming(bet_with(100, 3, 1, true, true), true, false, 400);
    ctx.user = addr(3);
    assert_eq!(claim_winnings(&mut ctx), Err(BettingError::PositionNotFound));
    ctx.user = addr(2);
    ctx.bet_key = addr(71);
    assert_eq!(claim_winnings(&mut ctx), Err(BettingError::PositionNotFound));
    assert!(!ctx.user_bet.claimed);
    assert_eq!((ctx.vault_token_account.amount, ctx.user_token_account.amount), (400, 1));
    ctx.bet_key = addr(70);
    assert_eq!(claim_winnings(&mut ctx), Ok(()));
}

#[test]
fn claim_winnings_pays_only_in_the_markets_asset() {
    let mut ctx = claiming(bet_with(100, 3, 1, true, true), true, false, 400);
    ctx.user_token_account.mint = addr(51);
    assert_eq!(claim_winnings(&mut ctx), Err(BettingError::MintMismatch));
    ctx.vault_token_account.mint = addr(51);
    assert_eq!(claim_winnings(&mut ctx), Err(BettingError::MintMismatch));
    ctx.user_token_account.mint = addr(50);
    assert_eq!(claim_winnings(&mut ctx), Err(BettingError::MintMismatch));
    assert!(!ctx.user_bet.claimed);
}

#[test]
fn place_bet_takes_only_the_markets_asset() {
    let mut ctx = placing(bet_with(100, 0, 0, false, false), 5, 50, 0);
    ctx.bettor_token_account.mint = addr(51);
    assert_eq!(place_bet(&mut ctx, true), Err(BettingError::MintMismatch));
    ctx.bettor_token_account.mint = addr(50);
    assert_eq!(place_bet(&mut ctx, true), Err(BettingError::InsufficientBalance));
    ctx.bettor_token_account.amount = 100;
    ctx.bettor_token_account.owner = addr(6);
    assert_eq!(place_bet(&mut ctx, true), Err(BettingError::Unauthorized));
    assert_eq!(ctx.bet.yes_bettors, 0);
}

#[test]
fn claim_winnings_refuses_a_pool_beyond_64_bits() {
    let mut bet = bet_with(1, 1, 1, true, true);
    bet.total_yes_amount = u64::MAX;
    bet.total_no_amount = 1;
    let mut ctx = claiming(bet, true, false, 10);
    assert_eq!(claim_winnings(&mut ctx), Err(BettingError::Overflow));
}

#[test]
fn the_pool_and_the_winners_of_a_market() {
    let bet = bet_with(100, 3, 1, true, true);
    assert_eq!(bet.pool(), Some(400));
    assert_eq!(bet.winners(), 3);
    let bet = bet_with(100, 3, 1, true, false);
    assert_eq!(bet.winners(), 1);
    let mut bet = bet_with(1, 0, 0, false, false);
    bet.total_yes_amount = u64::MAX;
    assert_eq!(bet.pool(), Some(u64::MAX));
    bet.total_no_amount = 1;
    assert_eq!(bet.pool(), None);
    let copy = bet.clone();
    assert_eq!((copy.total_yes_amount, copy.total_no_amount), (u64::MAX, 1));
    assert_eq!(copy.title, bet.title);
}

#[test]
fn fresh_records_are_zero() {
    let bet = Bet::default();
    assert_eq!(bet.creator, Address::new([0; 32]));
    assert_eq!(bet.title, "");
    assert_eq!((bet.bet_amount, bet.end_time, bet.bump), (0, 0, 0));
    assert!(!bet.resolved);
    let user_bet = UserBet::default();
    assert_eq!(user_bet.user, Address::new([0; 32]));
    assert_eq!((user_bet.amount, user_bet.direction, user_bet.claimed), (0, false, false));
}

#[test]
fn a_table_keeps_one_record_at_each_address() {
    let mut table: Table<u64> = Table::new();
    assert_eq!(table.len(), 0);
    assert!(!table.contains_key(&addr(1)));
    assert_eq!(table.get(&addr(1)), None);
    table.insert(addr(1), 10);
    table.insert(addr(2), 20);
    assert_eq!(table.len(), 2);
    assert_eq!(table.get(&addr(1)), Some(&10));
    assert_eq!(table.get(&addr(2)), Some(&20));
    table.insert(addr(1), 30);
    assert_eq!(table.len(), 2);
    assert_eq!(table.get(&addr(1)), Some(&30));
    assert_eq!(table.get(&addr(2)), Some(&20));
    assert!(table.contains_key(&addr(2)));
    assert!(!table.contains_key(&addr(3)));
}
