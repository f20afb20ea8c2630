use betting::address::Address;
use betting::betting_contracts::{
    initialize_bet, place_bet, resolve_bet, Bet, ErrorCode, InitializeBet, PlaceBet, ResolveBet,
    WinnerAccounts,
};
use betting::token::{TokenAccount, TransferError};

fn addr(n: u8) -> Address {
    Address::new([n; 32])
}

fn account(key: u8, owner: u8, amount: u64) -> TokenAccount {
    TokenAccount {
        key: addr(key), mint: addr(50), owner: addr(owner),
        amount,
        delegate: None,
        delegated_amount: 0,
    }
}

const BET_KEY: u8 = 70;
const ESCROW: u8 = 61;

fn blank() -> Bet {
    Bet {
        creator: addr(0),
        title: String::new(),
        bet_amount: 0,
        total_yes_amount: 0,
        total_no_amount: 0,
        yes_bettors: vec![addr(9)],
        no_bettors: vec![addr(9)],
        resolved: true,
    }
}

fn opened(stake: u64) -> Bet {
    let mut ctx = InitializeBet { bet: blank(), creator: addr(1) };
    assert_eq!(initialize_bet(&mut ctx, String::from("m"), stake), Ok(()));
    ctx.bet
}

fn staked(stake: u64, yes: &[u8], no: &[u8]) -> (Bet, TokenAccount) {
    let mut bet = opened(stake);
    let mut escrow = account(ESCROW, BET_KEY, 0);
    for (side, bettors) in [(true, yes), (false, no)] {
        for n in bettors {
            let mut ctx = PlaceBet {
                bet,
                bettor: addr(*n),
                bettor_token_account: account(100 + *n, *n, stake),
                escrow_token_account: escrow,
            };
            assert_eq!(place_bet(&mut ctx, side), Ok(()));
            assert_eq!(ctx.bettor_token_account.amount, 0);
            bet = ctx.bet;
            escrow = ctx.escrow_token_account;
        }
    }
    (bet, escrow)
}

fn winner(n: u8, amount: u64) -> WinnerAccounts {
    WinnerAccounts { winner: addr(n), token_account: account(100 + n, n, amount) }
}

fn resolving(bet: Bet, escrow: TokenAccount, accounts: Vec<WinnerAccounts>) -> ResolveBet {
    ResolveBet {
        bet_key: addr(BET_KEY),
        bet,
        creator: addr(1),
        escrow_token_account: escrow,
        remaining_accounts: accounts,
    }
}

fn amounts(ctx: &ResolveBet) -> Vec<u64> {
    ctx.remaining_accounts.iter().map(|a| a.token_account.amount).collect()
}

#[test]
fn initialize_bet_fills_the_record() {
    let bet = opened(100);
    assert_eq!(bet.creator, addr(1));
    assert_eq!(bet.title, "m");
    assert_eq!(bet.bet_amount, 100);
    assert_eq!((bet.total_yes_amount, bet.total_no_amount), (0, 0));
    assert!(bet.yes_bettors.is_empty());
    assert!(bet.no_bettors.is_empty());
    assert!(!bet.resolved);
}

#[test]
fn initialize_bet_refuses_a_stake_of_zero() {
    let mut ctx = InitializeBet { bet: blank(), creator: addr(1) };
    assert_eq!(initialize_bet(&mut ctx, String::from("m"), 0), Err(ErrorCode::InvalidStake));
    assert_eq!(ctx.bet.creator, addr(0));
    assert_eq!(ctx.bet.title, "");
    assert_eq!(ctx.bet.yes_bettors, vec![addr(9)]);
    assert!(ctx.bet.resolved);
    assert_eq!(initialize_bet(&mut ctx, String::from("m"), 1), Ok(()));
    assert_eq!(ctx.bet.bet_amount, 1);
}

#[test]
fn bulk_resolve_uses_up_what_the_market_may_move_as_delegate() {
    let (bet, escrow) = staked(100, &[2, 3], &[4]);
    let escrow = TokenAccount {
        owner: addr(8),
        delegate: Some(addr(BET_KEY)),
        delegated_amount: 150,
        ..escrow
    };
    let mut ctx = resolving(bet, escrow, vec![winner(2, 0), winner(3, 0)]);
    assert_eq!(
        resolve_bet(&mut ctx, true),
        Err(ErrorCode::Transfer(TransferError::Unauthorized))
    );
    assert_eq!(amounts(&ctx), vec![0, 0]);
    assert_eq!(ctx.escrow_token_account.delegated_amount, 150);
    ctx.escrow_token_account.delegated_amount = 301;
    assert_eq!(resolve_bet(&mut ctx, true), Ok(()));
    assert_eq!(amounts(&ctx), vec![150, 150]);
    assert_eq!(ctx.escrow_token_account.amount, 0);
    assert_eq!(ctx.escrow_token_account.delegated_amount, 1);
    assert_eq!(ctx.escrow_token_account.delegate, Some(addr(BET_KEY)));
}

#[test]
fn bulk_place_bet_lists_the_participant() {
    let (bet, escrow) = staked(100, &[2, 3], &[4]);
    assert_eq!(bet.yes_bettors, vec![addr(2), addr(3)]);
    assert_eq!(bet.no_bettors, vec![addr(4)]);
    assert_eq!((bet.total_yes_amount, bet.total_no_amount), (200, 100));
    assert_eq!(escrow.amount, 300);
}

#[test]
fn bulk_place_bet_takes_the_same_participant_twice() {
    let (bet, escrow) = staked(100, &[2, 2], &[2]);
    assert_eq!(bet.yes_bettors, vec![addr(2), addr(2)]);
    assert_eq!(bet.no_bettors, vec![addr(2)]);
    assert_eq!(escrow.amount, 300);
}

#[test]
fn bulk_place_bet_is_refused_for_each_reason() {
    let (mut bet, escrow) = staked(100, &[2], &[]);
    bet.resolved = true;
    let mut ctx = PlaceBet {
        bet,
        bettor: addr(5),
        bettor_token_account: account(105, 5, 99),
        escrow_token_account: escrow,
    };
    assert_eq!(place_bet(&mut ctx, true), Err(ErrorCode::BetAlreadyResolved));
    ctx.bet.resolved = false;
    assert_eq!(
        place_bet(&mut ctx, true),
        Err(ErrorCode::Transfer(TransferError::InsufficientBalance))
    );
    ctx.bettor_token_account.amount = 100;
    ctx.bettor_token_account.owner = addr(6);
    assert_eq!(place_bet(&mut ctx, true), Err(ErrorCode::Transfer(TransferError::Unauthorized)));
    ctx.bettor_token_account.owner = addr(5);
    ctx.bet.total_no_amount = u64::MAX - 99;
    assert_eq!(place_bet(&mut ctx, false), Err(ErrorCode::Overflow));
    assert_eq!(ctx.bet.yes_bettors, vec![addr(2)]);
    assert!(ctx.bet.no_bettors.is_empty());
    assert_eq!(ctx.bettor_token_account.amount, 100);
    assert_eq!(ctx.escrow_token_account.amount, 100);
    assert_eq!(place_bet(&mut ctx, true), Ok(()));
    assert_eq!(ctx.bet.yes_bettors, vec![addr(2), addr(5)]);
    assert_eq!(ctx.bet.total_yes_amount, 200);
}

#[test]
fn bulk_resolve_pays_every_winner() {
    let (bet, escrow) = staked(100, &[2, 3], &[4]);
    let mut ctx = resolving(bet, escrow, vec![winner(2, 0), winner(3, 7)]);
    assert_eq!(resolve_bet(&mut ctx, true), Ok(()));
    assert!(ctx.bet.resolved);
    assert_eq!(amounts(&ctx), vec![150, 157]);
    assert_eq!(ctx.escrow_token_account.amount, 0);
    assert_eq!(ctx.remaining_accounts[0].winner, addr(2));
    assert_eq!(ctx.remaining_accounts[1].token_account.key, addr(103));
    assert_eq!(ctx.bet.yes_bettors, vec![addr(2), addr(3)]);
}

#[test]
fn bulk_resolve_leaves_the_remainder_in_the_escrow() {
    let (bet, escrow) = staked(100, &[2, 3, 4], &[5]);
    let mut ctx = resolving(bet, escrow, vec![winner(2, 0), winner(3, 0), winner(4, 0)]);
    assert_eq!(resolve_bet(&mut ctx, true), Ok(()));
    assert_eq!(amounts(&ctx), vec![133, 133, 133]);
    assert_eq!(ctx.escrow_token_account.amount, 1);
}

#[test]
fn bulk_resolve_for_no_pays_the_no_side() {
    let (bet, escrow) = staked(100, &[2, 3, 4], &[5]);
    let mut ctx = resolving(bet, escrow, vec![winner(5, 0)]);
    assert_eq!(resolve_bet(&mut ctx, false), Ok(()));
    assert_eq!(amounts(&ctx), vec![400]);
    assert_eq!(ctx.escrow_token_account.amount, 0);
}

#[test]
fn bulk_resolve_without_winners_pays_nobody() {
    let (bet, escrow) = staked(100, &[2, 3], &[]);
    let mut ctx = resolving(bet, escrow, vec![winner(2, 0)]);
    assert_eq!(resolve_bet(&mut ctx, false), Ok(()));
    assert!(ctx.bet.resolved);
    assert_eq!(amounts(&ctx), vec![0]);
    assert_eq!(ctx.escrow_token_account.amount, 200);
}

#[test]
fn bulk_resolve_leaves_further_accounts_alone() {
    let (bet, escrow) = staked(100, &[2], &[3]);
    let mut ctx = resolving(bet, escrow, vec![winner(2, 0), winner(8, 5), winner(9, 6)]);
    assert_eq!(resolve_bet(&mut ctx, true), Ok(()));
    assert_eq!(amounts(&ctx), vec![200, 5, 6]);
    assert_eq!(ctx.remaining_accounts[2].winner, addr(9));
}

#[test]
fn bulk_resolve_is_refused_for_each_reason() {
    let (mut bet, escrow) = staked(100, &[2, 3], &[4]);
    bet.resolved = true;
    let mut ctx = resolving(bet, escrow, vec![winner(2, 0)]);
    ctx.creator = addr(7);
    assert_eq!(resolve_bet(&mut ctx, true), Err(ErrorCode::BetAlreadyResolved));
    ctx.bet.resolved = false;
    assert_eq!(resolve_bet(&mut ctx, true), Err(ErrorCode::UnauthorizedResolver));
    ctx.creator = addr(1);
    assert_eq!(resolve_bet(&mut ctx, true), Err(ErrorCode::NotEnoughAccountKeys));
    ctx.remaining_accounts.push(winner(4, 0));
    assert_eq!(resolve_bet(&mut ctx, true), Err(ErrorCode::InvalidWinner));
    ctx.remaining_accounts[1] = winner(3, 0);
    ctx.escrow_token_account.amount = 299;
    assert_eq!(
        resolve_bet(&mut ctx, true),
        Err(ErrorCode::Transfer(TransferError::InsufficientBalance))
    );
    ctx.escrow_token_account.amount = 300;
    ctx.remaining_accounts[1].token_account.mint = addr(51);
    assert_eq!(resolve_bet(&mut ctx, true), Err(ErrorCode::Transfer(TransferError::MintMismatch)));
    ctx.remaining_accounts[1].token_account.mint = addr(50);
    ctx.remaining_accounts[1].token_account.amount = u64::MAX - 149;
    assert_eq!(resolve_bet(&mut ctx, true), Err(ErrorCode::Transfer(TransferError::Overflow)));
    ctx.remaining_accounts[1].token_account.amount = 0;
    ctx.bet_key = addr(71);
    assert_eq!(resolve_bet(&mut ctx, true), Err(ErrorCode::Transfer(TransferError::Unauthorized)));
    assert!(!ctx.bet.resolved);
    assert_eq!(amounts(&ctx), vec![0, 0]);
    assert_eq!(ctx.escrow_token_account.amount, 300);
    ctx.bet_key = addr(BET_KEY);
    assert_eq!(resolve_bet(&mut ctx, true), Ok(()));
    assert_eq!(amounts(&ctx), vec![150, 150]);
}

#[test]
fn bulk_resolve_pays_nobody_where_a_later_payment_is_refused() {
    let (bet, escrow) = staked(100, &[2, 3, 4], &[]);
    let mut ctx = resolving(bet, escrow, vec![winner(2, 0), winner(3, 0), winner(5, 0)]);
    assert_eq!(resolve_bet(&mut ctx, true), Err(ErrorCode::InvalidWinner));
    assert_eq!(amounts(&ctx), vec![0, 0, 0]);
    assert_eq!(ctx.escrow_token_account.amount, 300);
    assert!(!ctx.bet.resolved);
}

#[test]
fn bulk_resolve_refuses_a_pot_beyond_64_bits() {
    let (mut bet, escrow) = staked(100, &[2], &[]);
    bet.total_yes_amount = u64::MAX;
    bet.total_no_amount = 1;
    let mut ctx = resolving(bet, escrow, vec![winner(2, 0)]);
    assert_eq!(resolve_bet(&mut ctx, true), Err(ErrorCode::Overflow));
}
