use betting::address::Address;
use betting::error::BettingError;
use betting::ledger::Ledger;
use betting::token::TokenAccount;

fn addr(n: u8) -> Address {
    Address::new([n; 32])
}

fn wallet(n: u8, mint: Address, amount: u64) -> TokenAccount {
    TokenAccount {
        key: addr(100 + n), mint, owner: addr(n),
        amount,
        delegate: None,
        delegated_amount: 0,
    }
}

struct Setup {
    ledger: Ledger,
    bet: Address,
    vault: Address,
    mint: Address,
    creator: Address,
}

fn open_market(stake: u64, end_time: i64) -> Setup {
    let mint = addr(50);
    let creator = addr(1);
    let mut ledger = Ledger::new(addr(9), false);
    let bet = ledger
        .create_bet(creator, mint, String::from("rain tomorrow"), stake, end_time)
        .unwrap();
    let vault = ledger.market(&bet).unwrap().bet.vault;
    Setup { ledger, bet, vault, mint, creator }
}

#[test]
fn two_winners_split_the_pool_evenly() {
    let mut s = open_market(100, 1_000);
    let mut a = wallet(2, s.mint, 100);
    let mut b = wallet(3, s.mint, 100);
    let mut c = wallet(4, s.mint, 100);
    assert_eq!(s.ledger.place_bet(addr(2), s.bet, &mut a, s.vault, true, 10), Ok(()));
    assert_eq!(s.ledger.place_bet(addr(3), s.bet, &mut b, s.vault, true, 11), Ok(()));
    assert_eq!(s.ledger.place_bet(addr(4), s.bet, &mut c, s.vault, false, 12), Ok(()));
    {
        let market = s.ledger.market(&s.bet).unwrap();
        assert_eq!(market.bet.total_yes_amount, 200);
        assert_eq!(market.bet.total_no_amount, 100);
        assert_eq!(market.bet.yes_bettors, 2);
        assert_eq!(market.bet.no_bettors, 1);
        assert_eq!(market.vault.amount, 300);
    }
    assert_eq!((a.amount, b.amount, c.amount), (0, 0, 0));
    assert_eq!(s.ledger.resolve_bet(s.creator, s.bet, true, 1_000), Ok(()));
    assert_eq!(s.ledger.claim_winnings(addr(2), s.bet, s.vault, &mut a), Ok(()));
    assert_eq!(s.ledger.claim_winnings(addr(3), s.bet, s.vault, &mut b), Ok(()));
    assert_eq!(a.amount, 150);
    assert_eq!(b.amount, 150);
    assert_eq!(s.ledger.market(&s.bet).unwrap().vault.amount, 0);
    assert_eq!(
        s.ledger.claim_winnings(addr(4), s.bet, s.vault, &mut c),
        Err(BettingError::NotAWinner)
    );
    assert_eq!(c.amount, 0);
}

#[test]
fn three_winners_leave_the_remainder_in_the_vault() {
    let mut s = open_market(100, 1_000);
    let mut yes = [wallet(2, s.mint, 100), wallet(3, s.mint, 100), wallet(4, s.mint, 100)];
    let mut no = wallet(5, s.mint, 100);
    for (i, account) in yes.iter_mut().enumerate() {
        let bettor = addr(2 + i as u8);
        assert_eq!(s.ledger.place_bet(bettor, s.bet, account, s.vault, true, 10), Ok(()));
    }
    assert_eq!(s.ledger.place_bet(addr(5), s.bet, &mut no, s.vault, false, 10), Ok(()));
    assert_eq!(s.ledger.market(&s.bet).unwrap().vault.amount, 400);
    assert_eq!(s.ledger.resolve_bet(s.creator, s.bet, true, 2_000), Ok(()));
    for (i, account) in yes.iter_mut().enumerate() {
        let user = addr(2 + i as u8);
        assert_eq!(s.ledger.claim_winnings(user, s.bet, s.vault, account), Ok(()));
        assert_eq!(account.amount, 133);
    }
    assert_eq!(s.ledger.market(&s.bet).unwrap().vault.amount, 1);
}

#[test]
fn nobody_on_the_winning_side_strands_the_pool() {
    let mut s = open_market(100, 1_000);
    let mut a = wallet(2, s.mint, 100);
    let mut b = wallet(3, s.mint, 100);
    assert_eq!(s.ledger.place_bet(addr(2), s.bet, &mut a, s.vault, true, 10), Ok(()));
    assert_eq!(s.ledger.place_bet(addr(3), s.bet, &mut b, s.vault, true, 10), Ok(()));
    assert_eq!(s.ledger.resolve_bet(s.creator, s.bet, false, 1_000), Ok(()));
    assert_eq!(
        s.ledger.claim_winnings(addr(2), s.bet, s.vault, &mut a),
        Err(BettingError::NotAWinner)
    );
    assert_eq!(
        s.ledger.claim_winnings(addr(3), s.bet, s.vault, &mut b),
        Err(BettingError::NotAWinner)
    );
    assert_eq!((a.amount, b.amount), (0, 0));
    assert_eq!(s.ledger.market(&s.bet).unwrap().vault.amount, 200);
}
