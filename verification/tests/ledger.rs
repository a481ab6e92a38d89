use carbon_token::ledger::Error;
use carbon_token::token::{credit, debit, CarbonToken};

const ADMIN: u64 = 1;
const USER: u64 = 2;
const OTHER: u64 = 3;
const GREEN: u64 = 10;
const GOLD: u64 = 11;

#[test]
fn test_basic() {
    let mut token = CarbonToken::new();

    assert_eq!(token.initialize(ADMIN, ADMIN), Ok(()));
    assert_eq!(token.mint(ADMIN, USER, 100), Ok(()));

    assert_eq!(token.balance(USER), 100);
}

#[test]
fn transfer_moves_value() {
    let mut token = CarbonToken::new();
    token.initialize(ADMIN, ADMIN).unwrap();
    token.mint(ADMIN, USER, 100).unwrap();

    assert_eq!(token.transfer(USER, USER, OTHER, 30), Ok(()));
    assert_eq!(token.balance(USER), 70);
    assert_eq!(token.balance(OTHER), 30);
}

#[test]
fn transfer_conserves_total() {
    let mut token = CarbonToken::new();
    token.initialize(ADMIN, ADMIN).unwrap();
    token.mint(ADMIN, USER, 100).unwrap();
    token.mint(ADMIN, OTHER, 40).unwrap();
    let before = token.balance(USER) + token.balance(OTHER);

    token.transfer(USER, USER, OTHER, 55).unwrap();

    assert_eq!(token.balance(USER) + token.balance(OTHER), before);
}

#[test]
fn insufficient_balance_leaves_state_unchanged() {
    let mut token = CarbonToken::new();
    token.initialize(ADMIN, ADMIN).unwrap();
    token.mint(ADMIN, USER, 100).unwrap();
    token.transfer(USER, USER, OTHER, 30).unwrap();

    assert_eq!(
        token.transfer(USER, USER, OTHER, 1000),
        Err(Error::InsufficientBalance)
    );
    assert_eq!(token.balance(USER), 70);
    assert_eq!(token.balance(OTHER), 30);
}

#[test]
fn mint_by_non_admin_is_unauthorized() {
    let mut token = CarbonToken::new();
    token.initialize(ADMIN, ADMIN).unwrap();
    token.mint(ADMIN, USER, 100).unwrap();

    assert_eq!(token.mint(OTHER, USER, 5), Err(Error::Unauthorized));
    assert_eq!(token.balance(USER), 100);
}

#[test]
fn badge_minted_and_queried() {
    let mut token = CarbonToken::new();
    token.initialize(ADMIN, ADMIN).unwrap();

    assert_eq!(token.mint_badge(ADMIN, USER, GREEN), Ok(()));
    assert!(token.has_badge(USER, GREEN));
    assert!(!token.has_badge(USER, GOLD));
    assert!(!token.has_badge(OTHER, GREEN));
}

#[test]
fn badge_survives_other_operations() {
    let mut token = CarbonToken::new();
    token.initialize(ADMIN, ADMIN).unwrap();
    token.mint_badge(ADMIN, USER, GREEN).unwrap();

    token.mint(ADMIN, USER, 50).unwrap();
    token.transfer(USER, USER, OTHER, 20).unwrap();
    token.mint_badge(ADMIN, OTHER, GOLD).unwrap();
    assert_eq!(token.mint_badge(ADMIN, USER, GREEN), Ok(()));

    assert!(token.has_badge(USER, GREEN));
    assert!(token.has_badge(OTHER, GOLD));
}

#[test]
fn badge_mint_requires_admin() {
    let mut token = CarbonToken::new();
    token.initialize(ADMIN, ADMIN).unwrap();

    assert_eq!(token.mint_badge(USER, USER, GREEN), Err(Error::Unauthorized));
    assert!(!token.has_badge(USER, GREEN));
}

#[test]
fn privileged_operations_before_initialize_fail() {
    let mut token = CarbonToken::new();

    assert_eq!(token.mint(ADMIN, USER, 5), Err(Error::Uninitialized));
    assert_eq!(token.mint_badge(ADMIN, USER, GREEN), Err(Error::Uninitialized));
    assert_eq!(token.balance(USER), 0);
}

#[test]
fn initialize_requires_callers_own_identity() {
    let mut token = CarbonToken::new();

    assert_eq!(token.initialize(USER, ADMIN), Err(Error::Unauthorized));
    assert_eq!(token.mint(ADMIN, USER, 5), Err(Error::Uninitialized));
}

#[test]
fn reinitialize_replaces_admin() {
    let mut token = CarbonToken::new();
    token.initialize(ADMIN, ADMIN).unwrap();
    token.initialize(OTHER, OTHER).unwrap();

    assert_eq!(token.mint(ADMIN, USER, 5), Err(Error::Unauthorized));
    assert_eq!(token.mint(OTHER, USER, 5), Ok(()));
}

#[test]
fn untouched_accounts_default_to_zero_and_no_badge() {
    let mut token = CarbonToken::new();
    assert_eq!(token.balance(USER), 0);
    assert!(!token.has_badge(USER, GREEN));

    token.initialize(ADMIN, ADMIN).unwrap();
    token.mint(ADMIN, USER, 100).unwrap();
    token.mint_badge(ADMIN, USER, GREEN).unwrap();

    assert_eq!(token.balance(OTHER), 0);
    assert!(!token.has_badge(OTHER, GREEN));
}

#[test]
fn self_transfer_leaves_balance_unchanged() {
    let mut token = CarbonToken::new();
    token.initialize(ADMIN, ADMIN).unwrap();
    token.mint(ADMIN, USER, 100).unwrap();

    assert_eq!(token.transfer(USER, USER, USER, 40), Ok(()));
    assert_eq!(token.balance(USER), 100);
}

#[test]
fn transfer_by_non_sender_is_unauthorized() {
    let mut token = CarbonToken::new();
    token.initialize(ADMIN, ADMIN).unwrap();
    token.mint(ADMIN, USER, 100).unwrap();

    assert_eq!(token.transfer(OTHER, USER, OTHER, 10), Err(Error::Unauthorized));
    assert_eq!(token.balance(USER), 100);
    assert_eq!(token.balance(OTHER), 0);
}

#[test]
fn negative_amounts_are_rejected() {
    let mut token = CarbonToken::new();
    token.initialize(ADMIN, ADMIN).unwrap();
    token.mint(ADMIN, USER, 100).unwrap();

    assert_eq!(token.mint(ADMIN, USER, -5), Err(Error::InvalidAmount));
    assert_eq!(token.transfer(USER, USER, OTHER, -5), Err(Error::InvalidAmount));
    assert_eq!(token.balance(USER), 100);
    assert_eq!(token.balance(OTHER), 0);
}

#[test]
fn mint_overflow_is_rejected() {
    let mut token = CarbonToken::new();
    token.initialize(ADMIN, ADMIN).unwrap();
    token.mint(ADMIN, USER, i128::MAX).unwrap();

    assert_eq!(token.mint(ADMIN, USER, 1), Err(Error::Overflow));
    assert_eq!(token.balance(USER), i128::MAX);
}

#[test]
fn transfer_overflow_leaves_state_unchanged() {
    let mut token = CarbonToken::new();
    token.initialize(ADMIN, ADMIN).unwrap();
    token.mint(ADMIN, USER, i128::MAX).unwrap();
    token.mint(ADMIN, OTHER, 100).unwrap();

    assert_eq!(token.transfer(OTHER, OTHER, USER, 50), Err(Error::Overflow));
    assert_eq!(token.balance(USER), i128::MAX);
    assert_eq!(token.balance(OTHER), 100);
}

#[test]
fn credit_checks_sign_and_overflow() {
    assert_eq!(credit(70, 30), Ok(100));
    assert_eq!(credit(0, 0), Ok(0));
    assert_eq!(credit(5, -1), Err(Error::InvalidAmount));
    assert_eq!(credit(i128::MAX, 1), Err(Error::Overflow));
    assert_eq!(credit(i128::MAX - 1, 1), Ok(i128::MAX));
}

#[test]
fn debit_checks_sign_and_sufficiency() {
    assert_eq!(debit(100, 30), Ok(70));
    assert_eq!(debit(100, 100), Ok(0));
    assert_eq!(debit(100, 101), Err(Error::InsufficientBalance));
    assert_eq!(debit(100, -1), Err(Error::InvalidAmount));
}
