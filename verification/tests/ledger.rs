use dice::account::{GlobalPool, UserPool};
use dice::constants::{INIT_DEPOSIT_AMOUNT, MAX_TOKEN};
use dice::error::DiceError;
use dice::protocol::{
    deposit_user_sol, desposit_user_token, init_sol_pool, init_token_pool, init_user_pool,
    initialize, withdraw_user_sol, withdraw_user_token, TransferAuthority, TransferKind,
    TransferRequest,
};

const ADMIN: u64 = 7;
const GAME_VAULT: u64 = 1_001;
const USER: u64 = 55;
const ESCROW_VAULT: u64 = 2_002;

fn fresh_registry() -> GlobalPool {
    let (pool, _request) = initialize(ADMIN, GAME_VAULT);
    pool
}

#[test]
fn initialize_sets_up_empty_registry() {
    let (pool, request) = initialize(ADMIN, GAME_VAULT);
    assert_eq!(pool.admin, ADMIN);
    assert_eq!(pool.token_count, 0);
    assert_eq!(pool.token_address.len(), MAX_TOKEN);
    assert_eq!(
        request,
        TransferRequest {
            from: ADMIN,
            to: GAME_VAULT,
            kind: TransferKind::Sol,
            amount: INIT_DEPOSIT_AMOUNT,
            authority: TransferAuthority::Signer(ADMIN),
        }
    );
}

#[test]
fn init_sol_pool_moves_exactly_the_deposit() {
    let request = init_sol_pool(ADMIN, GAME_VAULT, 777);
    assert_eq!(request.from, ADMIN);
    assert_eq!(request.to, GAME_VAULT);
    assert_eq!(request.kind, TransferKind::Sol);
    assert_eq!(request.amount, 777);
}

#[test]
fn register_grows_count_and_reports_it() {
    let mut registry = fresh_registry();
    assert_eq!(registry.register(ADMIN, 11), Ok(1));
    assert_eq!(registry.register(ADMIN, 12), Ok(2));
    assert_eq!(registry.register(ADMIN, 13), Ok(3));
    assert_eq!(registry.token_count, 3);
    assert_eq!(registry.token_address[0], 11);
    assert_eq!(registry.token_address[1], 12);
    assert_eq!(registry.token_address[2], 13);
}

#[test]
fn register_is_idempotent() {
    let mut once = fresh_registry();
    assert_eq!(once.register(ADMIN, 11), Ok(1));
    let mut twice = fresh_registry();
    assert_eq!(twice.register(ADMIN, 11), Ok(1));
    assert_eq!(twice.register(ADMIN, 11), Ok(1));
    assert_eq!(once.token_count, twice.token_count);
    assert_eq!(once.token_address, twice.token_address);
    assert_eq!(once.admin, twice.admin);
}

#[test]
fn register_counts_distinct_assets_and_caps_at_capacity() {
    let mut registry = fresh_registry();
    for mint in 0..MAX_TOKEN as u64 {
        // Register everything twice: duplicates must not count.
        assert!(registry.register(ADMIN, 100 + mint).is_ok());
        assert!(registry.register(ADMIN, 100 + mint).is_ok());
    }
    assert_eq!(registry.token_count, MAX_TOKEN as u64);
    // The twenty-first distinct asset is rejected; a listed one still is not.
    assert_eq!(registry.register(ADMIN, 999), Err(DiceError::CapacityExceeded));
    assert_eq!(registry.token_count, MAX_TOKEN as u64);
    assert_eq!(registry.register(ADMIN, 105), Ok(MAX_TOKEN as u64));
}

#[test]
fn register_rejects_non_administrator() {
    let mut registry = fresh_registry();
    registry.register(ADMIN, 11).unwrap();
    let before_count = registry.token_count;
    let before_table = registry.token_address.clone();
    assert_eq!(registry.register(USER, 12), Err(DiceError::CannotAccess));
    assert_eq!(registry.token_count, before_count);
    assert_eq!(registry.token_address, before_table);
}

#[test]
fn index_of_finds_the_registered_slot() {
    let mut registry = fresh_registry();
    registry.register(ADMIN, 11).unwrap();
    registry.register(ADMIN, 12).unwrap();
    assert_eq!(registry.index_of(11), Some(0));
    assert_eq!(registry.index_of(12), Some(1));
    assert_eq!(registry.index_of(13), None);
}

#[test]
fn init_token_pool_registers_and_requests_the_seed_transfer() {
    let mut registry = fresh_registry();
    let request = init_token_pool(&mut registry, ADMIN, 11, 301, 302, 5_000).unwrap();
    assert_eq!(
        request,
        TransferRequest {
            from: 301,
            to: 302,
            kind: TransferKind::Token(11),
            amount: 5_000,
            authority: TransferAuthority::Signer(ADMIN),
        }
    );
    assert_eq!(registry.token_count, 1);
    assert_eq!(registry.token_address[0], 11);
}

#[test]
fn init_token_pool_rejects_non_administrator_without_moving_funds() {
    let mut registry = fresh_registry();
    let r = init_token_pool(&mut registry, USER, 11, 301, 302, 5_000);
    assert_eq!(r, Err(DiceError::CannotAccess));
    assert_eq!(registry.token_count, 0);
}

#[test]
fn init_user_pool_opens_a_seeded_record() {
    let (pool, request) = init_user_pool(USER, ESCROW_VAULT);
    assert_eq!(pool.user_address, USER);
    assert_eq!(pool.sol_amount, INIT_DEPOSIT_AMOUNT);
    assert!(pool.token_address.iter().all(|&a| a == 0));
    assert!(pool.token_amount.iter().all(|&a| a == 0));
    assert_eq!(
        request,
        TransferRequest {
            from: USER,
            to: ESCROW_VAULT,
            kind: TransferKind::Sol,
            amount: INIT_DEPOSIT_AMOUNT,
            authority: TransferAuthority::Signer(USER),
        }
    );
}

#[test]
fn user_pool_default_is_zeroed() {
    let pool = UserPool::default();
    assert_eq!(pool.user_address, 0);
    assert_eq!(pool.sol_amount, 0);
    assert_eq!(pool.token_address.len(), MAX_TOKEN);
    assert_eq!(pool.token_amount.len(), MAX_TOKEN);
    assert!(pool.token_amount.iter().all(|&a| a == 0));
}

#[test]
fn base_deposit_then_withdraw_round_trip() {
    let mut pool = UserPool::initialize(USER, 0);
    let deposit = deposit_user_sol(&mut pool, ESCROW_VAULT, 0, 100).unwrap();
    assert_eq!(pool.sol_amount, 100);
    assert_eq!(deposit.amount, 100);
    assert_eq!(deposit.from, USER);
    assert_eq!(deposit.to, ESCROW_VAULT);
    let withdraw = withdraw_user_sol(&mut pool, ESCROW_VAULT, 100, 40, 3).unwrap();
    assert_eq!(pool.sol_amount, 60);
    assert_eq!(
        withdraw,
        TransferRequest {
            from: ESCROW_VAULT,
            to: USER,
            kind: TransferKind::Sol,
            amount: 40,
            authority: TransferAuthority::VaultCapability { participant: USER, bump: 3 },
        }
    );
}

#[test]
fn base_withdrawal_requires_strictly_more_than_the_amount() {
    let mut pool = UserPool::initialize(USER, 100);
    // Equal to the claimed balance: rejected, record untouched.
    assert_eq!(
        withdraw_user_sol(&mut pool, ESCROW_VAULT, 100, 100, 3),
        Err(DiceError::ExceedAmount)
    );
    assert_eq!(pool.sol_amount, 100);
    // One below: accepted.
    assert!(withdraw_user_sol(&mut pool, ESCROW_VAULT, 100, 99, 3).is_ok());
    assert_eq!(pool.sol_amount, 1);
}

#[test]
fn base_deposit_overflow_is_rejected_unchanged() {
    let mut pool = UserPool::initialize(USER, 5);
    assert_eq!(
        deposit_user_sol(&mut pool, ESCROW_VAULT, u64::MAX, 1),
        Err(DiceError::AmountOverflow)
    );
    assert_eq!(pool.sol_amount, 5);
    assert_eq!(deposit_user_sol(&mut pool, ESCROW_VAULT, u64::MAX - 1, 1).map(|t| t.amount), Ok(1));
    assert_eq!(pool.sol_amount, u64::MAX);
}

#[test]
fn token_deposit_requires_registration() {
    let mut registry = fresh_registry();
    registry.register(ADMIN, 11).unwrap();
    let (mut pool, _request) = init_user_pool(USER, ESCROW_VAULT);
    // Asset 12 is not on the whitelist, whatever the record holds.
    assert_eq!(
        desposit_user_token(&mut pool, &registry, 12, 401, 402, 0, 500),
        Err(DiceError::NotRegisteredToken)
    );
    assert!(pool.token_amount.iter().all(|&a| a == 0));
}

#[test]
fn token_withdrawal_requires_registration() {
    let registry = fresh_registry();
    let mut pool = UserPool::initialize(USER, 0);
    assert_eq!(
        withdraw_user_token(&mut pool, &registry, 12, 401, 402, 500, 100, 3),
        Err(DiceError::NotRegisteredToken)
    );
}

#[test]
fn token_balance_lives_in_the_registry_slot() {
    let mut registry = fresh_registry();
    registry.register(ADMIN, 11).unwrap();
    registry.register(ADMIN, 12).unwrap();
    registry.register(ADMIN, 13).unwrap();
    let (mut pool, _request) = init_user_pool(USER, ESCROW_VAULT);
    let deposit = desposit_user_token(&mut pool, &registry, 12, 401, 402, 0, 500).unwrap();
    assert_eq!(deposit.kind, TransferKind::Token(12));
    assert_eq!(deposit.from, 401);
    assert_eq!(deposit.to, 402);
    assert_eq!(deposit.amount, 500);
    // Asset 12 sits in registry slot 1, so the record uses slot 1 too.
    assert_eq!(pool.token_address[1], 12);
    assert_eq!(pool.token_amount[1], 500);
    assert_eq!(pool.token_amount[0], 0);
    assert_eq!(pool.token_amount[2], 0);
}

#[test]
fn escrow_session_across_assets() {
    // The administrator lists three assets.
    let (mut registry, _seed) = initialize(ADMIN, GAME_VAULT);
    registry.register(ADMIN, 11).unwrap();
    registry.register(ADMIN, 12).unwrap();
    registry.register(ADMIN, 13).unwrap();
    assert_eq!(registry.token_count, 3);

    // A participant opens a record with the fixed base deposit.
    let (mut pool, _open) = init_user_pool(USER, ESCROW_VAULT);
    assert_eq!(pool.sol_amount, 1_000_000);

    // Deposit 500 of the second asset, then withdraw 200 of it.
    desposit_user_token(&mut pool, &registry, 12, 401, 402, 0, 500).unwrap();
    assert_eq!(pool.token_amount[1], 500);
    let withdraw = withdraw_user_token(&mut pool, &registry, 12, 401, 402, 500, 200, 3).unwrap();
    assert_eq!(pool.token_amount[1], 300);
    assert_eq!(
        withdraw.authority,
        TransferAuthority::VaultCapability { participant: USER, bump: 3 }
    );
    assert_eq!(withdraw.from, 402);
    assert_eq!(withdraw.to, 401);

    // Draining the slot to exactly zero is rejected: strict inequality.
    assert_eq!(
        withdraw_user_token(&mut pool, &registry, 12, 401, 402, 300, 300, 3),
        Err(DiceError::ExceedAmount)
    );
    assert_eq!(pool.token_amount[1], 300);
}

#[test]
fn token_deposit_overflow_is_rejected_unchanged() {
    let mut registry = fresh_registry();
    registry.register(ADMIN, 11).unwrap();
    let (mut pool, _request) = init_user_pool(USER, ESCROW_VAULT);
    assert_eq!(
        desposit_user_token(&mut pool, &registry, 11, 401, 402, u64::MAX, 1),
        Err(DiceError::AmountOverflow)
    );
    assert_eq!(pool.token_amount[0], 0);
    assert_eq!(pool.token_address[0], 0);
}

#[test]
fn ledger_slot_operations_apply_the_claimed_prior() {
    let mut pool = UserPool::initialize(USER, 0);
    assert_eq!(pool.deposit_asset(4, 11, 30, 12), Ok(42));
    assert_eq!(pool.token_address[4], 11);
    assert_eq!(pool.token_amount[4], 42);
    assert_eq!(pool.withdraw_asset(4, 11, 42, 2), Ok(40));
    assert_eq!(pool.token_amount[4], 40);
    assert_eq!(pool.withdraw_asset(4, 11, 40, 40), Err(DiceError::ExceedAmount));
    assert_eq!(pool.token_amount[4], 40);
    assert_eq!(pool.deposit_base(7, 3), Ok(10));
    assert_eq!(pool.sol_amount, 10);
    assert_eq!(pool.withdraw_base(10, 4), Ok(6));
    assert_eq!(pool.sol_amount, 6);
    assert_eq!(pool.withdraw_base(6, 6), Err(DiceError::ExceedAmount));
}
