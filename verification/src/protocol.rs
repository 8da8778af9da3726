use vstd::prelude::*;

use crate::account::{GlobalPool, Pubkey, UserPool};
use crate::account::spec_register;
use crate::constants::{INIT_DEPOSIT_AMOUNT, MAX_TOKEN};
use crate::error::DiceError;

verus! {

/// What a transfer moves: base currency, or one unit-kind of a registered
/// asset.
#[derive(Clone, Copy, Debug, PartialEq, Eq, Structural)]
pub enum TransferKind {
    Sol,
    Token(Pubkey),
}

/// Who signs the fund movement: the participant themselves for deposits, or
/// the delegated capability of a custody vault (participant identity plus the
/// host-supplied bump of the derived address) for withdrawals.
#[derive(Clone, Copy, Debug, PartialEq, Eq, Structural)]
pub enum TransferAuthority {
    Signer(Pubkey),
    VaultCapability { participant: Pubkey, bump: u8 },
}

/// One fund-movement request handed to the custody-transfer collaborator.
/// The ledger only issues these; moving the funds, and aborting the whole
/// request if the move fails, is the host's side of the bargain.
#[derive(Clone, Copy, Debug, PartialEq, Eq, Structural)]
pub struct TransferRequest {
    pub from: Pubkey,
    pub to: Pubkey,
    pub kind: TransferKind,
    pub amount: u64,
    pub authority: TransferAuthority,
}

/// Set up the registry: an empty whitelist administered by `admin`, together
/// with the fixed seeding deposit from the administrator into the game vault.
pub fn initialize(admin: Pubkey, game_vault: Pubkey) -> (r: (GlobalPool, TransferRequest))
    ensures
        r.0.wf(),
        r.0.admin == admin,
        r.0.token_count == 0,
        r.1 == (TransferRequest {
            from: admin,
            to: game_vault,
            kind: TransferKind::Sol,
            amount: INIT_DEPOSIT_AMOUNT,
            authority: TransferAuthority::Signer(admin),
        }),
{
    let pool = GlobalPool {
        admin,
        token_address: crate::account::filled_u64(0),
        token_count: 0,
    };
    let request = TransferRequest {
        from: admin,
        to: game_vault,
        kind: TransferKind::Sol,
        amount: INIT_DEPOSIT_AMOUNT,
        authority: TransferAuthority::Signer(admin),
    };
    (pool, request)
}

/// Top up the shared game vault with base currency from the administrator.
/// Pure fund movement: no record changes.
pub fn init_sol_pool(admin: Pubkey, game_vault: Pubkey, deposit_amount: u64) -> (r:
    TransferRequest)
    ensures
        r == (TransferRequest {
            from: admin,
            to: game_vault,
            kind: TransferKind::Sol,
            amount: deposit_amount,
            authority: TransferAuthority::Signer(admin),
        }),
{
    TransferRequest {
        from: admin,
        to: game_vault,
        kind: TransferKind::Sol,
        amount: deposit_amount,
        authority: TransferAuthority::Signer(admin),
    }
}

/// Register `token_mint` on the whitelist and seed the vault's token account
/// with `token_amount` from the administrator's. The registry step follows
/// `spec_register` exactly: only the administrator may register, a listed
/// asset is a no-op, a full whitelist rejects a new one, and any failure
/// leaves the registry untouched and moves no funds.
pub fn init_token_pool(
    global_authority: &mut GlobalPool,
    caller: Pubkey,
    token_mint: Pubkey,
    admin_token_account: Pubkey,
    vault_token_account: Pubkey,
    token_amount: u64,
) -> (r: Result<TransferRequest, DiceError>)
    requires
        old(global_authority).wf(),
    ensures
        final(global_authority).wf(),
        final(global_authority).admin == old(global_authority).admin,
        final(global_authority).token_count >= old(global_authority).token_count,
        final(global_authority).spec_assets() == spec_register(
            old(global_authority).spec_assets(),
            old(global_authority).admin,
            caller,
            token_mint,
        ).0,
        r is Ok <==> spec_register(
            old(global_authority).spec_assets(),
            old(global_authority).admin,
            caller,
            token_mint,
        ).1 is Ok,
        r matches Err(e) ==> Err::<u64, DiceError>(e) == spec_register(
            old(global_authority).spec_assets(),
            old(global_authority).admin,
            caller,
            token_mint,
        ).1,
        r is Err ==> *final(global_authority) == *old(global_authority),
        r is Ok ==> r == Ok::<TransferRequest, DiceError>(TransferRequest {
            from: admin_token_account,
            to: vault_token_account,
            kind: TransferKind::Token(token_mint),
            amount: token_amount,
            authority: TransferAuthority::Signer(caller),
        }),
{
    match global_authority.register(caller, token_mint) {
        Ok(_) => Ok(TransferRequest {
            from: admin_token_account,
            to: vault_token_account,
            kind: TransferKind::Token(token_mint),
            amount: token_amount,
            authority: TransferAuthority::Signer(caller),
        }),
        Err(e) => Err(e),
    }
}

/// Open a participant record for `user` holding the fixed initial deposit,
/// together with the matching base-currency transfer into the participant's
/// escrow vault.
pub fn init_user_pool(user: Pubkey, escrow_vault: Pubkey) -> (r: (UserPool, TransferRequest))
    ensures
        r.0.wf(),
        r.0.user_address == user,
        r.0.sol_amount == INIT_DEPOSIT_AMOUNT,
        forall|i: int| 0 <= i < MAX_TOKEN as int ==> r.0.token_address@[i] == 0,
        forall|i: int| 0 <= i < MAX_TOKEN as int ==> r.0.token_amount@[i] == 0,
        r.1 == (TransferRequest {
            from: user,
            to: escrow_vault,
            kind: TransferKind::Sol,
            amount: INIT_DEPOSIT_AMOUNT,
            authority: TransferAuthority::Signer(user),
        }),
{
    let pool = UserPool::initialize(user, INIT_DEPOSIT_AMOUNT);
    let request = TransferRequest {
        from: user,
        to: escrow_vault,
        kind: TransferKind::Sol,
        amount: INIT_DEPOSIT_AMOUNT,
        authority: TransferAuthority::Signer(user),
    };
    (pool, request)
}

/// Deposit base currency: the record's balance becomes the claimed prior
/// balance plus the deposit, and the matching transfer from the participant
/// into their escrow vault is issued. Fails only on overflow, changing
/// nothing and moving nothing.
pub fn deposit_user_sol(
    user_pool: &mut UserPool,
    escrow_vault: Pubkey,
    ex_amount: u64,
    deposit_amount: u64,
) -> (r: Result<TransferRequest, DiceError>)
    requires
        old(user_pool).wf(),
    ensures
        final(user_pool).wf(),
        r is Ok <==> ex_amount + deposit_amount <= u64::MAX,
        ex_amount + deposit_amount <= u64::MAX ==> {
            &&& final(user_pool).sol_amount == ex_amount + deposit_amount
            &&& final(user_pool).user_address == old(user_pool).user_address
            &&& final(user_pool).token_address == old(user_pool).token_address
            &&& final(user_pool).token_amount == old(user_pool).token_amount
            &&& r == Ok::<TransferRequest, DiceError>(TransferRequest {
                from: old(user_pool).user_address,
                to: escrow_vault,
                kind: TransferKind::Sol,
                amount: deposit_amount,
                authority: TransferAuthority::Signer(old(user_pool).user_address),
            })
        },
        ex_amount + deposit_amount > u64::MAX ==> r == Err::<TransferRequest, DiceError>(
            DiceError::AmountOverflow,
        ) && *final(user_pool) == *old(user_pool),
{
    let owner: Pubkey = user_pool.user_address;
    match user_pool.deposit_base(ex_amount, deposit_amount) {
        Ok(_) => Ok(TransferRequest {
            from: owner,
            to: escrow_vault,
            kind: TransferKind::Sol,
            amount: deposit_amount,
            authority: TransferAuthority::Signer(owner),
        }),
        Err(e) => Err(e),
    }
}

/// Deposit `deposit_amount` of `token_mint`. The asset must already be on
/// the whitelist; its registry slot is the record slot written, keeping the
/// participant's table parallel to the registry. On success the transfer
/// from the participant's token account into the vault's is issued; any
/// failure leaves the record untouched and moves nothing.
pub fn desposit_user_token(
    user_pool: &mut UserPool,
    global_authority: &GlobalPool,
    token_mint: Pubkey,
    user_token_account: Pubkey,
    vault_token_account: Pubkey,
    ex_amount: u64,
    deposit_amount: u64,
) -> (r: Result<TransferRequest, DiceError>)
    requires
        old(user_pool).wf(),
        global_authority.wf(),
    ensures
        final(user_pool).wf(),
        r is Ok <==> global_authority.spec_registered(token_mint) && ex_amount + deposit_amount
            <= u64::MAX,
        !global_authority.spec_registered(token_mint) ==> r == Err::<TransferRequest, DiceError>(
            DiceError::NotRegisteredToken,
        ) && *final(user_pool) == *old(user_pool),
        global_authority.spec_registered(token_mint) && ex_amount + deposit_amount > u64::MAX
            ==> r == Err::<TransferRequest, DiceError>(DiceError::AmountOverflow)
            && *final(user_pool) == *old(user_pool),
        r is Ok ==> {
            let index = global_authority.spec_index_of(token_mint);
            &&& final(user_pool).token_address@ == old(user_pool).token_address@.update(
                index,
                token_mint,
            )
            &&& final(user_pool).token_amount@ == old(user_pool).token_amount@.update(
                index,
                (ex_amount + deposit_amount) as u64,
            )
            &&& final(user_pool).sol_amount == old(user_pool).sol_amount
            &&& final(user_pool).user_address == old(user_pool).user_address
            &&& r == Ok::<TransferRequest, DiceError>(TransferRequest {
                from: user_token_account,
                to: vault_token_account,
                kind: TransferKind::Token(token_mint),
                amount: deposit_amount,
                authority: TransferAuthority::Signer(old(user_pool).user_address),
            })
        },
{
    let owner: Pubkey = user_pool.user_address;
    match global_authority.index_of(token_mint) {
        None => Err(DiceError::NotRegisteredToken),
        Some(index) => {
            match user_pool.deposit_asset(index, token_mint, ex_amount, deposit_amount) {
                Ok(_) => Ok(TransferRequest {
                    from: user_token_account,
                    to: vault_token_account,
                    kind: TransferKind::Token(token_mint),
                    amount: deposit_amount,
                    authority: TransferAuthority::Signer(owner),
                }),
                Err(e) => Err(e),
            }
        },
    }
}

/// Withdraw base currency. Succeeds exactly when the claimed prior balance
/// strictly exceeds the amount; the record keeps the difference and the
/// transfer out of the escrow vault is issued under the vault's delegated
/// capability. Failure leaves the record untouched and moves nothing.
pub fn withdraw_user_sol(
    user_pool: &mut UserPool,
    escrow_vault: Pubkey,
    ex_amount: u64,
    withdraw_amount: u64,
    bump: u8,
) -> (r: Result<TransferRequest, DiceError>)
    requires
        old(user_pool).wf(),
    ensures
        final(user_pool).wf(),
        r is Ok <==> ex_amount > withdraw_amount,
        ex_amount > withdraw_amount ==> {
            &&& final(user_pool).sol_amount == ex_amount - withdraw_amount
            &&& final(user_pool).user_address == old(user_pool).user_address
            &&& final(user_pool).token_address == old(user_pool).token_address
            &&& final(user_pool).token_amount == old(user_pool).token_amount
            &&& r == Ok::<TransferRequest, DiceError>(TransferRequest {
                from: escrow_vault,
                to: old(user_pool).user_address,
                kind: TransferKind::Sol,
                amount: withdraw_amount,
                authority: TransferAuthority::VaultCapability {
                    participant: old(user_pool).user_address,
                    bump,
                },
            })
        },
        ex_amount <= withdraw_amount ==> r == Err::<TransferRequest, DiceError>(
            DiceError::ExceedAmount,
        ) && *final(user_pool) == *old(user_pool),
{
    let owner: Pubkey = user_pool.user_address;
    match user_pool.withdraw_base(ex_amount, withdraw_amount) {
        Ok(_) => Ok(TransferRequest {
            from: escrow_vault,
            to: owner,
            kind: TransferKind::Sol,
            amount: withdraw_amount,
            authority: TransferAuthority::VaultCapability { participant: owner, bump },
        }),
        Err(e) => Err(e),
    }
}

/// Withdraw `withdraw_amount` of `token_mint`. The asset must be on the
/// whitelist (checked first, whatever the balances say), and the claimed
/// prior balance must strictly exceed the amount. On success the registry
/// slot of the record is decremented and the transfer from the vault's token
/// account back to the participant's is issued under the vault's delegated
/// capability; any failure leaves the record untouched and moves nothing.
pub fn withdraw_user_token(
    user_pool: &mut UserPool,
    global_authority: &GlobalPool,
    token_mint: Pubkey,
    user_token_account: Pubkey,
    vault_token_account: Pubkey,
    ex_amount: u64,
    withdraw_amount: u64,
    bump: u8,
) -> (r: Result<TransferRequest, DiceError>)
    requires
        old(user_pool).wf(),
        global_authority.wf(),
    ensures
        final(user_pool).wf(),
        r is Ok <==> global_authority.spec_registered(token_mint) && ex_amount > withdraw_amount,
        !global_authority.spec_registered(token_mint) ==> r == Err::<TransferRequest, DiceError>(
            DiceError::NotRegisteredToken,
        ) && *final(user_pool) == *old(user_pool),
        global_authority.spec_registered(token_mint) && ex_amount <= withdraw_amount ==> r == Err::<
            TransferRequest,
            DiceError,
        >(DiceError::ExceedAmount) && *final(user_pool) == *old(user_pool),
        r is Ok ==> {
            let index = global_authority.spec_index_of(token_mint);
            &&& final(user_pool).token_address@ == old(user_pool).token_address@.update(
                index,
                token_mint,
            )
            &&& final(user_pool).token_amount@ == old(user_pool).token_amount@.update(
                index,
                (ex_amount - withdraw_amount) as u64,
            )
            &&& final(user_pool).sol_amount == old(user_pool).sol_amount
            &&& final(user_pool).user_address == old(user_pool).user_address
            &&& r == Ok::<TransferRequest, DiceError>(TransferRequest {
                from: vault_token_account,
                to: user_token_account,
                kind: TransferKind::Token(token_mint),
                amount: withdraw_amount,
                authority: TransferAuthority::VaultCapability {
                    participant: old(user_pool).user_address,
                    bump,
                },
            })
        },
{
    let owner: Pubkey = user_pool.user_address;
    match global_authority.index_of(token_mint) {
        None => Err(DiceError::NotRegisteredToken),
        Some(index) => {
            match user_pool.withdraw_asset(index, token_mint, ex_amount, withdraw_amount) {
                Ok(_) => Ok(TransferRequest {
                    from: vault_token_account,
                    to: user_token_account,
                    kind: TransferKind::Token(token_mint),
                    amount: withdraw_amount,
                    authority: TransferAuthority::VaultCapability { participant: owner, bump },
                }),
                Err(e) => Err(e),
            }
        },
    }
}

} // verus!
