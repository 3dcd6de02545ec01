//! The checks that every account passes before a transition trusts it.
//!
//! Each check looks at one account, changes nothing, and fails at the first
//! thing that is wrong.

use vstd::prelude::*;
use crate::account::Account;
use crate::action::Action;
use crate::address::Address;
use crate::custody::{
    custody_authority, custody_len, custody_mint, custody_service, read_authority, read_mint,
    token_account_len, token_program_id,
};
use crate::error::EscrowError;

verus! {

/// What the signer check says of `account`.
pub open spec fn signer_checked(account: &Account) -> Result<(), EscrowError> {
    if account.is_signer {
        Ok(())
    } else {
        Err(EscrowError::Unauthorized)
    }
}

/// What the asset-type check says of `account`.
pub open spec fn mint_checked(account: &Account) -> Result<(), EscrowError> {
    if account.owner@ == custody_service() {
        Ok(())
    } else {
        Err(EscrowError::InvalidAccountOwner)
    }
}

/// Whether `ata` is a custody account for asset `mint` under `authority`,
/// kept by the custody service that the instruction names.
pub open spec fn is_custody_account(
    ata: &Account,
    authority: Seq<u8>,
    mint: Seq<u8>,
    token_program: Seq<u8>,
) -> bool {
    &&& ata.owner@ == token_program
    &&& ata.data@.len() == custody_len()
    &&& ata.owner@ == custody_service()
    &&& custody_mint(ata.data@) == mint
    &&& custody_authority(ata.data@) == authority
}

/// What the custody-account check says of `ata`.
pub open spec fn custody_checked(
    ata: &Account,
    authority: Seq<u8>,
    mint: Seq<u8>,
    token_program: Seq<u8>,
) -> Result<(), EscrowError> {
    if ata.owner@ != token_program {
        Err(EscrowError::InvalidAccountOwner)
    } else if is_custody_account(ata, authority, mint, token_program) {
        Ok(())
    } else {
        Err(EscrowError::InvalidAccountData)
    }
}

/// What the program-record check says of `account` under `program`.
pub open spec fn record_checked(account: &Account, program: Seq<u8>) -> Result<(), EscrowError> {
    if account.owner@ != program {
        Err(EscrowError::InvalidAccountOwner)
    } else if account.is_signer {
        Err(EscrowError::InvalidInstructionData)
    } else if account.data@.len() == 0 {
        Err(EscrowError::InvalidAccountData)
    } else {
        Ok(())
    }
}

/// The request that provisions `ata` for asset `mint` under `authority`.
pub open spec fn provision_request(
    ata: &Account,
    mint: &Account,
    authority: &Account,
    payer: &Account,
    system_program: &Account,
    token_program: &Account,
) -> Action {
    Action::ProvisionAccount {
        payer: payer.address,
        account: ata.address,
        wallet: authority.address,
        mint: mint.address,
        system_program: system_program.address,
        token_program: token_program.address,
    }
}

/// Accounts that must have signed.
#[derive(Clone, Copy, Debug)]
pub struct SignerAccount;

impl SignerAccount {
    /// Passes exactly if `account` signed the instruction; otherwise the
    /// caller is not authorized.
    pub fn check(account: &Account) -> (r: Result<(), EscrowError>)
        ensures
            r == signer_checked(account),
    {
        if !account.is_signer {
            return Err(EscrowError::Unauthorized);
        }
        Ok(())
    }
}

/// Accounts that name an asset type.
#[derive(Clone, Copy, Debug)]
pub struct MintInterface;

impl MintInterface {
    /// Passes exactly if the custody service owns `account`.
    pub fn check(account: &Account) -> (r: Result<(), EscrowError>)
        ensures
            r == mint_checked(account),
    {
        let service = token_program_id();
        if !account.owned_by(&service) {
            return Err(EscrowError::InvalidAccountOwner);
        }
        Ok(())
    }
}

/// Custody accounts: a balance of one asset under one authority.
#[derive(Clone, Copy, Debug)]
pub struct AssociatedTokenAccount;

impl AssociatedTokenAccount {
    /// Passes exactly if `ata` is a custody account for the asset `mint`
    /// under `authority`. An account that `token_program` does not own has
    /// the wrong owner; one of the wrong size, one that the custody service
    /// itself does not own, and one that names another asset or another
    /// authority has the wrong data.
    pub fn check(ata: &Account, authority: &Account, mint: &Account, token_program: &Account) -> (r:
        Result<(), EscrowError>)
        ensures
            r == custody_checked(ata, authority.address@, mint.address@, token_program.address@),
    {
        if !ata.owned_by(&token_program.address) {
            return Err(EscrowError::InvalidAccountOwner);
        }
        if ata.data_len() != token_account_len() {
            return Err(EscrowError::InvalidAccountData);
        }
        let service = token_program_id();
        if !ata.owned_by(&service) {
            return Err(EscrowError::InvalidAccountData);
        }
        let data = ata.data.as_slice();
        if !read_mint(data).same(&mint.address) {
            return Err(EscrowError::InvalidAccountData);
        }
        if !read_authority(data).same(&authority.address) {
            return Err(EscrowError::InvalidAccountData);
        }
        Ok(())
    }

    /// The request that creates `ata` for the asset `mint` under `authority`
    /// if it does not exist yet, paid by `payer`. The provisioning service
    /// leaves an existing account alone, so once the request is performed the
    /// account must still pass [`AssociatedTokenAccount::check`]: an account
    /// of the wrong shape is never taken on trust.
    pub fn init_if_needed(
        ata: &Account,
        mint: &Account,
        authority: &Account,
        payer: &Account,
        system_program: &Account,
        token_program: &Account,
    ) -> (r: Action)
        ensures
            r == provision_request(ata, mint, authority, payer, system_program, token_program),
    {
        Action::ProvisionAccount {
            payer: payer.address,
            account: ata.address,
            wallet: authority.address,
            mint: mint.address,
            system_program: system_program.address,
            token_program: token_program.address,
        }
    }
}

/// Accounts that hold a record of this program.
#[derive(Clone, Copy, Debug)]
pub struct ProgramAccount;

impl ProgramAccount {
    /// Passes exactly if `account` is owned by `program`, did not sign and
    /// holds data. In that order: a foreign owner is reported first, then
    /// a signature, then missing data.
    pub fn check(account: &Account, program: &Address) -> (r: Result<(), EscrowError>)
        ensures
            r == record_checked(account, program@),
    {
        if !account.owned_by(program) {
            return Err(EscrowError::InvalidAccountOwner);
        }
        if account.is_signer {
            return Err(EscrowError::InvalidInstructionData);
        }
        if account.data_len() == 0 {
            return Err(EscrowError::InvalidAccountData);
        }
        Ok(())
    }

    /// The request that destroys the record `account` and hands its balance
    /// to `destination`.
    pub fn close(account: &Account, destination: &Account) -> (r: Action)
        ensures
            r == (Action::CloseRecord { record: account.address, destination: destination.address }),
    {
        Action::CloseRecord { record: account.address, destination: destination.address }
    }
}

} // verus!
