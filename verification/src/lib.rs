//! Escrow-based atomic swap: the protocol core.
//!
//! A maker opens an escrow by depositing one asset into a vault that only the
//! escrow record controls; a taker settles it by paying the asset the maker
//! asked for. This crate decides: it checks every account it is shown, derives
//! and verifies the record's identity, and hands out the ordered list of
//! actions that make up each transition. Performing those actions against the
//! ledger is the caller's part.

pub mod account;
pub mod action;
pub mod address;
pub mod bytes;
pub mod custody;
pub mod derivation;
pub mod error;
pub mod instructions;
pub mod state;
pub mod validators;

use vstd::prelude::*;
use vstd::slice::slice_subrange;
use crate::custody::custody_amount;
use crate::derivation::lemma_derived_verifies;
use crate::instructions::make::{make_arity, open_checked, open_plan, open_record, open_signer};
use crate::instructions::take::{
    record_authentic, settle_plan, settle_signer, settle_step, take_accounts_checked,
    take_arity, vault_readable,
};
use crate::state::{lemma_encoding_fields, stored_bump};

pub use crate::account::Account;
pub use crate::action::{Action, Awaiting, RecordSigner, Step};
pub use crate::address::Address;
pub use crate::error::EscrowError;
pub use crate::instructions::make::{Make, MakeAccounts, MakeInstructionData};
pub use crate::instructions::take::{Take, TakeAccounts, TakeEvent};
pub use crate::state::Escrow;
pub use crate::validators::{AssociatedTokenAccount, MintInterface, ProgramAccount, SignerAccount};

verus! {

/// The checked Open instruction that `accounts`, the decoded parameters and
/// the bump make up.
pub open spec fn make_of<'a>(
    program: Address,
    accounts: Seq<Account>,
    instruction_data: MakeInstructionData,
    bump: u8,
) -> Make<'a> {
    Make {
        accounts: MakeAccounts {
            maker: &accounts[0],
            escrow: &accounts[1],
            mint_a: &accounts[2],
            mint_b: &accounts[3],
            maker_ata_a: &accounts[4],
            vault: &accounts[5],
            system_program: &accounts[6],
            token_program: &accounts[7],
        },
        instruction_data,
        bump,
        program_id: program,
    }
}

/// The checked Settle instruction that `accounts` make up.
pub open spec fn take_of<'a>(program: Address, accounts: Seq<Account>) -> Take<'a> {
    Take {
        accounts: TakeAccounts {
            taker: &accounts[0],
            maker: &accounts[1],
            escrow: &accounts[2],
            mint_a: &accounts[3],
            mint_b: &accounts[4],
            vault: &accounts[5],
            taker_ata_a: &accounts[6],
            taker_ata_b: &accounts[7],
            maker_ata_b: &accounts[8],
            system_program: &accounts[9],
            token_program: &accounts[10],
        },
        program_id: program,
    }
}

/// What an instruction leads to: the first byte of `data` selects the
/// transition, 0 to open and 1 to settle, and the rest are its parameters.
/// Opening is complete in one step. Settling takes its first step, which
/// authenticates the record and asks for the taker's receiving account.
/// Empty data and any other first byte are malformed.
pub open spec fn dispatched(program: Address, accounts: Seq<Account>, data: Seq<u8>) -> Result<
    (Seq<Action>, Awaiting),
    EscrowError,
> {
    if data.len() == 0 {
        Err(EscrowError::InvalidInstructionData)
    } else if data[0] == 0 {
        match open_checked(program@, accounts, data.subrange(1, data.len() as int)) {
            Err(e) => Err(e),
            Ok((d, bump)) => Ok((open_plan(&make_of(program, accounts, d, bump)), Awaiting::Nothing)),
        }
    } else if data[0] == 1 {
        match take_accounts_checked(program@, accounts) {
            Err(e) => Err(e),
            Ok(_) => settle_step(&take_of(program, accounts), &TakeEvent::Begin),
        }
    } else {
        Err(EscrowError::InvalidInstructionData)
    }
}

/// Checks an instruction and hands out its first step. An Open instruction
/// is complete with that step. A Settle instruction goes on through
/// [`Take::process`] with what the step is waiting for.
pub fn process_instructions(program_id: &Address, accounts: &[Account], instruction_data: &[u8]) -> (r:
    Result<Step, EscrowError>)
    ensures
        match r {
            Ok(step) => dispatched(*program_id, accounts@, instruction_data@) == Ok::<
                (Seq<Action>, Awaiting),
                EscrowError,
            >((step.actions@, step.awaiting)),
            Err(e) => dispatched(*program_id, accounts@, instruction_data@) == Err::<
                (Seq<Action>, Awaiting),
                EscrowError,
            >(e),
        },
{
    if instruction_data.len() == 0 {
        return Err(EscrowError::InvalidInstructionData);
    }
    let discriminator = instruction_data[0];
    if discriminator == Make::DISCRIMINATOR {
        let data = slice_subrange(instruction_data, 1, instruction_data.len());
        match Make::try_from(program_id, accounts, data) {
            Ok(make) => {
                let actions = make.process();
                assert(make == make_of(*program_id, accounts@, make.instruction_data, make.bump));
                Ok(Step { actions, awaiting: Awaiting::Nothing })
            },
            Err(e) => Err(e),
        }
    } else if discriminator == Take::DISCRIMINATOR {
        match Take::try_from(program_id, accounts) {
            Ok(take) => {
                assert(take == take_of(*program_id, accounts@));
                take.process(&TakeEvent::Begin)
            },
            Err(e) => Err(e),
        }
    } else {
        Err(EscrowError::InvalidInstructionData)
    }
}

/// A list of accounts that is too short for its transition is refused as
/// such, before anything else is looked at and with no action handed out.
pub proof fn lemma_short_list_is_refused(program: Address, accounts: Seq<Account>, data: Seq<u8>)
    requires
        data.len() > 0,
        (data[0] == 0 && accounts.len() < make_arity()) || (data[0] == 1 && accounts.len()
            < take_arity()),
    ensures
        dispatched(program, accounts, data) == Err::<(Seq<Action>, Awaiting), EscrowError>(
            EscrowError::NotEnoughAccountKeys,
        ),
{
}

/// What Open stores, Settle accepts and pays out. Take an accepted Open
/// instruction and a settlement on the same record slot for the same maker,
/// whose slot holds the record as Open stored it and whose vault holds the
/// deposit. Then the record is authentic, it signs with the seeds it was
/// created with, and the swap moves the deposit to the taker and the amount
/// that the maker asked for to the maker.
pub proof fn lemma_open_then_settle(m: &Make, t: &Take)
    requires
        m.well_formed(),
        t.program_id == m.program_id,
        t.accounts.escrow.address == m.accounts.escrow.address,
        t.accounts.maker.address == m.accounts.maker.address,
        t.accounts.vault.address == m.accounts.vault.address,
        t.accounts.escrow.data@ == open_record(m).encoding(),
        vault_readable(t),
        custody_amount(t.accounts.vault.data@) == m.instruction_data.amount,
    ensures
        record_authentic(t),
        settle_signer(t) == open_signer(m),
        settle_plan(t)[0] == (Action::Transfer {
            from: m.accounts.vault.address,
            to: t.accounts.taker_ata_a.address,
            authority: m.accounts.escrow.address,
            amount: m.instruction_data.amount,
            signer: Some(open_signer(m)),
        }),
        settle_plan(t)[2] == (Action::Transfer {
            from: t.accounts.taker_ata_b.address,
            to: t.accounts.maker_ata_b.address,
            authority: t.accounts.taker.address,
            amount: m.instruction_data.receive,
            signer: None,
        }),
{
    let record = open_record(m);
    lemma_encoding_fields(record);
    lemma_derived_verifies(m.accounts.maker.address@, m.instruction_data.seed, m.program_id@);
    assert(stored_bump(record.encoding()) == m.bump) by {
        let b: [u8; 1] = [m.bump];
        assert(b@ =~= seq![m.bump]);
        assert(record.bump@[0] == m.bump);
    }
}

} // verus!
