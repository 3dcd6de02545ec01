//! Opening an escrow.
//!
//! The maker names a seed, the amount to receive and the amount to deposit.
//! The record slot must be the identity that the maker and the seed derive.
//! Once everything has been checked, the transition hands out its actions:
//! allocate the record, fill it, create the vault if it is missing, and move
//! the deposit into the vault.

use vstd::prelude::*;
use crate::account::Account;
use crate::action::{Action, RecordSigner};
use crate::address::Address;
use crate::bytes::{le_u64, read_u64};
use crate::derivation::derived;
use crate::error::EscrowError;
use crate::state::Escrow;
use crate::validators::{
    custody_checked, mint_checked, signer_checked, AssociatedTokenAccount, MintInterface,
    SignerAccount,
};

verus! {

/// The parameters of an Open instruction.
#[derive(Clone, Copy, Debug, PartialEq, Eq)]
pub struct MakeInstructionData {
    /// Tells the maker's escrows apart; part of the record's identity.
    pub seed: u64,
    /// How much of the second asset the maker asks for.
    pub receive: u64,
    /// How much of the first asset the maker deposits.
    pub amount: u64,
}

/// What 24 parameter bytes spell: three little-endian integers in the order
/// seed, amount to receive, amount to deposit. Any other length, and an
/// amount of zero, is malformed.
pub open spec fn make_data_decoded(data: Seq<u8>) -> Result<MakeInstructionData, EscrowError> {
    if data.len() != 24 {
        Err(EscrowError::InvalidInstructionData)
    } else if le_u64(data.subrange(8, 16)) == 0 || le_u64(data.subrange(16, 24)) == 0 {
        Err(EscrowError::InvalidInstructionData)
    } else {
        Ok(
            MakeInstructionData {
                seed: le_u64(data.subrange(0, 8)),
                receive: le_u64(data.subrange(8, 16)),
                amount: le_u64(data.subrange(16, 24)),
            },
        )
    }
}

impl MakeInstructionData {
    /// Decodes the parameter block of an Open instruction.
    pub fn try_from(data: &[u8]) -> (r: Result<MakeInstructionData, EscrowError>)
        ensures
            r == make_data_decoded(data@),
    {
        if data.len() != 24 {
            return Err(EscrowError::InvalidInstructionData);
        }
        let seed = read_u64(data, 0);
        let receive = read_u64(data, 8);
        let amount = read_u64(data, 16);
        if receive == 0 || amount == 0 {
            return Err(EscrowError::InvalidInstructionData);
        }
        Ok(MakeInstructionData { seed, receive, amount })
    }
}

/// The accounts of an Open instruction, in the order of the instruction.
#[derive(Clone, Copy, Debug)]
pub struct MakeAccounts<'a> {
    /// The maker; must have signed.
    pub maker: &'a Account,
    /// The slot of the escrow record.
    pub escrow: &'a Account,
    /// The asset that is deposited.
    pub mint_a: &'a Account,
    /// The asset that is asked for.
    pub mint_b: &'a Account,
    /// The maker's custody account for the deposited asset.
    pub maker_ata_a: &'a Account,
    /// The slot of the vault.
    pub vault: &'a Account,
    /// The account-provisioning service.
    pub system_program: &'a Account,
    /// The custody service.
    pub token_program: &'a Account,
}

/// Number of accounts of an Open instruction.
pub open spec fn make_arity() -> nat {
    8
}

/// Whether the accounts of an Open instruction pass their checks, and if
/// not, the first failure: the number of accounts, the maker's signature,
/// the two assets, the maker's custody account.
pub open spec fn make_accounts_checked(accounts: Seq<Account>) -> Result<(), EscrowError> {
    if accounts.len() != make_arity() {
        Err(EscrowError::NotEnoughAccountKeys)
    } else if signer_checked(&accounts[0]) is Err {
        signer_checked(&accounts[0])
    } else if mint_checked(&accounts[2]) is Err {
        mint_checked(&accounts[2])
    } else if mint_checked(&accounts[3]) is Err {
        mint_checked(&accounts[3])
    } else {
        custody_checked(
            &accounts[4],
            accounts[0].address@,
            accounts[2].address@,
            accounts[7].address@,
        )
    }
}

impl<'a> MakeAccounts<'a> {
    /// Whether these are the entries of `accounts`, in order.
    pub open spec fn matches(&self, accounts: Seq<Account>) -> bool {
        &&& accounts.len() == make_arity()
        &&& *self.maker == accounts[0]
        &&& *self.escrow == accounts[1]
        &&& *self.mint_a == accounts[2]
        &&& *self.mint_b == accounts[3]
        &&& *self.maker_ata_a == accounts[4]
        &&& *self.vault == accounts[5]
        &&& *self.system_program == accounts[6]
        &&& *self.token_program == accounts[7]
    }

    /// Takes the accounts of an Open instruction by role and checks each.
    pub fn try_from(accounts: &'a [Account]) -> (r: Result<MakeAccounts<'a>, EscrowError>)
        ensures
            match r {
                Ok(a) => make_accounts_checked(accounts@) is Ok && a.matches(accounts@),
                Err(e) => make_accounts_checked(accounts@) == Err::<(), EscrowError>(e),
            },
    {
        if accounts.len() != 8 {
            return Err(EscrowError::NotEnoughAccountKeys);
        }
        let maker = &accounts[0];
        let escrow = &accounts[1];
        let mint_a = &accounts[2];
        let mint_b = &accounts[3];
        let maker_ata_a = &accounts[4];
        let vault = &accounts[5];
        let system_program = &accounts[6];
        let token_program = &accounts[7];
        match SignerAccount::check(maker) {
            Err(e) => {
                return Err(e);
            },
            Ok(_) => {},
        }
        match MintInterface::check(mint_a) {
            Err(e) => {
                return Err(e);
            },
            Ok(_) => {},
        }
        match MintInterface::check(mint_b) {
            Err(e) => {
                return Err(e);
            },
            Ok(_) => {},
        }
        match AssociatedTokenAccount::check(maker_ata_a, maker, mint_a, token_program) {
            Err(e) => {
                return Err(e);
            },
            Ok(_) => {},
        }
        Ok(
            MakeAccounts {
                maker,
                escrow,
                mint_a,
                mint_b,
                maker_ata_a,
                vault,
                system_program,
                token_program,
            },
        )
    }
}

/// A checked Open instruction, ready to be carried out.
#[derive(Clone, Copy, Debug)]
pub struct Make<'a> {
    /// The accounts, each checked.
    pub accounts: MakeAccounts<'a>,
    /// The decoded parameters.
    pub instruction_data: MakeInstructionData,
    /// The bump of the record's derived identity.
    pub bump: u8,
    /// The program that will own the record.
    pub program_id: Address,
}

/// Whether an Open instruction is accepted, and with which parameters and
/// bump. The accounts are checked first, then the parameter bytes; last, the
/// record slot must be the identity that the maker and the seed derive under
/// `program`.
pub open spec fn open_checked(program: Seq<u8>, accounts: Seq<Account>, data: Seq<u8>) -> Result<
    (MakeInstructionData, u8),
    EscrowError,
> {
    match make_accounts_checked(accounts) {
        Err(e) => Err(e),
        Ok(_) => match make_data_decoded(data) {
            Err(e) => Err(e),
            Ok(d) => match derived(accounts[0].address@, d.seed, program) {
                Some((identity, bump)) => if identity == accounts[1].address@ {
                    Ok((d, bump))
                } else {
                    Err(EscrowError::InvalidInstructionData)
                },
                None => Err(EscrowError::InvalidInstructionData),
            },
        },
    }
}

/// The authority with which the record of `m` signs.
pub open spec fn open_signer(m: &Make) -> RecordSigner {
    RecordSigner { maker: m.accounts.maker.address, seed: m.instruction_data.seed, bump: m.bump }
}

/// The record that opening `m` stores.
pub open spec fn open_record(m: &Make) -> Escrow {
    Escrow {
        seed: m.instruction_data.seed,
        maker: m.accounts.maker.address,
        mint_a: m.accounts.mint_a.address,
        mint_b: m.accounts.mint_b.address,
        receive: m.instruction_data.receive,
        bump: [m.bump],
    }
}

/// The request that moves the deposit of `m` from the maker to the vault.
pub open spec fn open_deposit(m: &Make) -> Action {
    Action::Transfer {
        from: m.accounts.maker_ata_a.address,
        to: m.accounts.vault.address,
        authority: m.accounts.maker.address,
        amount: m.instruction_data.amount,
        signer: None,
    }
}

/// The request that creates the vault of `m`: a custody account for the
/// deposited asset under the authority of the record.
pub open spec fn open_vault(m: &Make) -> Action {
    Action::CreateVault {
        payer: m.accounts.maker.address,
        vault: m.accounts.vault.address,
        wallet: m.accounts.escrow.address,
        mint: m.accounts.mint_a.address,
        system_program: m.accounts.system_program.address,
        token_program: m.accounts.token_program.address,
    }
}

/// The actions of opening `m`, in order: allocate the record slot under the
/// record's own signature, store the record, create the vault unless it
/// holds data already, move the deposit.
pub open spec fn open_plan(m: &Make) -> Seq<Action> {
    let create = Action::CreateRecord {
        payer: m.accounts.maker.address,
        record: m.accounts.escrow.address,
        space: Escrow::LEN as u64,
        owner: m.program_id,
        signer: open_signer(m),
    };
    let write = Action::WriteRecord { record: m.accounts.escrow.address, contents: open_record(m) };
    if m.accounts.vault.data@.len() == 0 {
        seq![create, write, open_vault(m), open_deposit(m)]
    } else {
        seq![create, write, open_deposit(m)]
    }
}

impl<'a> Make<'a> {
    /// The first byte of an Open instruction.
    pub const DISCRIMINATOR: u8 = 0;

    /// Whether this is an instruction as [`Make::try_from`] accepts it: the
    /// amounts are not zero, and the record slot is the identity that the
    /// maker and the seed derive, at this bump.
    pub open spec fn well_formed(&self) -> bool {
        &&& self.instruction_data.receive != 0
        &&& self.instruction_data.amount != 0
        &&& derived(self.accounts.maker.address@, self.instruction_data.seed, self.program_id@)
            == Some((self.accounts.escrow.address@, self.bump))
    }

    /// Checks an Open instruction: its accounts, its parameter bytes, and
    /// that the record slot is the one that the maker and the seed derive.
    pub fn try_from(program: &Address, accounts: &'a [Account], data: &[u8]) -> (r: Result<
        Make<'a>,
        EscrowError,
    >)
        ensures
            match r {
                Ok(m) => open_checked(program@, accounts@, data@) == Ok::<
                    (MakeInstructionData, u8),
                    EscrowError,
                >((m.instruction_data, m.bump)) && m.accounts.matches(accounts@) && m.program_id
                    == *program && m.well_formed(),
                Err(e) => open_checked(program@, accounts@, data@) == Err::<
                    (MakeInstructionData, u8),
                    EscrowError,
                >(e),
            },
    {
        let accounts = match MakeAccounts::try_from(accounts) {
            Ok(a) => a,
            Err(e) => {
                return Err(e);
            },
        };
        let instruction_data = match MakeInstructionData::try_from(data) {
            Ok(d) => d,
            Err(e) => {
                return Err(e);
            },
        };
        match crate::derivation::derive(&accounts.maker.address, instruction_data.seed, program) {
            Some((identity, bump)) => {
                if !accounts.escrow.address.same(&identity) {
                    return Err(EscrowError::InvalidInstructionData);
                }
                Ok(Make { accounts, instruction_data, bump, program_id: *program })
            },
            None => Err(EscrowError::InvalidInstructionData),
        }
    }

    /// The actions that open the escrow, in the order in which the ledger
    /// must perform them.
    pub fn process(&self) -> (r: Vec<Action>)
        ensures
            r@ == open_plan(self),
    {
        let accounts = &self.accounts;
        let signer = RecordSigner {
            maker: accounts.maker.address,
            seed: self.instruction_data.seed,
            bump: self.bump,
        };
        let mut record = Escrow::zeroed();
        record.set_inner(
            self.instruction_data.seed,
            accounts.maker.address,
            accounts.mint_a.address,
            accounts.mint_b.address,
            self.instruction_data.receive,
            [self.bump],
        );
        let mut plan: Vec<Action> = Vec::new();
        plan.push(
            Action::CreateRecord {
                payer: accounts.maker.address,
                record: accounts.escrow.address,
                space: Escrow::LEN as u64,
                owner: self.program_id,
                signer,
            },
        );
        plan.push(Action::WriteRecord { record: accounts.escrow.address, contents: record });
        if accounts.vault.is_data_empty() {
            plan.push(
                Action::CreateVault {
                    payer: accounts.maker.address,
                    vault: accounts.vault.address,
                    wallet: accounts.escrow.address,
                    mint: accounts.mint_a.address,
                    system_program: accounts.system_program.address,
                    token_program: accounts.token_program.address,
                },
            );
        }
        plan.push(
            Action::Transfer {
                from: accounts.maker_ata_a.address,
                to: accounts.vault.address,
                authority: accounts.maker.address,
                amount: self.instruction_data.amount,
                signer: None,
            },
        );
        assert(plan@ =~= open_plan(self));
        plan
    }
}

/// A deposit of zero is never decoded, whatever the other parameters are.
pub proof fn lemma_zero_deposit_is_malformed(data: Seq<u8>)
    requires
        data.len() == 24 ==> le_u64(data.subrange(16, 24)) == 0,
    ensures
        make_data_decoded(data) == Err::<MakeInstructionData, EscrowError>(
            EscrowError::InvalidInstructionData,
        ),
{
}

/// With accounts that pass their checks, an Open instruction whose deposit
/// is zero is refused as malformed.
pub proof fn lemma_zero_deposit_is_refused(program: Seq<u8>, accounts: Seq<Account>, data: Seq<u8>)
    requires
        make_accounts_checked(accounts) is Ok,
        data.len() == 24 ==> le_u64(data.subrange(16, 24)) == 0,
    ensures
        open_checked(program, accounts, data) == Err::<(MakeInstructionData, u8), EscrowError>(
            EscrowError::InvalidInstructionData,
        ),
{
}

/// With accounts that pass their checks and a record slot that is the
/// identity derived from the maker and the seed, an Open instruction with
/// any seed and any amounts other than zero is accepted, with exactly the
/// parameters that its bytes spell.
pub proof fn lemma_well_formed_open_is_accepted(
    program: Seq<u8>,
    accounts: Seq<Account>,
    data: Seq<u8>,
)
    requires
        make_accounts_checked(accounts) is Ok,
        data.len() == 24,
        le_u64(data.subrange(8, 16)) != 0,
        le_u64(data.subrange(16, 24)) != 0,
        derived(accounts[0].address@, le_u64(data.subrange(0, 8)), program) matches Some(
            (identity, _),
        ) && identity == accounts[1].address@,
    ensures
        open_checked(program, accounts, data) matches Ok((d, bump)) && d.seed == le_u64(
            data.subrange(0, 8),
        ) && d.receive == le_u64(data.subrange(8, 16)) && d.amount == le_u64(
            data.subrange(16, 24),
        ) && derived(accounts[0].address@, d.seed, program) == Some((accounts[1].address@, bump)),
{
}

/// An Open instruction whose record slot is not the identity derived from
/// the maker and the seed is refused: where the accounts and the parameters
/// are in order, as malformed.
pub proof fn lemma_foreign_slot_is_refused(program: Seq<u8>, accounts: Seq<Account>, data: Seq<u8>)
    requires
        make_data_decoded(data) matches Ok(d) && !(derived(accounts[0].address@, d.seed, program)
            matches Some((identity, _)) && identity == accounts[1].address@),
    ensures
        open_checked(program, accounts, data) is Err,
        make_accounts_checked(accounts) is Ok ==> open_checked(program, accounts, data) == Err::<
            (MakeInstructionData, u8),
            EscrowError,
        >(EscrowError::InvalidInstructionData),
{
}

/// An Open instruction with a list of accounts of the wrong length is
/// refused for that reason, whatever else it holds.
pub proof fn lemma_open_needs_its_accounts(program: Seq<u8>, accounts: Seq<Account>, data: Seq<u8>)
    requires
        accounts.len() != make_arity(),
    ensures
        make_accounts_checked(accounts) == Err::<(), EscrowError>(
            EscrowError::NotEnoughAccountKeys,
        ),
        open_checked(program, accounts, data) == Err::<(MakeInstructionData, u8), EscrowError>(
            EscrowError::NotEnoughAccountKeys,
        ),
{
}

/// What opening stores and moves echoes the instruction: the record holds
/// the seed, the maker, the two assets and the amount asked for, and its
/// bump; the deposit is the last action and the only transfer, from the
/// maker's custody account into the vault, of exactly the amount named. A
/// vault is created only where the slot holds no data, and then for the
/// deposited asset under the authority of the record.
pub proof fn lemma_open_echoes_its_inputs(m: &Make)
    ensures
        open_plan(m).len() >= 3,
        open_plan(m)[1] == (Action::WriteRecord {
            record: m.accounts.escrow.address,
            contents: open_record(m),
        }),
        open_record(m).seed == m.instruction_data.seed,
        open_record(m).receive == m.instruction_data.receive,
        open_record(m).maker == m.accounts.maker.address,
        open_record(m).mint_a == m.accounts.mint_a.address,
        open_record(m).mint_b == m.accounts.mint_b.address,
        open_record(m).bump@ == seq![m.bump],
        open_plan(m).last() == (Action::Transfer {
            from: m.accounts.maker_ata_a.address,
            to: m.accounts.vault.address,
            authority: m.accounts.maker.address,
            amount: m.instruction_data.amount,
            signer: None,
        }),
        forall|i: int| 0 <= i < open_plan(m).len() - 1 ==> !(open_plan(m)[i] is Transfer),
        m.accounts.vault.data@.len() == 0 ==> open_plan(m)[2] == (Action::CreateVault {
            payer: m.accounts.maker.address,
            vault: m.accounts.vault.address,
            wallet: m.accounts.escrow.address,
            mint: m.accounts.mint_a.address,
            system_program: m.accounts.system_program.address,
            token_program: m.accounts.token_program.address,
        }),
        forall|i: int|
            0 <= i < open_plan(m).len() && open_plan(m)[i] is CreateVault
                ==> m.accounts.vault.data@.len() == 0,
{
    let bump: [u8; 1] = [m.bump];
    assert(bump@ =~= seq![m.bump]);
}

} // verus!
