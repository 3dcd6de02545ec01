//! Settling an escrow.
//!
//! The taker pays what the record asks for and receives what the vault
//! holds. The transition proceeds in three steps, because the two receiving
//! accounts are provisioned by a service of the ledger and must be checked
//! once they exist: ask for the taker's account; check it and ask for the
//! maker's; check that, authenticate the record, and hand out the four
//! actions of the swap.

use vstd::prelude::*;
use crate::account::Account;
use crate::action::{Action, Awaiting, RecordSigner, Step};
use crate::address::Address;
use crate::custody::{
    custody_amount, custody_len, custody_service, read_amount, token_account_len,
    token_program_id,
};
use crate::derivation::{verified, verify};
use crate::error::EscrowError;
use crate::state::{stored_bump, stored_maker, stored_receive, stored_seed, Escrow};
use crate::validators::{
    custody_checked, mint_checked, provision_request, record_checked, signer_checked,
    AssociatedTokenAccount, MintInterface, ProgramAccount, SignerAccount,
};

verus! {

/// The accounts of a Settle instruction, in the order of the instruction.
#[derive(Clone, Copy, Debug)]
pub struct TakeAccounts<'a> {
    /// The taker; must have signed.
    pub taker: &'a Account,
    /// The maker, who is paid.
    pub maker: &'a Account,
    /// The escrow record.
    pub escrow: &'a Account,
    /// The asset that was deposited.
    pub mint_a: &'a Account,
    /// The asset that is asked for.
    pub mint_b: &'a Account,
    /// The vault that holds the deposit.
    pub vault: &'a Account,
    /// The taker's custody account for the deposited asset.
    pub taker_ata_a: &'a Account,
    /// The taker's custody account for the asset asked for.
    pub taker_ata_b: &'a Account,
    /// The maker's custody account for the asset asked for.
    pub maker_ata_b: &'a Account,
    /// The account-provisioning service.
    pub system_program: &'a Account,
    /// The custody service.
    pub token_program: &'a Account,
}

/// Number of accounts of a Settle instruction.
pub open spec fn take_arity() -> nat {
    11
}

/// Whether the accounts of a Settle instruction pass their checks, and if
/// not, the first failure: the number of accounts, the taker's signature,
/// the record, the two assets, the taker's paying account, the vault.
pub open spec fn take_accounts_checked(program: Seq<u8>, accounts: Seq<Account>) -> Result<
    (),
    EscrowError,
> {
    if accounts.len() != take_arity() {
        Err(EscrowError::NotEnoughAccountKeys)
    } else if signer_checked(&accounts[0]) is Err {
        signer_checked(&accounts[0])
    } else if record_checked(&accounts[2], program) is Err {
        record_checked(&accounts[2], program)
    } else if mint_checked(&accounts[3]) is Err {
        mint_checked(&accounts[3])
    } else if mint_checked(&accounts[4]) is Err {
        mint_checked(&accounts[4])
    } else if custody_checked(
        &accounts[7],
        accounts[0].address@,
        accounts[4].address@,
        accounts[10].address@,
    ) is Err {
        custody_checked(
            &accounts[7],
            accounts[0].address@,
            accounts[4].address@,
            accounts[10].address@,
        )
    } else {
        custody_checked(
            &accounts[5],
            accounts[2].address@,
            accounts[3].address@,
            accounts[10].address@,
        )
    }
}

impl<'a> TakeAccounts<'a> {
    /// Whether these are the entries of `accounts`, in order.
    pub open spec fn matches(&self, accounts: Seq<Account>) -> bool {
        &&& accounts.len() == take_arity()
        &&& *self.taker == accounts[0]
        &&& *self.maker == accounts[1]
        &&& *self.escrow == accounts[2]
        &&& *self.mint_a == accounts[3]
        &&& *self.mint_b == accounts[4]
        &&& *self.vault == accounts[5]
        &&& *self.taker_ata_a == accounts[6]
        &&& *self.taker_ata_b == accounts[7]
        &&& *self.maker_ata_b == accounts[8]
        &&& *self.system_program == accounts[9]
        &&& *self.token_program == accounts[10]
    }

    /// Takes the accounts of a Settle instruction by role and checks each.
    pub fn try_from(program: &Address, accounts: &'a [Account]) -> (r: Result<
        TakeAccounts<'a>,
        EscrowError,
    >)
        ensures
            match r {
                Ok(a) => take_accounts_checked(program@, accounts@) is Ok && a.matches(accounts@),
                Err(e) => take_accounts_checked(program@, accounts@) == Err::<(), EscrowError>(e),
            },
    {
        if accounts.len() != 11 {
            return Err(EscrowError::NotEnoughAccountKeys);
        }
        let taker = &accounts[0];
        let maker = &accounts[1];
        let escrow = &accounts[2];
        let mint_a = &accounts[3];
        let mint_b = &accounts[4];
        let vault = &accounts[5];
        let taker_ata_a = &accounts[6];
        let taker_ata_b = &accounts[7];
        let maker_ata_b = &accounts[8];
        let system_program = &accounts[9];
        let token_program = &accounts[10];
        match SignerAccount::check(taker) {
            Err(e) => {
                return Err(e);
            },
            Ok(_) => {},
        }
        match ProgramAccount::check(escrow, program) {
            Err(e) => {
                return Err(e);
            },
            Ok(_) => {},
        }
        match MintInterface::check(mint_a) {
            Err(e) => {
                return Err(e);
            },
            Ok(_) => {},
        }
        match MintInterface::check(mint_b) {
            Err(e) => {
                return Err(e);
            },
            Ok(_) => {},
        }
        match AssociatedTokenAccount::check(taker_ata_b, taker, mint_b, token_program) {
            Err(e) => {
                return Err(e);
            },
            Ok(_) => {},
        }
        match AssociatedTokenAccount::check(vault, escrow, mint_a, token_program) {
            Err(e) => {
                return Err(e);
            },
            Ok(_) => {},
        }
        Ok(
            TakeAccounts {
                taker,
                maker,
                escrow,
                mint_a,
                mint_b,
                vault,
                taker_ata_a,
                taker_ata_b,
                maker_ata_b,
                system_program,
                token_program,
            },
        )
    }
}

/// A checked Settle instruction.
#[derive(Clone, Copy, Debug)]
pub struct Take<'a> {
    /// The accounts, each checked.
    pub accounts: TakeAccounts<'a>,
    /// The program that owns the record.
    pub program_id: Address,
}

/// What a settlement is told when it is asked to go on.
#[derive(Clone, Debug, PartialEq, Eq)]
pub enum TakeEvent {
    /// Nothing has happened yet.
    Begin,
    /// The taker's receiving account was provisioned; this is how it stands.
    TakerAccountProvisioned(Account),
    /// The maker's receiving account was provisioned; this is how it stands.
    MakerAccountProvisioned(Account),
}

/// Whether the record in the slot of `t` is authentic: it has the length of
/// a record, its maker is the maker who is paid, and the slot's identity is
/// the one that the stored maker, seed and bump derive.
pub open spec fn record_authentic(t: &Take) -> bool {
    let data = t.accounts.escrow.data@;
    &&& data.len() == Escrow::LEN
    &&& stored_maker(data) == t.accounts.maker.address@
    &&& verified(
        t.accounts.escrow.address@,
        stored_maker(data),
        stored_seed(data),
        stored_bump(data),
        t.program_id@,
    )
}

/// Whether the balance of the vault of `t` can be read: the vault has the
/// size of a custody account and the custody service owns it.
pub open spec fn vault_readable(t: &Take) -> bool {
    &&& t.accounts.vault.data@.len() == custody_len()
    &&& t.accounts.vault.owner@ == custody_service()
}

/// The authority with which the record of `t` signs: its stored maker, seed
/// and bump.
pub open spec fn settle_signer(t: &Take) -> RecordSigner {
    RecordSigner {
        maker: t.accounts.maker.address,
        seed: stored_seed(t.accounts.escrow.data@),
        bump: stored_bump(t.accounts.escrow.data@),
    }
}

/// The four actions of the swap, in order: the vault's whole balance goes to
/// the taker, the vault is closed in favour of the maker, the amount that
/// the record asks for goes from the taker to the maker, and the record is
/// destroyed in favour of the taker.
pub open spec fn settle_plan(t: &Take) -> Seq<Action> {
    seq![
        Action::Transfer {
            from: t.accounts.vault.address,
            to: t.accounts.taker_ata_a.address,
            authority: t.accounts.escrow.address,
            amount: custody_amount(t.accounts.vault.data@),
            signer: Some(settle_signer(t)),
        },
        Action::CloseVault {
            vault: t.accounts.vault.address,
            destination: t.accounts.maker.address,
            authority: t.accounts.escrow.address,
            signer: settle_signer(t),
        },
        Action::Transfer {
            from: t.accounts.taker_ata_b.address,
            to: t.accounts.maker_ata_b.address,
            authority: t.accounts.taker.address,
            amount: stored_receive(t.accounts.escrow.data@),
            signer: None,
        },
        Action::CloseRecord {
            record: t.accounts.escrow.address,
            destination: t.accounts.taker.address,
        },
    ]
}

/// The request for the taker's receiving account: a custody account for the
/// deposited asset under the taker, paid by the taker.
pub open spec fn taker_request(t: &Take) -> Action {
    provision_request(
        t.accounts.taker_ata_a,
        t.accounts.mint_a,
        t.accounts.taker,
        t.accounts.taker,
        t.accounts.system_program,
        t.accounts.token_program,
    )
}

/// The request for the maker's receiving account: a custody account for the
/// asset asked for under the maker, paid by the taker.
pub open spec fn maker_request(t: &Take) -> Action {
    provision_request(
        t.accounts.maker_ata_b,
        t.accounts.mint_b,
        t.accounts.maker,
        t.accounts.taker,
        t.accounts.system_program,
        t.accounts.token_program,
    )
}

/// What the check of a provisioned account says: `shown` must be the account
/// that was asked for, and a custody account for `mint` under `authority`.
pub open spec fn provisioned_checked(
    shown: &Account,
    asked: &Account,
    authority: &Account,
    mint: &Account,
    token_program: &Account,
) -> Result<(), EscrowError> {
    if shown.address@ != asked.address@ {
        Err(EscrowError::InvalidAccountData)
    } else {
        custody_checked(shown, authority.address@, mint.address@, token_program.address@)
    }
}

/// What a settlement does when `event` arrives: the actions to perform and
/// what it waits for next, or the failure that ends it. No step hands out
/// anything unless the record is authentic and the vault can be read.
pub open spec fn settle_step(t: &Take, event: &TakeEvent) -> Result<
    (Seq<Action>, Awaiting),
    EscrowError,
> {
    if !(record_authentic(t) && vault_readable(t)) {
        Err(EscrowError::InvalidAccountData)
    } else {
        match event {
            TakeEvent::Begin => Ok((seq![taker_request(t)], Awaiting::TakerAccount)),
            TakeEvent::TakerAccountProvisioned(account) => match provisioned_checked(
                account,
                t.accounts.taker_ata_a,
                t.accounts.taker,
                t.accounts.mint_a,
                t.accounts.token_program,
            ) {
                Err(e) => Err(e),
                Ok(_) => Ok((seq![maker_request(t)], Awaiting::MakerAccount)),
            },
            TakeEvent::MakerAccountProvisioned(account) => match provisioned_checked(
                account,
                t.accounts.maker_ata_b,
                t.accounts.maker,
                t.accounts.mint_b,
                t.accounts.token_program,
            ) {
                Err(e) => Err(e),
                Ok(_) => Ok((settle_plan(t), Awaiting::Nothing)),
            },
        }
    }
}

impl<'a> Take<'a> {
    /// The first byte of a Settle instruction.
    pub const DISCRIMINATOR: u8 = 1;

    /// Checks the accounts of a Settle instruction.
    pub fn try_from(program: &Address, accounts: &'a [Account]) -> (r: Result<Take<'a>, EscrowError>)
        ensures
            match r {
                Ok(t) => take_accounts_checked(program@, accounts@) is Ok && t.accounts.matches(
                    accounts@,
                ) && t.program_id == *program,
                Err(e) => take_accounts_checked(program@, accounts@) == Err::<(), EscrowError>(e),
            },
    {
        match TakeAccounts::try_from(program, accounts) {
            Ok(accounts) => Ok(Take { accounts, program_id: *program }),
            Err(e) => Err(e),
        }
    }

    /// Carries the settlement one step further. Every step first
    /// authenticates the record against the slot's identity and reads the
    /// vault; a record that is not authentic ends the settlement at once.
    /// On `Begin` the step asks for the taker's receiving account. Shown that
    /// account, it checks it and asks for the maker's. Shown the maker's, it
    /// checks it and hands out the four actions of the swap. A failed check
    /// ends the settlement with no action.
    pub fn process(&self, event: &TakeEvent) -> (r: Result<Step, EscrowError>)
        ensures
            match r {
                Ok(step) => settle_step(self, event) == Ok::<(Seq<Action>, Awaiting), EscrowError>(
                    (step.actions@, step.awaiting),
                ),
                Err(e) => settle_step(self, event) == Err::<(Seq<Action>, Awaiting), EscrowError>(
                    e,
                ),
            },
    {
        let accounts = &self.accounts;
        let swap = match self.settle() {
            Ok(swap) => swap,
            Err(e) => {
                return Err(e);
            },
        };
        match event {
            TakeEvent::Begin => {
                let request = AssociatedTokenAccount::init_if_needed(
                    accounts.taker_ata_a,
                    accounts.mint_a,
                    accounts.taker,
                    accounts.taker,
                    accounts.system_program,
                    accounts.token_program,
                );
                let actions = vec![request];
                assert(actions@ =~= seq![taker_request(self)]);
                Ok(Step { actions, awaiting: Awaiting::TakerAccount })
            },
            TakeEvent::TakerAccountProvisioned(account) => {
                match Take::check_provisioned(
                    account,
                    accounts.taker_ata_a,
                    accounts.taker,
                    accounts.mint_a,
                    accounts.token_program,
                ) {
                    Err(e) => {
                        return Err(e);
                    },
                    Ok(_) => {},
                }
                let request = AssociatedTokenAccount::init_if_needed(
                    accounts.maker_ata_b,
                    accounts.mint_b,
                    accounts.maker,
                    accounts.taker,
                    accounts.system_program,
                    accounts.token_program,
                );
                let actions = vec![request];
                assert(actions@ =~= seq![maker_request(self)]);
                Ok(Step { actions, awaiting: Awaiting::MakerAccount })
            },
            TakeEvent::MakerAccountProvisioned(account) => {
                match Take::check_provisioned(
                    account,
                    accounts.maker_ata_b,
                    accounts.maker,
                    accounts.mint_b,
                    accounts.token_program,
                ) {
                    Err(e) => {
                        return Err(e);
                    },
                    Ok(_) => {},
                }
                Ok(swap)
            },
        }
    }

    /// Checks an account after it was provisioned: it is the account that
    /// was asked for, and it has the shape it was asked to have.
    fn check_provisioned(
        shown: &Account,
        asked: &Account,
        authority: &Account,
        mint: &Account,
        token_program: &Account,
    ) -> (r: Result<(), EscrowError>)
        ensures
            r == provisioned_checked(shown, asked, authority, mint, token_program),
    {
        if !shown.address.same(&asked.address) {
            return Err(EscrowError::InvalidAccountData);
        }
        AssociatedTokenAccount::check(shown, authority, mint, token_program)
    }

    /// Authenticates the record in the slot: its length, its maker, and the
    /// slot's identity against the stored maker, seed and bump. Returns the
    /// stored seed, bump and amount asked for.
    fn authenticate(&self) -> (r: Option<(u64, u8, u64)>)
        ensures
            match r {
                Some((seed, bump, receive)) => record_authentic(self) && seed == stored_seed(
                    self.accounts.escrow.data@,
                ) && bump == stored_bump(self.accounts.escrow.data@) && receive == stored_receive(
                    self.accounts.escrow.data@,
                ),
                None => !record_authentic(self),
            },
    {
        let accounts = &self.accounts;
        let record = match Escrow::load(accounts.escrow.data.as_slice()) {
            Ok(record) => record,
            Err(_) => {
                return None;
            },
        };
        let bump = record.bump[0];
        assert(bump == stored_bump(accounts.escrow.data@));
        if !record.maker.same(&accounts.maker.address) {
            return None;
        }
        if !verify(&accounts.escrow.address, &record.maker, record.seed, bump, &self.program_id) {
            return None;
        }
        Some((record.seed, bump, record.receive))
    }

    /// The balance of the vault, if it can be read.
    fn vault_amount(&self) -> (r: Option<u64>)
        ensures
            match r {
                Some(amount) => vault_readable(self) && amount == custody_amount(
                    self.accounts.vault.data@,
                ),
                None => !vault_readable(self),
            },
    {
        let vault = self.accounts.vault;
        if vault.data_len() != token_account_len() {
            return None;
        }
        let service = token_program_id();
        if !vault.owned_by(&service) {
            return None;
        }
        Some(read_amount(vault.data.as_slice()))
    }

    /// Authenticates the record, reads the vault and lays out the swap.
    fn settle(&self) -> (r: Result<Step, EscrowError>)
        ensures
            match r {
                Ok(step) => record_authentic(self) && vault_readable(self) && step.actions@
                    == settle_plan(self) && step.awaiting == Awaiting::Nothing,
                Err(e) => !(record_authentic(self) && vault_readable(self)) && e
                    == EscrowError::InvalidAccountData,
            },
    {
        let accounts = &self.accounts;
        let (seed, bump, receive) = match self.authenticate() {
            Some(stored) => stored,
            None => {
                return Err(EscrowError::InvalidAccountData);
            },
        };
        let amount = match self.vault_amount() {
            Some(amount) => amount,
            None => {
                return Err(EscrowError::InvalidAccountData);
            },
        };
        let signer = RecordSigner { maker: accounts.maker.address, seed, bump };
        assert(signer == settle_signer(self));
        let to_taker = Action::Transfer {
            from: accounts.vault.address,
            to: accounts.taker_ata_a.address,
            authority: accounts.escrow.address,
            amount,
            signer: Some(signer),
        };
        let close_vault = Action::CloseVault {
            vault: accounts.vault.address,
            destination: accounts.maker.address,
            authority: accounts.escrow.address,
            signer,
        };
        let to_maker = Action::Transfer {
            from: accounts.taker_ata_b.address,
            to: accounts.maker_ata_b.address,
            authority: accounts.taker.address,
            amount: receive,
            signer: None,
        };
        let close_record = ProgramAccount::close(accounts.escrow, accounts.taker);
        let mut actions: Vec<Action> = Vec::new();
        actions.push(to_taker);
        actions.push(close_vault);
        actions.push(to_maker);
        actions.push(close_record);
        assert(actions@ =~= seq![to_taker, close_vault, to_maker, close_record]);
        Ok(Step { actions, awaiting: Awaiting::Nothing })
    }
}

/// A Settle instruction with a list of accounts of the wrong length is
/// refused for that reason, whatever the accounts hold.
pub proof fn lemma_settle_needs_its_accounts(program: Seq<u8>, accounts: Seq<Account>)
    requires
        accounts.len() != take_arity(),
    ensures
        take_accounts_checked(program, accounts) == Err::<(), EscrowError>(
            EscrowError::NotEnoughAccountKeys,
        ),
{
}

/// A record that was destroyed cannot be settled again. Once its slot holds
/// no data, or belongs to another program, the accounts of a Settle
/// instruction are refused; where the taker signed and the slot did not, the
/// reason is the slot's owner or its data.
pub proof fn lemma_destroyed_record_is_refused(program: Seq<u8>, accounts: Seq<Account>)
    requires
        accounts.len() == take_arity(),
        accounts[2].data@.len() == 0 || accounts[2].owner@ != program,
    ensures
        take_accounts_checked(program, accounts) is Err,
        accounts[0].is_signer && !accounts[2].is_signer ==> take_accounts_checked(
            program,
            accounts,
        ) == Err::<(), EscrowError>(EscrowError::InvalidAccountOwner) || take_accounts_checked(
            program,
            accounts,
        ) == Err::<(), EscrowError>(EscrowError::InvalidAccountData),
{
}

/// A record whose stored maker, seed and bump do not derive the identity of
/// its slot ends the settlement at every step, for the record's data, and
/// nothing is handed out.
pub proof fn lemma_forged_record_is_refused(t: &Take, event: &TakeEvent)
    requires
        !verified(
            t.accounts.escrow.address@,
            stored_maker(t.accounts.escrow.data@),
            stored_seed(t.accounts.escrow.data@),
            stored_bump(t.accounts.escrow.data@),
            t.program_id@,
        ),
    ensures
        !record_authentic(t),
        settle_step(t, event) == Err::<(Seq<Action>, Awaiting), EscrowError>(
            EscrowError::InvalidAccountData,
        ),
{
}

/// Nothing is asked of the ledger on behalf of a record that is not
/// authentic: a step that hands out anything belongs to a settlement whose
/// record was authenticated and whose vault was read. A step that moves or
/// closes anything is the last one, and hands out the whole swap.
pub proof fn lemma_swap_needs_authentic_record(t: &Take, event: &TakeEvent, i: int)
    requires
        settle_step(t, event) matches Ok((actions, _)) && 0 <= i < actions.len(),
    ensures
        record_authentic(t),
        vault_readable(t),
        settle_step(t, event) matches Ok((actions, _)) && (actions[i] is Transfer || actions[i]
            is CloseVault || actions[i] is CloseRecord) ==> event is MakerAccountProvisioned
            && settle_step(t, event) == Ok::<(Seq<Action>, Awaiting), EscrowError>(
            (settle_plan(t), Awaiting::Nothing),
        ),
{
}

} // verus!
