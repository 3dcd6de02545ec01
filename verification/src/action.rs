//! What a transition asks of the ledger.
//!
//! The transitions decide; they do not touch the ledger. Each hands out
//! actions in the order in which they must be performed. The ledger applies
//! all of an instruction's actions or none.

use vstd::prelude::*;
use crate::address::Address;
use crate::derivation::{signer_seed_list, seeds_view, signer_seeds};
use crate::state::Escrow;

verus! {

/// The authority of an escrow record over its own slot and vault: the seeds
/// from which its identity derives. It is computed anew for every transition
/// and travels with each action that the record must authorize.
#[derive(Clone, Copy, Debug, PartialEq, Eq)]
pub struct RecordSigner {
    pub maker: Address,
    pub seed: u64,
    pub bump: u8,
}

impl RecordSigner {
    /// The seeds that this authority signs with.
    pub open spec fn seeds(&self) -> Seq<Seq<u8>> {
        signer_seeds(self.maker@, self.seed, self.bump)
    }

    /// The seeds that this authority signs with, in order.
    pub fn seed_list(&self) -> (r: Vec<Vec<u8>>)
        ensures
            seeds_view(&r) == self.seeds(),
    {
        signer_seed_list(&self.maker, self.seed, self.bump)
    }
}

/// One request to a service of the ledger. Accounts are named by identity.
#[derive(Clone, Copy, Debug, PartialEq, Eq)]
#[allow(inconsistent_fields)]
pub enum Action {
    /// Allocate `record` with `space` bytes of zeroed data at the smallest
    /// balance that keeps it alive, paid by `payer` and owned by `owner`.
    /// The record signs for its own creation.
    CreateRecord { payer: Address, record: Address, space: u64, owner: Address, signer: RecordSigner },
    /// Store `contents` in the data of `record`, in one write.
    WriteRecord { record: Address, contents: Escrow },
    /// Create the custody account `vault` for asset `mint` under the
    /// authority `wallet`, paid by `payer`.
    CreateVault {
        payer: Address,
        vault: Address,
        wallet: Address,
        mint: Address,
        system_program: Address,
        token_program: Address,
    },
    /// Create the custody account `account` for asset `mint` under the
    /// authority `wallet` unless it exists already, paid by `payer`.
    ProvisionAccount {
        payer: Address,
        account: Address,
        wallet: Address,
        mint: Address,
        system_program: Address,
        token_program: Address,
    },
    /// Move `amount` from custody account `from` to custody account `to`.
    /// The owner of `authority` signs, or the record where `signer` is given.
    Transfer { from: Address, to: Address, authority: Address, amount: u64, signer: Option<RecordSigner> },
    /// Close the custody account `vault` and send what balance it keeps to
    /// `destination`. The record signs.
    CloseVault { vault: Address, destination: Address, authority: Address, signer: RecordSigner },
    /// Destroy `record` and send its balance to `destination`.
    CloseRecord { record: Address, destination: Address },
}

/// What a transition waits for after the actions of a step are performed.
#[derive(Clone, Copy, Debug, PartialEq, Eq, Structural)]
pub enum Awaiting {
    /// The taker's receiving account, as it stands after provisioning.
    TakerAccount,
    /// The maker's receiving account, as it stands after provisioning.
    MakerAccount,
    /// Nothing: the transition is complete.
    Nothing,
}

/// One step of a transition: the actions to perform now, in order, and what
/// the transition needs to see before it goes on.
#[derive(Clone, Debug, PartialEq, Eq)]
pub struct Step {
    pub actions: Vec<Action>,
    pub awaiting: Awaiting,
}

} // verus!
