//! An account as a transition sees it.

use vstd::prelude::*;
use crate::address::Address;

verus! {

/// What the ledger shows of one account at the moment a transition looks at
/// it: plain values, taken once.
#[derive(Clone, Debug, PartialEq, Eq)]
pub struct Account {
    /// The account's identity.
    pub address: Address,
    /// The service or program that owns the account.
    pub owner: Address,
    /// Whether the account signed the instruction.
    pub is_signer: bool,
    /// The account's data; empty where the account does not exist yet.
    pub data: Vec<u8>,
}

impl Account {
    /// Whether `program` owns this account.
    pub fn owned_by(&self, program: &Address) -> (r: bool)
        ensures
            r == (self.owner@ == program@),
    {
        self.owner.same(program)
    }

    /// Number of bytes of data.
    pub fn data_len(&self) -> (r: usize)
        ensures
            r == self.data@.len(),
    {
        self.data.len()
    }

    /// Whether the account holds no data.
    pub fn is_data_empty(&self) -> (r: bool)
        ensures
            r == (self.data@.len() == 0),
    {
        self.data.len() == 0
    }
}

} // verus!
