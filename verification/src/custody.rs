//! The custody service's accounts: where this crate reads them.
//!
//! A custody account holds a balance of one asset under one authority. The
//! service stores it as 165 bytes that begin with the asset (32 bytes), the
//! authority (32 bytes) and the balance (8 bytes, little endian).

use vstd::prelude::*;
use crate::address::Address;
use crate::bytes::{le_u64, read_u64};
use crate::state::read_address;

verus! {

/// Number of bytes of a custody account.
pub open spec fn custody_len() -> nat {
    165
}

/// The identity of the custody service.
pub open spec fn custody_service() -> Seq<u8> {
    seq![
        6u8, 221u8, 246u8, 225u8, 215u8, 101u8, 161u8, 147u8, 217u8, 203u8, 225u8, 70u8, 206u8,
        235u8, 121u8, 172u8, 28u8, 180u8, 133u8, 237u8, 95u8, 91u8, 55u8, 145u8, 58u8, 140u8,
        245u8, 133u8, 126u8, 255u8, 0u8, 169u8,
    ]
}

/// The asset that a custody account's data names.
pub open spec fn custody_mint(data: Seq<u8>) -> Seq<u8>
    recommends
        data.len() == custody_len(),
{
    data.subrange(0, 32)
}

/// The authority that a custody account's data names.
pub open spec fn custody_authority(data: Seq<u8>) -> Seq<u8>
    recommends
        data.len() == custody_len(),
{
    data.subrange(32, 64)
}

/// The balance that a custody account's data holds.
pub open spec fn custody_amount(data: Seq<u8>) -> u64
    recommends
        data.len() == custody_len(),
{
    le_u64(data.subrange(64, 72))
}

/// Reads `Account::LEN` of the custody service's library. Trusted: the
/// size of its account layout, eleven byte fields without padding, is 165.
#[verifier::external_body]
pub(crate) fn token_account_len() -> (r: usize)
    ensures
        r == custody_len(),
{
    pinocchio_token::state::Account::LEN
}

/// Reads `ID` of the custody service's library. Trusted: its 32 bytes are
/// those of [`custody_service`].
#[verifier::external_body]
pub(crate) fn token_program_id() -> (r: Address)
    ensures
        r@ == custody_service(),
{
    Address { bytes: pinocchio_token::ID.to_bytes() }
}

/// The asset named by custody data.
pub fn read_mint(data: &[u8]) -> (r: Address)
    requires
        data@.len() >= 72,
    ensures
        r@ == custody_mint(data@),
{
    read_address(data, 0)
}

/// The authority named by custody data.
pub fn read_authority(data: &[u8]) -> (r: Address)
    requires
        data@.len() >= 72,
    ensures
        r@ == custody_authority(data@),
{
    read_address(data, 32)
}

/// The balance held by custody data.
pub fn read_amount(data: &[u8]) -> (r: u64)
    requires
        data@.len() >= 72,
    ensures
        r == custody_amount(data@),
{
    read_u64(data, 64)
}

} // verus!
