//! The two transitions: opening an escrow and settling it.

pub mod make;
pub mod take;
