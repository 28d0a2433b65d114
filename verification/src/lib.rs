//! A minimal single-owner contract: it stores one 64-bit value together with
//! the identity that created it, and lets only that identity replace the
//! value, and only with a strictly positive one.

pub mod address;
pub mod contract;

