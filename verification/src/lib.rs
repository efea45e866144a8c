//! Tenant-side trust establishment for a confidential-computing security
//! processor: a launch-session state machine that derives transport keys,
//! verifies an agreed measurement and wraps secrets for injection, together
//! with byte-exact encoding and signature verification of the fixed-layout
//! attestation report, and the bit-packed policy and platform records that
//! both consume.

pub mod crypto;
pub mod key;
pub mod records;
pub mod report;
pub mod session;
pub mod text;

use vstd::prelude::*;

verus! {

/// The ways an operation of this library can fail.
#[derive(Clone, Copy, Debug, PartialEq, Eq, Structural)]
pub enum Error {
    /// The entropy source could not supply random bytes.
    Rng,
    /// A cryptographic primitive rejected its input.
    Crypto,
    /// A computed measurement or signature did not match the expected value.
    Verification,
    /// A supplied certificate or chain failed its own validation.
    Trust,
}

} // verus!
