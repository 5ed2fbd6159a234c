//! The distinct failure kinds a protocol run can surface.

use vstd::prelude::*;

verus! {

/// Why a protocol step failed. The three kinds are kept apart so that a
/// caller can tell bad input, an environment failure and a corrupt peer
/// message from one another.
#[derive(Debug)]
pub enum Error {
    /// An identity string is longer than the 255 bytes its one-byte length
    /// prefix can carry; detected before any hashing.
    Overflow(&'static str),
    /// The secure random source failed; the run is abandoned rather than
    /// falling back to weaker randomness.
    Random(getrandom::Error),
    /// Received bytes are not the canonical encoding of a group element.
    InvalidPublicKey,
}

impl From<getrandom::Error> for Error {
    fn from(e: getrandom::Error) -> (r: Self) {
        Error::Random(e)
    }
}

impl vstd::std_specs::convert::FromSpecImpl<getrandom::Error> for Error {
    open spec fn obeys_from_spec() -> bool {
        true
    }

    open spec fn from_spec(e: getrandom::Error) -> Self {
        Error::Random(e)
    }
}

} // verus!
