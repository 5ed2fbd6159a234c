//! A balanced password-authenticated key exchange over the Ristretto255
//! group: two parties who share a password exchange one fixed-size message
//! each and derive two 32-byte keys. The generator derivation, the wire
//! layout, the fixed role order of the key confirmation and the agreement of
//! the two roles' keys are stated in the contracts and proved; the group,
//! the hash and the random source are trusted at their interfaces.

use vstd::prelude::*;

pub mod adapters;
pub mod bytes;
pub mod errors;
pub mod laws;
pub mod model;
pub mod protocol;
pub mod transcript;

pub use errors::Error;
pub use protocol::CPace;
pub use protocol::SharedKeys;
pub use protocol::Step1Out;
pub use protocol::Step2Out;

verus! {

/// Number of bytes in a session identifier.
pub const SESSION_ID_BYTES: usize = 16;

/// Number of bytes in the first wire packet: session id followed by the
/// initiator's public element.
pub const STEP1_PACKET_BYTES: usize = 48;

/// Number of bytes in the second wire packet: the responder's public element.
pub const STEP2_PACKET_BYTES: usize = 32;

/// Number of bytes in each of the two derived shared keys.
pub const SHARED_KEY_BYTES: usize = 32;

} // verus!
