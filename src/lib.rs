//! Driver logic for the NAU7802 24-bit sigma-delta ADC.
//!
//! The register map, the bit and field arithmetic used for read-modify-write
//! access, and the command sessions that sequence bus transfers and delays
//! all live here and are verified. Performing the transfers themselves is left
//! to the caller, who feeds each outcome back into a [`Session`].
pub mod bits;
pub mod decode;
pub mod error;
pub mod registers;
pub mod runs;
pub mod session;

pub use error::Error;
pub use registers::{Gain, Ldo, Register, SamplesPerSecond};
pub use session::{Action, Event, Request, Session};
