//! Semi-honest 1-out-of-2 oblivious transfer over a prime-order group,
//! after Asharov, Lindell, Schneider and Zohner (2013), protocol 5.1.
//!
//! A receiver holding a choice bit learns one of two values held by a sender.
//! The sender does not learn the bit and the receiver does not learn the other
//! value. One run has three rounds: the receiver's setup, the sender's
//! response and the receiver's output computation. Each round also comes in a
//! batched form that treats a sequence of independent instances.
//!
//! Two payload encodings are offered, and both parties must use the same one:
//! [`masked`] hides byte strings under a hash of the shared secret, [`direct`]
//! adds the shared secret to a group element.

pub mod batch;
pub mod bytes;
pub mod curve;
pub mod direct;
pub mod error;
pub mod kdf;
pub mod masked;
pub mod setup;

pub use curv_kzen::elliptic::curves::ed25519::{FE, GE};
pub use error::OtError;
