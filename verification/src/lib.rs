//! Validated semantic value types for the fields of a smart-energy-device
//! communication protocol's data dictionary.
//!
//! Every value of a protocol field that this crate hands out is inside the
//! legal domain the protocol defines: bounded numeric types only construct
//! inside their inclusive range, enumeration codes never construct inside a
//! reserved sub-range, and flag sets carry any bit pattern of their fixed
//! width. Records aggregate such values and are only constructible once every
//! field has been validated.

pub mod aliases;
pub mod bounded;
pub mod codes;
pub mod flags;
pub mod primacy;
pub mod records;
pub mod render;
pub mod uom;

use vstd::prelude::*;

verus! {

/// The single error of this crate: a raw input lay outside the legal domain
/// of the type it was offered to. It carries nothing; the caller must supply
/// a new value or reject the enclosing message.
#[derive(Clone, Copy, Debug, PartialEq, Eq, Structural)]
pub struct OutOfRange;

} // verus!
