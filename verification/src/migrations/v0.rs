//! The first record layout generation.

use vstd::prelude::*;

verus! {

/// Schema version recorded by this generation.
pub const STORAGE_VERSION: u16 = 0;

/// Asset identifiers: dense, monotonically allocated 32-bit values.
pub type KittyId = u32;

/// The earliest record layout: the 16-byte dna alone.
#[derive(Clone, Copy, Debug, PartialEq, Eq)]
pub struct Kitty(pub [u8; 16]);

} // verus!
