//! How a sub-chunk entry carries a height map.

use vstd::prelude::*;

verus! {

pub struct SubChunkHeightMapType;

impl SubChunkHeightMapType {
    /// No height map.
    pub const NO_DATA: u8 = 0;
    /// The heights follow.
    pub const DATA: u8 = 1;
    /// Every column is above the sub-chunk.
    pub const ALL_TOO_HIGH: u8 = 2;
    /// Every column is below the sub-chunk.
    pub const ALL_TOO_LOW: u8 = 3;
    /// The render height map is the height map (render maps only).
    pub const ALL_COPIED: u8 = 4;
}

} // verus!
