//! The game's identifiers of wares and buildings.
use vstd::prelude::*;

use crate::memory::{MemoryImage, ReadError};

verus! {

/// The identifier of a ware (or of the building that makes it).
#[derive(Clone, Copy, Debug, PartialEq, Eq, Structural, Hash, PartialOrd, Ord)]
pub struct WareType(pub u32);

/// Buildings are named by the identifier of the ware they make.
pub type BuildingType = WareType;

/// The identifier of steel beams.
pub const STEEL_BEAMS_ID: u32 = 1010218;

/// Reading the ware identifier at `a`.
pub open spec fn spec_read_ware(mem: &MemoryImage, a: int) -> Result<WareType, ReadError> {
    match mem.spec_read_u32(a) {
        Ok(v) => Ok(WareType(v)),
        Err(e) => Err(e),
    }
}

/// Reads the ware identifier at `base + offset`.
pub fn read_ware(mem: &MemoryImage, base: u64, offset: u64) -> (r: Result<WareType, ReadError>)
    ensures
        r == spec_read_ware(mem, base + offset),
{
    let v = mem.read_u32(base, offset)?;
    Ok(WareType(v))
}

} // verus!
