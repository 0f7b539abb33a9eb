use vstd::prelude::*;

verus! {

/// A position read out of the target process. Each component holds the raw
/// IEEE-754 bit pattern of one 32-bit float exactly as it sits in memory;
/// interpreting the bits as a number is left to unverified presentation code.
#[derive(Clone, Copy, Debug, PartialEq, Eq, Structural)]
pub struct Vec3 {
    pub x: u32,
    pub y: u32,
    pub z: u32,
}

impl Default for Vec3 {
    fn default() -> (r: Self)
        ensures
            r == (Vec3 { x: 0u32, y: 0u32, z: 0u32 }),
    {
        Vec3 { x: 0, y: 0, z: 0 }
    }
}

} // verus!
