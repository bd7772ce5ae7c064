//! The layout parameters of the keccak builtin.
use vstd::prelude::*;

verus! {

pub const CELLS_PER_SIGNATURE: u32 = 2;

pub const INPUT_CELLS_PER_SIGNATURE: u32 = 2;

/// Parameters of the keccak builtin.
#[derive(Clone, Debug, PartialEq, Eq, Structural)]
pub struct KeccakInstanceDef {
    pub _ratio: u32,
    pub _repetitions: u32,
    pub _height: u32,
    pub _n_hash_bits: u32,
}

impl KeccakInstanceDef {
    /// Ratio 512, one repetition, height 256, 251 hash bits.
    pub fn default() -> (r: Self)
        ensures
            r == (KeccakInstanceDef { _ratio: 512, _repetitions: 1, _height: 256, _n_hash_bits: 251 }),
    {
        KeccakInstanceDef { _ratio: 512, _repetitions: 1, _height: 256, _n_hash_bits: 251 }
    }

    /// The default parameters with the given ratio.
    pub fn new(ratio: u32) -> (r: Self)
        ensures
            r == (KeccakInstanceDef { _ratio: ratio, _repetitions: 1, _height: 256, _n_hash_bits: 251 }),
    {
        KeccakInstanceDef { _ratio: ratio, _repetitions: 1, _height: 256, _n_hash_bits: 251 }
    }

    pub fn _cells_per_builtin(&self) -> (r: u32)
        ensures
            r == CELLS_PER_SIGNATURE,
    {
        CELLS_PER_SIGNATURE
    }

    pub fn _range_check_units_per_builtin(&self) -> (r: u32)
        ensures
            r == 0,
    {
        0
    }
}

} // verus!
