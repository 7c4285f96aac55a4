//! What the renderer is told by its surroundings: the cycle counter of the
//! processor and the timing constants of the machine model.

use vstd::prelude::*;

verus! {

/// Number of processor cycles elapsed since the start of the current frame.
#[derive(Clone, Copy, PartialEq, Eq, Structural, Debug)]
pub struct Clocks(pub usize);

impl Clocks {
    /// Returns the number of cycles.
    pub fn count(&self) -> (n: usize)
        ensures
            n == self.0,
    {
        self.0
    }
}

/// Timing constants of a machine model.
#[derive(Clone, Copy, PartialEq, Eq, Structural, Debug)]
pub struct ZXSpecs {
    /// Cycle of the frame at which the beam starts the first canvas row.
    pub clocks_first_pixel: usize,
    /// Cycles that the beam spends on one scanline.
    pub clocks_line: usize,
}

impl ZXSpecs {
    /// The constants describe a beam that moves: a scanline takes time.
    pub open spec fn wf(self) -> bool {
        self.clocks_line > 0
    }
}

/// A machine model, as far as the display depends on it.
#[derive(Clone, Copy, PartialEq, Eq, Structural, Debug)]
pub struct ZXMachine {
    pub specs: ZXSpecs,
}

impl ZXMachine {
    /// Returns the machine model with the given timing constants.
    pub fn new(specs: ZXSpecs) -> (machine: ZXMachine)
        ensures
            machine.specs == specs,
    {
        ZXMachine { specs }
    }

    /// Returns the timing constants of the model.
    pub fn specs(&self) -> (specs: &ZXSpecs)
        ensures
            *specs == self.specs,
    {
        &self.specs
    }
}

} // verus!
