use vstd::prelude::*;

verus! {

/// How hard the compiler should optimize.
#[derive(Debug, Clone, Copy, PartialEq, Eq, Structural)]
pub enum OptimizationLevel {
    Off,
    Less,
    Default,
    Medium,
    Big,
}

impl Default for OptimizationLevel {
    fn default() -> (r: Self)
        ensures
            r == OptimizationLevel::Default,
    {
        OptimizationLevel::Default
    }
}

/// The width of the target's machine word.
#[derive(Debug, Clone, Copy, PartialEq, Eq, Structural)]
pub enum Bits {
    B8,
    B16,
    B32,
    B64,
}

impl Default for Bits {
    fn default() -> (r: Self)
        ensures
            r == Bits::B32,
    {
        Bits::B32
    }
}

/// The settings of a compilation.
#[derive(Debug, Clone, Copy, PartialEq, Eq, Structural)]
pub struct Config {
    pub optimization_level: OptimizationLevel,
    pub bits: Bits,
}

impl Default for Config {
    fn default() -> (r: Self)
        ensures
            r == (Config { optimization_level: OptimizationLevel::Default, bits: Bits::B32 }),
    {
        Config { optimization_level: OptimizationLevel::default(), bits: Bits::default() }
    }
}

} // verus!
