//! Game formats.
use vstd::prelude::*;

verus! {

#[derive(Clone, Copy, Debug, PartialEq, Eq, Structural, Hash)]
pub enum GameFormat {
    Standard,
    Commander,
    Vanguard,
    Planechase,
}

#[derive(Clone, Copy, Debug, PartialEq, Eq, Structural, Hash)]
pub struct FormatConfig {
    pub format: GameFormat,
    pub starting_life: i32,
}

impl FormatConfig {
    pub fn standard() -> (r: Self)
        ensures
            r == (FormatConfig { format: GameFormat::Standard, starting_life: 20 }),
    {
        FormatConfig { format: GameFormat::Standard, starting_life: 20 }
    }

    /// The Vanguard variant (CR 902).
    pub fn vanguard() -> (r: Self)
        ensures
            r == (FormatConfig { format: GameFormat::Vanguard, starting_life: 20 }),
    {
        FormatConfig { format: GameFormat::Vanguard, starting_life: 20 }
    }

    /// The Planechase variant (CR 901).
    pub fn planechase() -> (r: Self)
        ensures
            r == (FormatConfig { format: GameFormat::Planechase, starting_life: 20 }),
    {
        FormatConfig { format: GameFormat::Planechase, starting_life: 20 }
    }
}

} // verus!
