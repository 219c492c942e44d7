use vstd::prelude::*;

verus! {

/// Fixed-point unit of a mixing coefficient: coefficients are stored in
/// hundred-thousandths, so `MIX_SCALE` stands for 1.0 (100%).
pub const MIX_SCALE: u32 = 100_000;

/// Percentages of input red, green and blue that make up one output channel,
/// each in units of `1 / MIX_SCALE`.
///
/// The output channel is the dot product of the row with the input color.
#[derive(Clone, Copy, Debug, PartialEq, Eq, Structural)]
pub struct MixRow {
    /// Weight of the input red channel.
    pub red: u32,
    /// Weight of the input green channel.
    pub green: u32,
    /// Weight of the input blue channel.
    pub blue: u32,
}

impl MixRow {
    /// The row with the given weights.
    pub open spec fn spec_new(red: u32, green: u32, blue: u32) -> MixRow {
        MixRow { red, green, blue }
    }

    /// Sum of the three weights; `MIX_SCALE` for a row that keeps brightness.
    pub open spec fn sum(self) -> int {
        self.red + self.green + self.blue
    }

    /// Every weight lies between 0% and 100%.
    pub open spec fn within_unit(self) -> bool {
        &&& self.red <= MIX_SCALE
        &&& self.green <= MIX_SCALE
        &&& self.blue <= MIX_SCALE
    }

    /// Creates a row from the weights of input red, green and blue.
    pub fn new(red: u32, green: u32, blue: u32) -> (r: MixRow)
        ensures
            r == MixRow::spec_new(red, green, blue),
    {
        MixRow { red, green, blue }
    }
}

/// Indicates how to mix the RGB channels to obtain output colors: one [`MixRow`]
/// per output channel.
///
/// Normal vision keeps each channel as it is: the red row is 100% red, the green
/// row 100% green and the blue row 100% blue.
#[derive(Clone, Copy, Debug, PartialEq, Eq, Structural)]
pub struct ColorBlindnessPercentages {
    /// Percentages of red, green, and blue to mix on the red channel.
    pub red: MixRow,
    /// Percentages of red, green, and blue to mix on the green channel.
    pub green: MixRow,
    /// Percentages of red, green, and blue to mix on the blue channel.
    pub blue: MixRow,
}

impl ColorBlindnessPercentages {
    /// Every weight of every row lies between 0% and 100%.
    pub open spec fn within_unit(self) -> bool {
        &&& self.red.within_unit()
        &&& self.green.within_unit()
        &&& self.blue.within_unit()
    }

    /// Creates a new `ColorBlindnessPercentages`.
    pub(crate) fn new(red: MixRow, green: MixRow, blue: MixRow) -> (r: Self)
        ensures
            r == (ColorBlindnessPercentages { red, green, blue }),
    {
        Self { red, green, blue }
    }
}

} // verus!
