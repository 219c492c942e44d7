use vstd::prelude::*;

use crate::mode::ColorBlindnessMode;
use crate::percentages::{ColorBlindnessPercentages, MixRow, MIX_SCALE};

verus! {

/// The matrix made of the three given rows, each written as red, green and blue
/// weights in hundred-thousandths.
pub open spec fn matrix(
    red: (u32, u32, u32),
    green: (u32, u32, u32),
    blue: (u32, u32, u32),
) -> ColorBlindnessPercentages {
    ColorBlindnessPercentages {
        red: MixRow::spec_new(red.0, red.1, red.2),
        green: MixRow::spec_new(green.0, green.1, green.2),
        blue: MixRow::spec_new(blue.0, blue.1, blue.2),
    }
}

impl ColorBlindnessMode {
    /// The channel-mixing matrix of each mode (after the colorjack color matrix
    /// table, as collected by Alan Zucconi).
    pub open spec fn spec_percentages(self) -> ColorBlindnessPercentages {
        match self {
            ColorBlindnessMode::Normal => matrix(
                (100_000, 0, 0),
                (0, 100_000, 0),
                (0, 0, 100_000),
            ),
            ColorBlindnessMode::Protanopia => matrix(
                (56_667, 43_333, 0),
                (55_833, 44_167, 0),
                (0, 24_167, 75_833),
            ),
            ColorBlindnessMode::Protanomaly => matrix(
                (81_667, 18_333, 0),
                (33_333, 66_667, 0),
                (0, 12_500, 87_500),
            ),
            ColorBlindnessMode::Deuteranopia => matrix(
                (62_500, 37_500, 0),
                (70_000, 30_000, 0),
                (0, 30_000, 70_000),
            ),
            ColorBlindnessMode::Deuteranomaly => matrix(
                (80_000, 20_000, 0),
                (25_833, 74_167, 0),
                (0, 14_167, 85_833),
            ),
            ColorBlindnessMode::Tritanopia => matrix(
                (95_000, 50_000, 0),
                (0, 43_333, 56_667),
                (0, 47_500, 52_500),
            ),
            ColorBlindnessMode::Tritanomaly => matrix(
                (96_667, 33_330, 0),
                (0, 73_333, 26_667),
                (0, 18_333, 81_667),
            ),
            ColorBlindnessMode::Achromatopsia => matrix(
                (29_900, 58_700, 11_400),
                (29_900, 58_700, 11_400),
                (29_900, 58_700, 11_400),
            ),
            ColorBlindnessMode::Achromatomaly => matrix(
                (61_800, 32_000, 62_000),
                (16_300, 77_500, 62_000),
                (16_300, 32_000, 51_600),
            ),
        }
    }

    /// Returns the percentages of colors to mix corresponding to each type of
    /// color blindness.
    pub fn percentages(&self) -> (r: ColorBlindnessPercentages)
        ensures
            r == self.spec_percentages(),
    {
        match self {
            ColorBlindnessMode::Normal => ColorBlindnessPercentages::new(
                MixRow::new(MIX_SCALE, 0, 0),
                MixRow::new(0, MIX_SCALE, 0),
                MixRow::new(0, 0, MIX_SCALE),
            ),
            ColorBlindnessMode::Protanopia => ColorBlindnessPercentages::new(
                MixRow::new(56_667, 43_333, 0),
                MixRow::new(55_833, 44_167, 0),
                MixRow::new(0, 24_167, 75_833),
            ),
            ColorBlindnessMode::Protanomaly => ColorBlindnessPercentages::new(
                MixRow::new(81_667, 18_333, 0),
                MixRow::new(33_333, 66_667, 0),
                MixRow::new(0, 12_500, 87_500),
            ),
            ColorBlindnessMode::Deuteranopia => ColorBlindnessPercentages::new(
                MixRow::new(62_500, 37_500, 0),
                MixRow::new(70_000, 30_000, 0),
                MixRow::new(0, 30_000, 70_000),
            ),
            ColorBlindnessMode::Deuteranomaly => ColorBlindnessPercentages::new(
                MixRow::new(80_000, 20_000, 0),
                MixRow::new(25_833, 74_167, 0),
                MixRow::new(0, 14_167, 85_833),
            ),
            ColorBlindnessMode::Tritanopia => ColorBlindnessPercentages::new(
                MixRow::new(95_000, 50_000, 0),
                MixRow::new(0, 43_333, 56_667),
                MixRow::new(0, 47_500, 52_500),
            ),
            ColorBlindnessMode::Tritanomaly => ColorBlindnessPercentages::new(
                MixRow::new(96_667, 33_330, 0),
                MixRow::new(0, 73_333, 26_667),
                MixRow::new(0, 18_333, 81_667),
            ),
            ColorBlindnessMode::Achromatopsia => ColorBlindnessPercentages::new(
                MixRow::new(29_900, 58_700, 11_400),
                MixRow::new(29_900, 58_700, 11_400),
                MixRow::new(29_900, 58_700, 11_400),
            ),
            ColorBlindnessMode::Achromatomaly => ColorBlindnessPercentages::new(
                MixRow::new(61_800, 32_000, 62_000),
                MixRow::new(16_300, 77_500, 62_000),
                MixRow::new(16_300, 32_000, 51_600),
            ),
        }
    }
}

/// Every weight of every mode's matrix lies between 0% and 100%.
pub proof fn lemma_percentages_within_unit(m: ColorBlindnessMode)
    ensures
        m.spec_percentages().within_unit(),
{
}

/// Every row of every matrix sums to 100%, so that it keeps the brightness of a
/// grey input, except for rows kept exactly as the published colorjack table gives them:
/// the red rows of `Tritanopia` and `Tritanomaly` sum to more than 100%, and of
/// `Achromatomaly` the red and green rows sum to more and the blue row to less.
pub proof fn lemma_row_sums(m: ColorBlindnessMode)
    ensures
        m != ColorBlindnessMode::Tritanopia && m != ColorBlindnessMode::Tritanomaly
            && m != ColorBlindnessMode::Achromatomaly ==> {
            &&& m.spec_percentages().red.sum() == MIX_SCALE
            &&& m.spec_percentages().green.sum() == MIX_SCALE
            &&& m.spec_percentages().blue.sum() == MIX_SCALE
        },
        m == ColorBlindnessMode::Tritanopia || m == ColorBlindnessMode::Tritanomaly ==> {
            &&& m.spec_percentages().red.sum() > MIX_SCALE
            &&& m.spec_percentages().green.sum() == MIX_SCALE
            &&& m.spec_percentages().blue.sum() == MIX_SCALE
        },
        m == ColorBlindnessMode::Achromatomaly ==> {
            &&& m.spec_percentages().red.sum() > MIX_SCALE
            &&& m.spec_percentages().green.sum() > MIX_SCALE
            &&& m.spec_percentages().blue.sum() < MIX_SCALE
        },
{
}

} // verus!
