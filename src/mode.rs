use vstd::arithmetic::div_mod::lemma_add_mod_noop;
use vstd::prelude::*;

verus! {

/// Number of simulation modes; [`ColorBlindnessMode::cycle`] walks through all of them.
pub const MODE_COUNT: u32 = 9;

/// The different modes of color blindness simulation supported.
#[derive(Clone, Copy, Debug, PartialEq, Eq, Structural)]
pub enum ColorBlindnessMode {
    /// Normal full color vision.
    Normal,
    /// Inability to differentiate between green and red.
    Protanopia,
    /// Condition where red looks more green.
    Protanomaly,
    /// Inability to differentiate between green and red.
    Deuteranopia,
    /// Condition where green looks more red.
    Deuteranomaly,
    /// Inability to differentiate between blue and green, purple and red, and yellow and pink.
    Tritanopia,
    /// Difficulty differentiating between blue and green, and between yellow and red.
    Tritanomaly,
    /// Absence of color discrimination.
    Achromatopsia,
    /// All color cones have some form of deficiency.
    ///
    /// This is an extrapolation of the other modes rather than a condition documented
    /// in the literature; it is kept for completeness.
    Achromatomaly,
}

impl ColorBlindnessMode {
    /// Position of the mode in the cycling order, starting at `Normal`.
    pub open spec fn index(self) -> int {
        match self {
            ColorBlindnessMode::Normal => 0,
            ColorBlindnessMode::Protanopia => 1,
            ColorBlindnessMode::Protanomaly => 2,
            ColorBlindnessMode::Deuteranopia => 3,
            ColorBlindnessMode::Deuteranomaly => 4,
            ColorBlindnessMode::Tritanopia => 5,
            ColorBlindnessMode::Tritanomaly => 6,
            ColorBlindnessMode::Achromatopsia => 7,
            ColorBlindnessMode::Achromatomaly => 8,
        }
    }

    /// The mode at position `i` of the cycling order (taken modulo the number of modes).
    pub open spec fn from_index(i: int) -> ColorBlindnessMode {
        let k = i % (MODE_COUNT as int);
        if k == 0 {
            ColorBlindnessMode::Normal
        } else if k == 1 {
            ColorBlindnessMode::Protanopia
        } else if k == 2 {
            ColorBlindnessMode::Protanomaly
        } else if k == 3 {
            ColorBlindnessMode::Deuteranopia
        } else if k == 4 {
            ColorBlindnessMode::Deuteranomaly
        } else if k == 5 {
            ColorBlindnessMode::Tritanopia
        } else if k == 6 {
            ColorBlindnessMode::Tritanomaly
        } else if k == 7 {
            ColorBlindnessMode::Achromatopsia
        } else {
            ColorBlindnessMode::Achromatomaly
        }
    }

    /// The successor in the cycling order: the mode one position further, wrapping
    /// from the last mode back to `Normal`.
    pub open spec fn next(self) -> ColorBlindnessMode {
        ColorBlindnessMode::from_index(self.index() + 1)
    }

    /// The mode reached from `self` after `n` steps of cycling.
    pub open spec fn cycled(self, n: nat) -> ColorBlindnessMode
        decreases n,
    {
        if n == 0 {
            self
        } else {
            self.cycled((n - 1) as nat).next()
        }
    }

    /// Changes `self` to the next `ColorBlindnessMode` in the cycling order.
    pub fn cycle(&mut self)
        ensures
            *final(self) == old(self).next(),
            final(self).index() == (old(self).index() + 1) % (MODE_COUNT as int),
    {
        *self = match self {
            ColorBlindnessMode::Normal => ColorBlindnessMode::Protanopia,
            ColorBlindnessMode::Protanopia => ColorBlindnessMode::Protanomaly,
            ColorBlindnessMode::Protanomaly => ColorBlindnessMode::Deuteranopia,
            ColorBlindnessMode::Deuteranopia => ColorBlindnessMode::Deuteranomaly,
            ColorBlindnessMode::Deuteranomaly => ColorBlindnessMode::Tritanopia,
            ColorBlindnessMode::Tritanopia => ColorBlindnessMode::Tritanomaly,
            ColorBlindnessMode::Tritanomaly => ColorBlindnessMode::Achromatopsia,
            ColorBlindnessMode::Achromatopsia => ColorBlindnessMode::Achromatomaly,
            ColorBlindnessMode::Achromatomaly => ColorBlindnessMode::Normal,
        };
    }
}

impl Default for ColorBlindnessMode {
    /// `Normal`, full color vision.
    fn default() -> (r: Self)
        ensures
            r == ColorBlindnessMode::Normal,
    {
        ColorBlindnessMode::Normal
    }
}

/// Each mode sits at a position of its own in the cycling order, and that position
/// leads back to it.
pub proof fn lemma_index_identifies_mode(m: ColorBlindnessMode)
    ensures
        0 <= m.index() < MODE_COUNT,
        ColorBlindnessMode::from_index(m.index()) == m,
        forall|o: ColorBlindnessMode| #[trigger] o.index() == m.index() ==> o == m,
{
}

/// The position of `from_index(i)` is `i` taken modulo the number of modes.
proof fn lemma_from_index_position(i: int)
    ensures
        ColorBlindnessMode::from_index(i).index() == i % (MODE_COUNT as int),
{
}

/// Cycling `n` times moves `n` positions forward, modulo the number of modes.
pub proof fn lemma_cycled_index(m: ColorBlindnessMode, n: nat)
    ensures
        m.cycled(n).index() == (m.index() + n) % (MODE_COUNT as int),
    decreases n,
{
    lemma_index_identifies_mode(m);
    if n > 0 {
        let k = (n - 1) as nat;
        lemma_cycled_index(m, k);
        lemma_from_index_position(m.cycled(k).index() + 1);
        lemma_add_mod_noop(m.index() + k, 1, MODE_COUNT as int);
    }
}

/// Cycling is a single loop through every mode: after exactly `MODE_COUNT` steps
/// any mode comes back to itself, and after any smaller positive number of steps
/// it has not.
pub proof fn lemma_cycle_period(m: ColorBlindnessMode)
    ensures
        m.cycled(MODE_COUNT as nat) == m,
        forall|n: nat| 0 < n < MODE_COUNT ==> #[trigger] m.cycled(n) != m,
{
    lemma_index_identifies_mode(m);
    lemma_cycled_index(m, MODE_COUNT as nat);
    lemma_index_identifies_mode(m.cycled(MODE_COUNT as nat));
    assert forall|n: nat| 0 < n < MODE_COUNT implies #[trigger] m.cycled(n) != m by {
        lemma_cycled_index(m, n);
    }
}

} // verus!
