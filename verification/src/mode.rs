//! The colour modes and their cyclic order.

use vstd::prelude::*;

verus! {

/// How a sample is turned into a display colour.
#[derive(Clone, Copy, Debug, PartialEq, Eq, Structural)]
pub enum ArtMode {
    /// The sample's own colour.
    Standard,
    /// Shades of grey.
    Grayscale,
    /// Shades of green.
    Matrix,
    /// Heat map from blue to red.
    Thermal,
    /// Amber monochrome.
    Amber,
    /// Purple, pink and cyan bands.
    Neon,
    /// Hue that moves with position and time.
    Rainbow,
    /// Four fixed colours.
    Cga,
    /// Random artifacts.
    Glitch,
}

/// Number of colour modes.
pub const MODE_COUNT: usize = 9;

impl ArtMode {
    /// Position of the mode in the cyclic order.
    pub open spec fn ordinal(self) -> nat {
        match self {
            ArtMode::Standard => 0,
            ArtMode::Grayscale => 1,
            ArtMode::Matrix => 2,
            ArtMode::Thermal => 3,
            ArtMode::Amber => 4,
            ArtMode::Neon => 5,
            ArtMode::Rainbow => 6,
            ArtMode::Cga => 7,
            ArtMode::Glitch => 8,
        }
    }

    /// The mode at a position of the cyclic order.
    pub open spec fn from_ordinal(i: nat) -> ArtMode {
        if i == 0 {
            ArtMode::Standard
        } else if i == 1 {
            ArtMode::Grayscale
        } else if i == 2 {
            ArtMode::Matrix
        } else if i == 3 {
            ArtMode::Thermal
        } else if i == 4 {
            ArtMode::Amber
        } else if i == 5 {
            ArtMode::Neon
        } else if i == 6 {
            ArtMode::Rainbow
        } else if i == 7 {
            ArtMode::Cga
        } else {
            ArtMode::Glitch
        }
    }

    /// The mode that follows `self`.
    pub open spec fn successor(self) -> ArtMode {
        ArtMode::from_ordinal((self.ordinal() + 1) % (MODE_COUNT as nat))
    }

    /// The mode that is reached from `self` in `steps` steps.
    pub open spec fn advanced(self, steps: nat) -> ArtMode
        decreases steps,
    {
        if steps == 0 {
            self
        } else {
            self.advanced((steps - 1) as nat).successor()
        }
    }

    /// The mode that follows `self`; the last is followed by the first.
    pub fn next(&self) -> (r: ArtMode)
        ensures
            r == self.successor(),
            r.ordinal() == (self.ordinal() + 1) % (MODE_COUNT as nat),
    {
        match self {
            ArtMode::Standard => ArtMode::Grayscale,
            ArtMode::Grayscale => ArtMode::Matrix,
            ArtMode::Matrix => ArtMode::Thermal,
            ArtMode::Thermal => ArtMode::Amber,
            ArtMode::Amber => ArtMode::Neon,
            ArtMode::Neon => ArtMode::Rainbow,
            ArtMode::Rainbow => ArtMode::Cga,
            ArtMode::Cga => ArtMode::Glitch,
            ArtMode::Glitch => ArtMode::Standard,
        }
    }
}

impl Default for ArtMode {
    /// The mode that a session uses where none is named.
    fn default() -> (mode: ArtMode)
        ensures
            mode == ArtMode::Standard,
    {
        ArtMode::Standard
    }
}

/// A mode is known by its position in the cyclic order.
pub proof fn lemma_mode_ordinal(mode: ArtMode)
    ensures
        mode.ordinal() < MODE_COUNT,
        ArtMode::from_ordinal(mode.ordinal()) == mode,
{
}

/// `steps` steps move a mode by `steps` positions around the cycle.
pub proof fn lemma_mode_advanced(mode: ArtMode, steps: nat)
    ensures
        mode.advanced(steps).ordinal() == (mode.ordinal() + steps) % (MODE_COUNT as nat),
    decreases steps,
{
    if steps > 0 {
        lemma_mode_advanced(mode, (steps - 1) as nat);
    }
}

/// The cyclic order passes through every mode before it comes back: as many
/// steps as there are modes lead from a mode back to itself, and fewer
/// steps lead elsewhere.
pub proof fn lemma_mode_cycle(mode: ArtMode)
    ensures
        mode.advanced(MODE_COUNT as nat) == mode,
        forall|k: nat| 0 < k < MODE_COUNT ==> #[trigger] mode.advanced(k) != mode,
{
    lemma_mode_advanced(mode, MODE_COUNT as nat);
    lemma_mode_ordinal(mode);
    lemma_mode_ordinal(mode.advanced(MODE_COUNT as nat));
    assert forall|k: nat| 0 < k < MODE_COUNT implies #[trigger] mode.advanced(k) != mode by {
        lemma_mode_advanced(mode, k);
    }
}

/// Every mode is reached from every other within fewer steps than there
/// are modes.
pub proof fn lemma_mode_reached(mode: ArtMode, other: ArtMode)
    ensures
        exists|k: nat| k < MODE_COUNT && #[trigger] mode.advanced(k) == other,
{
    let k: nat = ((other.ordinal() + MODE_COUNT - mode.ordinal()) % (MODE_COUNT as int)) as nat;
    lemma_mode_advanced(mode, k);
    lemma_mode_ordinal(other);
    lemma_mode_ordinal(mode.advanced(k));
    assert(mode.advanced(k) == other);
}

} // verus!
