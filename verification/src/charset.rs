//! The character sets and their cyclic order.

use vstd::prelude::*;
use vstd::string::StrSliceExecFns;

verus! {

/// A named sequence of glyphs, ordered by visual weight.
#[derive(Clone, Copy, Debug, PartialEq, Eq, Structural)]
pub enum CharSet {
    Retro,
    Default,
    Light,
    Detailed,
    Blocks,
    Binary,
    Minimalist,
    Modern,
    Slashed,
    Testing,
    Testing2,
}

/// Number of character sets.
pub const CHARSET_COUNT: usize = 11;

impl CharSet {
    /// Position of the set in the cyclic order.
    pub open spec fn ordinal(self) -> nat {
        match self {
            CharSet::Retro => 0,
            CharSet::Default => 1,
            CharSet::Light => 2,
            CharSet::Detailed => 3,
            CharSet::Blocks => 4,
            CharSet::Binary => 5,
            CharSet::Minimalist => 6,
            CharSet::Modern => 7,
            CharSet::Slashed => 8,
            CharSet::Testing => 9,
            CharSet::Testing2 => 10,
        }
    }

    /// The set at a position of the cyclic order.
    pub open spec fn from_ordinal(i: nat) -> CharSet {
        if i == 0 {
            CharSet::Retro
        } else if i == 1 {
            CharSet::Default
        } else if i == 2 {
            CharSet::Light
        } else if i == 3 {
            CharSet::Detailed
        } else if i == 4 {
            CharSet::Blocks
        } else if i == 5 {
            CharSet::Binary
        } else if i == 6 {
            CharSet::Minimalist
        } else if i == 7 {
            CharSet::Modern
        } else if i == 8 {
            CharSet::Slashed
        } else if i == 9 {
            CharSet::Testing
        } else {
            CharSet::Testing2
        }
    }

    /// The set that follows `self`.
    pub open spec fn successor(self) -> CharSet {
        CharSet::from_ordinal((self.ordinal() + 1) % (CHARSET_COUNT as nat))
    }

    /// The glyphs of the set.
    pub open spec fn glyphs(self) -> Seq<char> {
        match self {
            CharSet::Retro => " ░▒▓█"@,
            CharSet::Default => "@%#*+=-:."@,
            CharSet::Testing => "0O|"@,
            CharSet::Light => " .`'\",:;Il!i><~+_-?][}{1)(|\\/tfjrxnuvczXYUJCLQ0OZmwqpdbkhao*#MW&8%B@$"@,
            CharSet::Blocks => " ▏▎▍▌▋▊▉█"@,
            CharSet::Binary => "01"@,
            CharSet::Minimalist => " .·+"@,
            CharSet::Modern => " .:-=+*#%@"@,
            CharSet::Slashed => " /\\|"@,
            CharSet::Testing2 => "01"@,
            CharSet::Detailed => "$@B%8&WM #*oahkbdpqwmZO0QLCJUYXzcvunxrjft/()1{}[]?-_+~<>i!lI;:,"@,
        }
    }

    /// The set that is reached from `self` in `steps` steps.
    pub open spec fn advanced(self, steps: nat) -> CharSet
        decreases steps,
    {
        if steps == 0 {
            self
        } else {
            self.advanced((steps - 1) as nat).successor()
        }
    }

    /// The set that follows `self`; the last is followed by the first.
    pub fn next(&self) -> (r: CharSet)
        ensures
            r == self.successor(),
            r.ordinal() == (self.ordinal() + 1) % (CHARSET_COUNT as nat),
    {
        match self {
            CharSet::Retro => CharSet::Default,
            CharSet::Default => CharSet::Light,
            CharSet::Light => CharSet::Detailed,
            CharSet::Detailed => CharSet::Blocks,
            CharSet::Blocks => CharSet::Binary,
            CharSet::Binary => CharSet::Minimalist,
            CharSet::Minimalist => CharSet::Modern,
            CharSet::Modern => CharSet::Slashed,
            CharSet::Slashed => CharSet::Testing,
            CharSet::Testing => CharSet::Testing2,
            CharSet::Testing2 => CharSet::Retro,
        }
    }

    /// The glyphs of the set as a string.
    pub fn get_chars(&self) -> (s: &'static str)
        ensures
            s@ == self.glyphs(),
            s@.len() >= 1,
    {
        proof {
            lemma_glyphs_nonempty(*self);
        }
        match self {
            CharSet::Retro => " ░▒▓█",
            CharSet::Default => "@%#*+=-:.",
            CharSet::Testing => "0O|",
            CharSet::Light => " .`'\",:;Il!i><~+_-?][}{1)(|\\/tfjrxnuvczXYUJCLQ0OZmwqpdbkhao*#MW&8%B@$",
            CharSet::Blocks => " ▏▎▍▌▋▊▉█",
            CharSet::Binary => "01",
            CharSet::Minimalist => " .·+",
            CharSet::Modern => " .:-=+*#%@",
            CharSet::Slashed => " /\\|",
            CharSet::Testing2 => "01",
            CharSet::Detailed => "$@B%8&WM #*oahkbdpqwmZO0QLCJUYXzcvunxrjft/()1{}[]?-_+~<>i!lI;:,",
        }
    }
}

impl Default for CharSet {
    /// The set that a session uses where none is named.
    fn default() -> (set: CharSet)
        ensures
            set == CharSet::Default,
    {
        CharSet::Default
    }
}

/// Every character set holds at least one glyph.
pub proof fn lemma_glyphs_nonempty(set: CharSet)
    ensures
        set.glyphs().len() >= 1,
{
    reveal_strlit(" ░▒▓█");
    reveal_strlit("@%#*+=-:.");
    reveal_strlit("0O|");
    reveal_strlit(" .`'\",:;Il!i><~+_-?][}{1)(|\\/tfjrxnuvczXYUJCLQ0OZmwqpdbkhao*#MW&8%B@$");
    reveal_strlit(" ▏▎▍▌▋▊▉█");
    reveal_strlit("01");
    reveal_strlit(" .·+");
    reveal_strlit(" .:-=+*#%@");
    reveal_strlit(" /\\|");
    reveal_strlit("$@B%8&WM #*oahkbdpqwmZO0QLCJUYXzcvunxrjft/()1{}[]?-_+~<>i!lI;:,");
}

/// A set is known by its position in the cyclic order.
pub proof fn lemma_charset_ordinal(set: CharSet)
    ensures
        set.ordinal() < CHARSET_COUNT,
        CharSet::from_ordinal(set.ordinal()) == set,
{
}

/// `steps` steps move a set by `steps` positions around the cycle.
pub proof fn lemma_charset_advanced(set: CharSet, steps: nat)
    ensures
        set.advanced(steps).ordinal() == (set.ordinal() + steps) % (CHARSET_COUNT as nat),
    decreases steps,
{
    if steps > 0 {
        lemma_charset_advanced(set, (steps - 1) as nat);
    }
}

/// The cyclic order passes through every set before it comes back: as many
/// steps as there are sets lead from a set back to itself, and fewer steps
/// lead elsewhere.
pub proof fn lemma_charset_cycle(set: CharSet)
    ensures
        set.advanced(CHARSET_COUNT as nat) == set,
        forall|k: nat| 0 < k < CHARSET_COUNT ==> #[trigger] set.advanced(k) != set,
{
    lemma_charset_advanced(set, CHARSET_COUNT as nat);
    lemma_charset_ordinal(set);
    lemma_charset_ordinal(set.advanced(CHARSET_COUNT as nat));
    assert forall|k: nat| 0 < k < CHARSET_COUNT implies #[trigger] set.advanced(k) != set by {
        lemma_charset_advanced(set, k);
    }
}

/// Every set is reached from every other within fewer steps than there
/// are sets.
pub proof fn lemma_charset_reached(set: CharSet, other: CharSet)
    ensures
        exists|k: nat| k < CHARSET_COUNT && #[trigger] set.advanced(k) == other,
{
    let k: nat = ((other.ordinal() + CHARSET_COUNT - set.ordinal()) % (CHARSET_COUNT as int))
        as nat;
    lemma_charset_advanced(set, k);
    lemma_charset_ordinal(other);
    lemma_charset_ordinal(set.advanced(k));
    assert(set.advanced(k) == other);
}

/// The characters of a string, in order.
pub fn chars_of(s: &str) -> (v: Vec<char>)
    ensures
        v@ == s@,
{
    let n: usize = s.unicode_len();
    let mut v: Vec<char> = Vec::new();
    let mut i: usize = 0;
    while i < n
        invariant
            n == s@.len(),
            i <= n,
            v@ == s@.subrange(0, i as int),
        decreases n - i,
    {
        v.push(s.get_char(i));
        i += 1;
    }
    v
}

} // verus!
