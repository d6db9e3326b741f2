//! The energy rule of a hopper. Energy is counted in tenths of a unit, so
//! that every quantity of the rule is a whole number.

use vstd::prelude::*;

verus! {

/// Energy of a hopper placed at the start of a run.
pub const STARTING_BELLY: i64 = 800;

/// Energy of a newborn hopper.
pub const NEWBORN_BELLY: i64 = 300;

/// Energy gained from one blade of grass.
pub const GRASS_ENERGY: i64 = 400;

/// Energy burnt in every frame.
pub const UPKEEP: i64 = 2;

/// A hopper above this much energy gives birth; at or above it, it is not
/// pink at all.
pub const FULL_BELLY: i64 = 1000;

/// Energy that a birth costs the parent.
pub const BIRTH_COST: i64 = 600;

/// Young born at one birth.
pub const LITTER_SIZE: u32 = 2;

/// Largest energy, in either sign, that the rule accepts.
pub const BELLY_LIMIT: i64 = 1_000_000_000_000_000_000;

/// What became of a hopper in one frame.
#[derive(Clone, Copy, Debug, PartialEq, Eq)]
pub enum Fate {
    /// Its energy fell below zero: it leaves the field.
    Starved,
    /// It lives on with `belly` energy. `pinkness` is the share, in
    /// thousandths, of green and blue in its colour; `offspring` young are
    /// born beside it.
    Lives { belly: i64, pinkness: i64, offspring: u32 },
}

/// Energy after eating `eaten` blades of grass and paying for the frame.
pub open spec fn fed(belly: int, eaten: int) -> int {
    belly + GRASS_ENERGY * eaten - UPKEEP
}

/// Pinkness, in thousandths, of a hopper with `belly` energy: none when full,
/// all when empty, linear in between.
pub open spec fn pinkness_of(belly: int) -> int {
    if belly >= FULL_BELLY {
        0
    } else {
        FULL_BELLY - belly
    }
}

/// `f` is what becomes of a hopper with `belly` energy that eats `eaten`
/// blades of grass in a frame.
pub open spec fn is_fate(f: Fate, belly: int, eaten: int) -> bool {
    let b = fed(belly, eaten);
    if b < 0 {
        f is Starved
    } else if b > FULL_BELLY {
        f matches Fate::Lives { belly: nb, pinkness: p, offspring: o }
            && nb == b - BIRTH_COST && p == 0 && o == LITTER_SIZE
    } else {
        f matches Fate::Lives { belly: nb, pinkness: p, offspring: o }
            && nb == b && p == pinkness_of(b) && o == 0
    }
}

/// One frame of a hopper's life: it gains the energy of what it ate, pays
/// its upkeep, starves below zero, and above a full belly gives birth.
pub fn digest(belly: i64, eaten: u32) -> (r: Fate)
    requires
        -BELLY_LIMIT <= belly <= BELLY_LIMIT,
    ensures
        is_fate(r, belly as int, eaten as int),
{
    let b: i64 = belly + GRASS_ENERGY * (eaten as i64) - UPKEEP;
    if b < 0 {
        Fate::Starved
    } else if b > FULL_BELLY {
        Fate::Lives { belly: b - BIRTH_COST, pinkness: 0, offspring: LITTER_SIZE }
    } else {
        Fate::Lives { belly: b, pinkness: FULL_BELLY - b, offspring: 0 }
    }
}

} // verus!
