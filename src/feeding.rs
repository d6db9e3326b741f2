//! The eating scan of one frame: every hopper eats every blade of grass it
//! touches, and a blade that any hopper touched is gone afterwards.

use vstd::prelude::*;
use crate::belly::{digest, is_fate, Fate, BELLY_LIMIT};

verus! {

/// Number of `true` entries in `s`.
pub open spec fn count_true(s: Seq<bool>) -> int
    decreases s.len(),
{
    if s.len() == 0 {
        0
    } else {
        count_true(s.drop_last()) + if s.last() { 1int } else { 0int }
    }
}

/// What one frame of eating leaves behind.
pub struct Meal {
    /// The fate of each hopper, in the order the hoppers were given.
    pub fates: Vec<Fate>,
    /// For each blade of grass, whether it was eaten.
    pub eaten: Vec<bool>,
}

/// The rows of `touching` say, for each hopper, which of `grass_count`
/// blades it touches.
pub open spec fn is_contact_table(touching: Seq<Vec<bool>>, grass_count: int) -> bool {
    forall|i: int| 0 <= i < touching.len() ==> #[trigger] touching[i]@.len() == grass_count
}

/// Counts the blades that one hopper touches.
pub fn blades_touched(row: &Vec<bool>) -> (n: u32)
    requires
        row@.len() <= u32::MAX,
    ensures
        n == count_true(row@),
{
    let mut n: u32 = 0;
    let mut j: usize = 0;
    while j < row.len()
        invariant
            j <= row@.len() <= u32::MAX,
            n <= j,
            n == count_true(row@.subrange(0, j as int)),
        decreases row@.len() - j,
    {
        proof {
            let s = row@.subrange(0, j as int + 1);
            assert(s.drop_last() =~= row@.subrange(0, j as int));
        }
        if row[j] {
            n = n + 1;
        }
        j = j + 1;
    }
    assert(row@.subrange(0, j as int) =~= row@);
    n
}

/// One frame of eating. `bellies[i]` is the energy of hopper `i`, and
/// `touching[i][j]` says whether it touches blade `j`. Each hopper gains
/// the energy of every blade it touches, also of a blade that another
/// hopper touches too, and then meets its fate; a touched blade is eaten.
pub fn eating_round(bellies: &Vec<i64>, touching: &Vec<Vec<bool>>, grass_count: usize) -> (r: Meal)
    requires
        bellies@.len() == touching@.len(),
        grass_count <= u32::MAX,
        is_contact_table(touching@, grass_count as int),
        forall|i: int| 0 <= i < bellies@.len() ==> -BELLY_LIMIT <= #[trigger] bellies@[i] <= BELLY_LIMIT,
    ensures
        r.fates@.len() == bellies@.len(),
        forall|i: int| 0 <= i < bellies@.len()
            ==> is_fate(#[trigger] r.fates@[i], bellies@[i] as int, count_true(touching@[i]@)),
        r.eaten@.len() == grass_count,
        forall|j: int| 0 <= j < grass_count
            ==> (#[trigger] r.eaten@[j] <==> exists|i: int| 0 <= i < touching@.len() && touching@[i]@[j]),
{
    let mut eaten: Vec<bool> = Vec::new();
    let mut k: usize = 0;
    while k < grass_count
        invariant
            k <= grass_count,
            eaten@.len() == k,
            forall|j: int| 0 <= j < k ==> !eaten@[j],
        decreases grass_count - k,
    {
        eaten.push(false);
        k = k + 1;
    }
    let mut fates: Vec<Fate> = Vec::new();
    let mut i: usize = 0;
    while i < bellies.len()
        invariant
            i <= bellies@.len() == touching@.len(),
            grass_count <= u32::MAX,
            is_contact_table(touching@, grass_count as int),
            forall|h: int| 0 <= h < bellies@.len() ==> -BELLY_LIMIT <= #[trigger] bellies@[h] <= BELLY_LIMIT,
            fates@.len() == i,
            forall|h: int| 0 <= h < i
                ==> is_fate(#[trigger] fates@[h], bellies@[h] as int, count_true(touching@[h]@)),
            eaten@.len() == grass_count,
            forall|j: int| 0 <= j < grass_count
                ==> (#[trigger] eaten@[j] <==> exists|h: int| 0 <= h < i && touching@[h]@[j]),
        decreases bellies@.len() - i,
    {
        let row = &touching[i];
        assert(row@.len() == grass_count);
        let mut j: usize = 0;
        while j < grass_count
            invariant
                i < touching@.len(),
                row == touching@[i as int],
                row@.len() == grass_count,
                j <= grass_count,
                eaten@.len() == grass_count,
                forall|g: int| 0 <= g < j
                    ==> (#[trigger] eaten@[g] <==> exists|h: int| 0 <= h <= i && touching@[h]@[g]),
                forall|g: int| j <= g < grass_count
                    ==> (#[trigger] eaten@[g] <==> exists|h: int| 0 <= h < i && touching@[h]@[g]),
            decreases grass_count - j,
        {
            if row[j] {
                eaten.set(j, true);
            }
            proof {
                let g = j as int;
                if eaten@[g] {
                    if !row@[g] {
                        let h = choose|h: int| 0 <= h < i && touching@[h]@[g];
                        assert(0 <= h <= i && touching@[h]@[g]);
                    }
                } else {
                    assert forall|h: int| 0 <= h <= i implies !touching@[h]@[g] by {
                        if h == i as int {
                        } else {
                            assert(!(0 <= h < i && touching@[h]@[g]));
                        }
                    }
                }
            }
            j = j + 1;
        }
        let n = blades_touched(row);
        let fate = digest(bellies[i], n);
        fates.push(fate);
        i = i + 1;
    }
    Meal { fates, eaten }
}

} // verus!
