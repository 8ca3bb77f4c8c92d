//! The dice source: uniform die rolls, returned as a batch sorted in
//! descending order.

use vstd::prelude::*;

verus! {

/// All values of `s` lie in `[0, sides)`.
pub open spec fn all_in_range(s: Seq<i32>, sides: int) -> bool {
    forall|i: int| 0 <= i < s.len() ==> 0 <= #[trigger] s[i] < sides
}

/// `s` is sorted in descending order.
pub open spec fn sorted_desc(s: Seq<i32>) -> bool {
    forall|i: int, j: int| 0 <= i <= j < s.len() ==> #[trigger] s[i] >= #[trigger] s[j]
}

/// Relies on rand::random_range: a draw from the thread-local generator,
/// uniform over `0..sides`; it panics only on an empty range, which the
/// precondition rules out.
#[verifier::external_body]
fn roll_die(sides: i32) -> (r: i32)
    requires
        sides > 0,
    ensures
        0 <= r < sides,
{
    rand::random_range(0..sides)
}

/// Draws `count` independent dice with `sides` sides and returns them in
/// descending order. A non-positive `count` yields an empty batch.
pub fn get_dice(count: i32, sides: i32) -> (r: Vec<i32>)
    requires
        sides > 0,
    ensures
        r@.len() == if count >= 0 { count as int } else { 0 },
        all_in_range(r@, sides as int),
        sorted_desc(r@),
{
    let n: i32 = if count > 0 {
        count
    } else {
        0
    };
    let mut v: Vec<i32> = Vec::new();
    let mut k: i32 = 0;
    while k < n
        invariant
            0 <= k <= n,
            sides > 0,
            v@.len() == k as int,
            all_in_range(v@, sides as int),
            sorted_desc(v@),
        decreases n - k,
    {
        let d = roll_die(sides);
        let ghost s0 = v@;
        let mut j: usize = 0;
        while j < v.len() && v[j] >= d
            invariant
                0 <= j <= v@.len(),
                v@ == s0,
                forall|i: int| 0 <= i < j ==> #[trigger] s0[i] >= d,
            decreases v@.len() - j,
        {
            j = j + 1;
        }
        v.insert(j, d);
        proof {
            assert forall|a: int, b: int| 0 <= a <= b < v@.len() implies #[trigger] v@[a]
                >= #[trigger] v@[b] by {
                if a < j && b >= j + 1 {
                    assert(s0[b - 1] <= s0[j as int]);
                }
                if a == j && b >= j + 1 {
                    assert(s0[b - 1] <= s0[j as int]);
                }
            }
        }
        k = k + 1;
    }
    v
}

} // verus!
