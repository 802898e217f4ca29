//! Scores as bit patterns of IEEE-754 binary32 numbers: their order, and the
//! search for the greatest of them.

use vstd::prelude::*;
use crate::error::ValidationError;

verus! {

/// Magnitude of the two infinities. A larger magnitude encodes a NaN.
pub const INFINITY_MAGNITUDE: u32 = 0x7f80_0000;

/// Bit patterns at or above this value carry the sign flag.
pub const SIGN_FLAG: u32 = 0x8000_0000;

/// The pattern without its sign flag: exponent and fraction read as one number.
pub open spec fn magnitude(bits: u32) -> int {
    bits as int % 0x8000_0000
}

/// Whether the pattern carries the sign flag.
pub open spec fn is_negative(bits: u32) -> bool {
    bits >= 0x8000_0000
}

/// Whether the pattern encodes a NaN: all exponent bits set, fraction not zero.
pub open spec fn is_nan(bits: u32) -> bool {
    magnitude(bits) > 0x7f80_0000
}

/// An integer that orders the patterns as the numbers they encode are ordered.
///
/// For two patterns that are not NaN, the first number is less than the second
/// exactly when its rank is smaller, and the numbers are equal exactly when the
/// ranks are (both zeros have rank 0).
pub open spec fn rank(bits: u32) -> int {
    if is_negative(bits) {
        -magnitude(bits)
    } else {
        magnitude(bits)
    }
}

/// Whether some score is a NaN.
pub open spec fn has_nan(scores: Seq<u32>) -> bool {
    exists|i: int| 0 <= i < scores.len() && is_nan(#[trigger] scores[i])
}

/// `index` is the position of the greatest score, and the first such position
/// where the greatest score occurs more than once.
pub open spec fn is_first_maximum(scores: Seq<u32>, index: int) -> bool {
    &&& 0 <= index < scores.len()
    &&& forall|j: int| 0 <= j < scores.len() ==> rank(#[trigger] scores[j]) <= rank(scores[index])
    &&& forall|j: int| 0 <= j < index ==> rank(#[trigger] scores[j]) < rank(scores[index])
}

/// Tells whether a bit pattern encodes a NaN.
pub fn score_is_nan(bits: u32) -> (r: bool)
    ensures
        r == is_nan(bits),
{
    bits % SIGN_FLAG > INFINITY_MAGNITUDE
}

/// Computes the rank of a bit pattern.
pub fn score_rank(bits: u32) -> (r: i64)
    ensures
        r == rank(bits),
{
    let m: u32 = bits % SIGN_FLAG;
    if bits >= SIGN_FLAG {
        0i64 - (m as i64)
    } else {
        m as i64
    }
}

/// Finds the greatest score and its position.
///
/// An empty vector has no maximum, and neither has one that holds a NaN. Of
/// several equal greatest scores the first is chosen.
pub fn top_score(scores: &Vec<u32>) -> (r: Result<(usize, u32), ValidationError>)
    ensures
        r == Err::<(usize, u32), ValidationError>(ValidationError::EmptyOutput) <==> scores@.len() == 0,
        r == Err::<(usize, u32), ValidationError>(ValidationError::NanScore) <==> scores@.len() > 0
            && has_nan(scores@),
        r is Ok <==> scores@.len() > 0 && !has_nan(scores@),
        r is Ok ==> is_first_maximum(scores@, r->Ok_0.0 as int) && r->Ok_0.1 == scores@[
            r->Ok_0.0 as int],
{
    let n: usize = scores.len();
    if n == 0 {
        return Err(ValidationError::EmptyOutput);
    }
    if score_is_nan(scores[0]) {
        return Err(ValidationError::NanScore);
    }
    let mut best: usize = 0;
    let mut best_rank: i64 = score_rank(scores[0]);
    let mut i: usize = 1;
    while i < n
        invariant
            n == scores@.len(),
            1 <= i <= n,
            best < i,
            best_rank == rank(scores@[best as int]),
            forall|j: int| 0 <= j < i ==> !is_nan(#[trigger] scores@[j]),
            forall|j: int| 0 <= j < i ==> rank(#[trigger] scores@[j]) <= best_rank,
            forall|j: int| 0 <= j < best ==> rank(#[trigger] scores@[j]) < best_rank,
        decreases n - i,
    {
        let bits: u32 = scores[i];
        if score_is_nan(bits) {
            return Err(ValidationError::NanScore);
        }
        let r: i64 = score_rank(bits);
        if r > best_rank {
            best = i;
            best_rank = r;
        }
        i = i + 1;
    }
    Ok((best, scores[best]))
}

/// Only one position is the first maximum of a score vector.
pub proof fn first_maximum_is_unique(scores: Seq<u32>, a: int, b: int)
    requires
        is_first_maximum(scores, a),
        is_first_maximum(scores, b),
    ensures
        a == b,
{
    if a < b {
        assert(rank(scores[a]) < rank(scores[b]));
        assert(rank(scores[b]) <= rank(scores[a]));
    } else if b < a {
        assert(rank(scores[b]) < rank(scores[a]));
        assert(rank(scores[a]) <= rank(scores[b]));
    }
}

/// Where two positions hold equal scores, the later one is never chosen.
pub proof fn tie_goes_to_lower_index(scores: Seq<u32>, low: int, high: int)
    requires
        0 <= low < high < scores.len(),
        rank(scores[low]) == rank(scores[high]),
    ensures
        !is_first_maximum(scores, high),
{
}

} // verus!
