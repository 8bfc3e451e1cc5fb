//! The random choice of a direction, and the deterministic rule behind it.

use rand::Rng;
use vstd::prelude::*;
use crate::geometry::Vector2;
use crate::model::signed;

verus! {

/// A fair coin: `rand::Rng::gen_ratio` with one chance in two, on the
/// generator that `rand::thread_rng` hands to the calling thread. Nothing is
/// claimed of the outcome, so whatever is proved of a caller holds for both.
#[verifier::external_body]
fn coin_flip() -> (heads: bool) {
    rand::thread_rng().gen_ratio(1, 2)
}

/// Sets `vec` to `(x, y)` with each component kept when its flag is set and
/// negated when it is not.
pub fn signed_vec(vec: &mut Vector2, x: i64, y: i64, keep_x: bool, keep_y: bool)
    requires
        x > i64::MIN,
        y > i64::MIN,
    ensures
        final(vec)@ == signed(x as int, y as int, keep_x, keep_y),
        final(vec).reversible(),
{
    vec.x = if keep_x { x } else { -x };
    vec.y = if keep_y { y } else { -y };
}

/// Sets `vec` to one of the four vectors `(+-x, +-y)`, each sign chosen by
/// its own toss of a fair coin.
pub fn rand_vec(vec: &mut Vector2, x: i64, y: i64)
    requires
        x > i64::MIN,
        y > i64::MIN,
    ensures
        final(vec).x == x || final(vec).x == -x,
        final(vec).y == y || final(vec).y == -y,
        final(vec).reversible(),
{
    let keep_x = coin_flip();
    let keep_y = coin_flip();
    signed_vec(vec, x, y, keep_x, keep_y);
}

} // verus!
