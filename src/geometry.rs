use vstd::prelude::*;

verus! {

/// The corners of the unrotated mirror, as signs of the half-diagonal length on each
/// axis: a square in the horizontal plane whose height alternates from corner to
/// corner, so that the facet is tilted against the rotation axis.
pub open spec fn mirror_signs_spec() -> Seq<(i8, i8, i8)> {
    seq![(1i8, 1i8, -1i8), (-1i8, 1i8, 1i8), (-1i8, -1i8, 1i8), (1i8, -1i8, -1i8)]
}

/// The corners of a screen quad: which end of the screen's line segment each corner
/// stands on (0 or 1), and whether it is at the bottom (-1) or the top (1).
pub open spec fn screen_corners_spec() -> Seq<(usize, i8)> {
    seq![(0usize, -1i8), (0usize, 1i8), (1usize, 1i8), (1usize, -1i8)]
}

/// Number of fixed screens.
pub const SCREEN_COUNT: usize = 3;

/// The corner signs of the unrotated mirror, in drawing order.
pub fn mirror_corner_signs() -> (r: [(i8, i8, i8); 4])
    ensures
        r@ == mirror_signs_spec(),
{
    let r = [(1i8, 1i8, -1i8), (-1i8, 1i8, 1i8), (-1i8, -1i8, 1i8), (1i8, -1i8, -1i8)];
    proof {
        assert(r@ =~= mirror_signs_spec());
    }
    r
}

/// The corners of a screen quad, in drawing order.
pub fn screen_corners() -> (r: [(usize, i8); 4])
    ensures
        r@ == screen_corners_spec(),
{
    let r = [(0usize, -1i8), (0usize, 1i8), (1usize, 1i8), (1usize, -1i8)];
    proof {
        assert(r@ =~= screen_corners_spec());
    }
    r
}

/// The mirror is a tilted square: opposite corners are horizontally opposite each
/// other, corners 0 and 3 are low and corners 1 and 2 are high.
pub proof fn lemma_mirror_tilt()
    ensures
        ({
            let s = mirror_signs_spec();
            &&& s[0].2 == s[3].2 && s[1].2 == s[2].2
            &&& s[0].2 < 0 && s[1].2 > 0
            &&& s[0].0 == -s[2].0 && s[0].1 == -s[2].1
            &&& s[1].0 == -s[3].0 && s[1].1 == -s[3].1
        }),
{
    let s = mirror_signs_spec();
    assert(s[0] == (1i8, 1i8, -1i8));
    assert(s[1] == (-1i8, 1i8, 1i8));
    assert(s[2] == (-1i8, -1i8, 1i8));
    assert(s[3] == (1i8, -1i8, -1i8));
}

} // verus!
