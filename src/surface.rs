use vstd::prelude::*;

verus! {

/// Number of columns along each side of the test grid.
pub const GRID_SIZE: u32 = 64;

/// Grid coordinate of the pyramid's apex along each axis.
pub const CENTER: i32 = 32;

/// Height of the pyramid's apex.
pub const APEX_HEIGHT: i32 = 32;

/// Color code of the quadrant where both offsets are non-negative.
pub const COLOR_POS_POS: u32 = 0b111;

/// Color code of the quadrant where only the `y` offset is non-negative.
pub const COLOR_NEG_POS: u32 = 0b001;

/// Color code of the quadrant where both offsets are negative.
pub const COLOR_NEG_NEG: u32 = 0b010;

/// Color code of the quadrant where only the `x` offset is non-negative.
pub const COLOR_POS_NEG: u32 = 0b101;

/// One column of the test volume: its grid position, height and 3-bit color.
#[derive(Clone, Copy, Debug, PartialEq, Eq, Structural)]
pub struct Voxel {
    pub x: u32,
    pub y: u32,
    pub z: u32,
    pub color: u32,
}

/// Quadrant of a column relative to the apex; an offset of zero counts as non-negative.
#[derive(Clone, Copy, Debug, PartialEq, Eq, Structural)]
pub enum Quadrant {
    PosPos,
    NegPos,
    NegNeg,
    PosNeg,
}

/// Absolute value of an integer.
pub open spec fn abs_int(v: int) -> int {
    if v < 0 { -v } else { v }
}

/// Height of the pyramid over the column at offsets `(xi, yi)` from the apex;
/// negative outside the pyramid's base.
pub open spec fn pyramid_height(xi: int, yi: int) -> int {
    APEX_HEIGHT - (abs_int(xi) + abs_int(yi))
}

/// The quadrant of offsets `(xi, yi)`.
pub open spec fn quadrant_of(xi: int, yi: int) -> Quadrant {
    if xi >= 0 && yi >= 0 {
        Quadrant::PosPos
    } else if xi < 0 && yi >= 0 {
        Quadrant::NegPos
    } else if xi < 0 && yi < 0 {
        Quadrant::NegNeg
    } else {
        Quadrant::PosNeg
    }
}

/// The color code that a quadrant is painted with.
pub open spec fn color_of(q: Quadrant) -> u32 {
    match q {
        Quadrant::PosPos => COLOR_POS_POS,
        Quadrant::NegPos => COLOR_NEG_POS,
        Quadrant::NegNeg => COLOR_NEG_NEG,
        Quadrant::PosNeg => COLOR_POS_NEG,
    }
}

/// The voxel of grid column `(x, y)`, meaningful where its height is non-negative.
pub open spec fn voxel_spec(x: int, y: int) -> Voxel {
    Voxel {
        x: x as u32,
        y: y as u32,
        z: pyramid_height(x - CENTER, y - CENTER) as u32,
        color: color_of(quadrant_of(x - CENTER, y - CENTER)),
    }
}

/// Whether grid column `(x, y)` lies on the pyramid's base.
pub open spec fn in_pyramid(x: int, y: int) -> bool {
    pyramid_height(x - CENTER, y - CENTER) >= 0
}

/// The voxels of the first `k` columns of the grid, taken row by row
/// (column `k` is `(k / GRID_SIZE, k % GRID_SIZE)`), skipping columns off the base.
pub open spec fn pyramid_prefix(k: nat) -> Seq<Voxel>
    decreases k,
{
    if k == 0 {
        Seq::empty()
    } else {
        let c = (k - 1) as nat;
        let x = c as int / GRID_SIZE as int;
        let y = c as int % GRID_SIZE as int;
        if in_pyramid(x, y) {
            pyramid_prefix(c).push(voxel_spec(x, y))
        } else {
            pyramid_prefix(c)
        }
    }
}

/// The whole test volume.
pub open spec fn pyramid_surface() -> Seq<Voxel> {
    pyramid_prefix((GRID_SIZE * GRID_SIZE) as nat)
}

/// Classifies offsets from the apex into their quadrant, zero counting as non-negative.
pub fn classify_quadrant(xi: i32, yi: i32) -> (r: Quadrant)
    ensures
        r == quadrant_of(xi as int, yi as int),
{
    match (xi >= 0, yi >= 0) {
        (true, true) => Quadrant::PosPos,
        (false, true) => Quadrant::NegPos,
        (false, false) => Quadrant::NegNeg,
        (true, false) => Quadrant::PosNeg,
    }
}

/// The color code of a quadrant.
pub fn quadrant_color(q: Quadrant) -> (r: u32)
    ensures
        r == color_of(q),
{
    match q {
        Quadrant::PosPos => COLOR_POS_POS,
        Quadrant::NegPos => COLOR_NEG_POS,
        Quadrant::NegNeg => COLOR_NEG_NEG,
        Quadrant::PosNeg => COLOR_POS_NEG,
    }
}

/// Absolute value of a machine integer.
pub fn abs_i32(v: i32) -> (r: i32)
    requires
        v > i32::MIN,
    ensures
        r == abs_int(v as int),
{
    if v < 0 { -v } else { v }
}

/// The voxel of grid column `(x, y)`, or `None` where the column is off the pyramid's base.
pub fn pyramid_voxel(x: u32, y: u32) -> (r: Option<Voxel>)
    requires
        x < GRID_SIZE,
        y < GRID_SIZE,
    ensures
        r == (if in_pyramid(x as int, y as int) {
            Some(voxel_spec(x as int, y as int))
        } else {
            None
        }),
{
    let xi: i32 = x as i32 - CENTER;
    let yi: i32 = y as i32 - CENTER;
    let h: i32 = APEX_HEIGHT - (abs_i32(xi) + abs_i32(yi));
    if h < 0 {
        return None;
    }
    let z: u32 = abs_i32(h) as u32;
    let color: u32 = quadrant_color(classify_quadrant(xi, yi));
    Some(Voxel { x, y, z, color })
}

proof fn lemma_column_split(x: nat, y: nat)
    requires
        y < GRID_SIZE,
    ensures
        (x * (GRID_SIZE as nat) + y) / (GRID_SIZE as nat) == x,
        (x * (GRID_SIZE as nat) + y) % (GRID_SIZE as nat) == y,
{
    vstd::arithmetic::div_mod::lemma_fundamental_div_mod_converse(
        (x * 64 + y) as int,
        64,
        x as int,
        y as int,
    );
}

/// Every voxel among the first `k` columns lies on the pyramid, at its own height.
proof fn lemma_prefix_voxels(k: nat)
    requires
        k <= GRID_SIZE * GRID_SIZE,
    ensures
        forall|i: int|
            0 <= i < pyramid_prefix(k).len() ==> {
                let v = #[trigger] pyramid_prefix(k)[i];
                &&& v.x < GRID_SIZE
                &&& v.y < GRID_SIZE
                &&& in_pyramid(v.x as int, v.y as int)
                &&& v == voxel_spec(v.x as int, v.y as int)
            },
    decreases k,
{
    if k > 0 {
        let c = (k - 1) as nat;
        lemma_prefix_voxels(c);
        let x = c as int / GRID_SIZE as int;
        let y = c as int % GRID_SIZE as int;
        assert(0 <= x < GRID_SIZE) by (nonlinear_arith)
            requires
                x == c as int / 64,
                c < 4096,
        ;
        assert(voxel_spec(x, y).x == x);
        assert(voxel_spec(x, y).y == y);
        let prev = pyramid_prefix(c);
        if in_pyramid(x, y) {
            let cur = prev.push(voxel_spec(x, y));
            assert(pyramid_prefix(k) == cur);
            assert forall|i: int| 0 <= i < cur.len() implies {
                let v = #[trigger] cur[i];
                &&& v.x < GRID_SIZE
                &&& v.y < GRID_SIZE
                &&& in_pyramid(v.x as int, v.y as int)
                &&& v == voxel_spec(v.x as int, v.y as int)
            } by {
                if i < prev.len() {
                    assert(cur[i] == prev[i]);
                }
            }
        } else {
            assert(pyramid_prefix(k) == prev);
        }
    }
}

/// Every voxel of the test volume stands in a grid column on the pyramid's base,
/// its height is `APEX_HEIGHT - (|x - CENTER| + |y - CENTER|)`, which is never negative,
/// and its color is that of its quadrant.
pub proof fn lemma_voxel_heights()
    ensures
        forall|i: int|
            0 <= i < pyramid_surface().len() ==> {
                let v = #[trigger] pyramid_surface()[i];
                &&& v.x < GRID_SIZE
                &&& v.y < GRID_SIZE
                &&& v.z as int == pyramid_height(v.x - CENTER, v.y - CENTER)
                &&& pyramid_height(v.x - CENTER, v.y - CENTER) >= 0
                &&& v.color == color_of(quadrant_of(v.x - CENTER, v.y - CENTER))
            },
{
    lemma_prefix_voxels((GRID_SIZE * GRID_SIZE) as nat);
}

/// Color classification is total and counts a zero offset as non-negative: the apex
/// column is in the all-non-negative quadrant, each sign combination has its own
/// quadrant, and the four quadrants have four distinct colors.
pub proof fn lemma_color_classification(xi: int, yi: int)
    ensures
        quadrant_of(0, 0) == Quadrant::PosPos,
        (quadrant_of(xi, yi) == Quadrant::PosPos) == (xi >= 0 && yi >= 0),
        (quadrant_of(xi, yi) == Quadrant::NegPos) == (xi < 0 && yi >= 0),
        (quadrant_of(xi, yi) == Quadrant::NegNeg) == (xi < 0 && yi < 0),
        (quadrant_of(xi, yi) == Quadrant::PosNeg) == (xi >= 0 && yi < 0),
        color_of(Quadrant::PosPos) == COLOR_POS_POS,
        color_of(Quadrant::NegPos) == COLOR_NEG_POS,
        color_of(Quadrant::NegNeg) == COLOR_NEG_NEG,
        color_of(Quadrant::PosNeg) == COLOR_POS_NEG,
        forall|a: Quadrant, b: Quadrant| a != b ==> color_of(a) != color_of(b),
{
}

/// Builds the four-color pyramid test volume over the whole grid, row by row.
pub fn gen_pyramid_surface() -> (r: Vec<Voxel>)
    ensures
        r@ == pyramid_surface(),
{
    let mut surface: Vec<Voxel> = Vec::new();
    let mut x: u32 = 0;
    while x < GRID_SIZE
        invariant
            x <= GRID_SIZE,
            surface@ == pyramid_prefix((x * GRID_SIZE) as nat),
        decreases GRID_SIZE - x,
    {
        let mut y: u32 = 0;
        while y < GRID_SIZE
            invariant
                x < GRID_SIZE,
                y <= GRID_SIZE,
                surface@ == pyramid_prefix((x * GRID_SIZE + y) as nat),
            decreases GRID_SIZE - y,
        {
            proof {
                lemma_column_split(x as nat, y as nat);
            }
            if let Some(v) = pyramid_voxel(x, y) {
                surface.push(v);
            }
            y = y + 1;
        }
        x = x + 1;
    }
    surface
}

} // verus!
