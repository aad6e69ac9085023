use vstd::prelude::*;

verus! {

/// One corner of a quad: where it lies, and the texture coordinate that it
/// carries. A quad is two triangles, so it has six of them.
#[derive(Clone, Copy, Debug, PartialEq, Eq, Structural)]
pub struct Corner {
    pub x: i8,
    pub y: i8,
    pub u: i8,
    pub v: i8,
}

/// The horizontal texture coordinate of the `i`th corner: the first triangle
/// is lower left, upper left, lower right; the second is upper left, upper
/// right, lower right.
pub open spec fn corner_u(i: int) -> int {
    if i == 2 || i == 4 || i == 5 {
        1
    } else {
        0
    }
}

/// The vertical texture coordinate of the `i`th corner.
pub open spec fn corner_v(i: int) -> int {
    if i == 1 || i == 3 || i == 4 {
        1
    } else {
        0
    }
}

/// The quad that spans the square from `low` to `low + span` on both axes
/// and shows the whole texture once.
pub open spec fn spec_quad(low: int, span: int) -> Seq<Corner> {
    Seq::new(
        6,
        |i: int|
            Corner {
                x: (low + span * corner_u(i)) as i8,
                y: (low + span * corner_v(i)) as i8,
                u: corner_u(i) as i8,
                v: corner_v(i) as i8,
            },
    )
}

fn quad(low: i8, high: i8) -> (corners: Vec<Corner>)
    requires
        -64 <= low <= high <= 64,
    ensures
        corners@ == spec_quad(low as int, high - low),
{
    let corners = vec![
        Corner { x: low, y: low, u: 0, v: 0 },
        Corner { x: low, y: high, u: 0, v: 1 },
        Corner { x: high, y: low, u: 1, v: 0 },
        Corner { x: low, y: high, u: 0, v: 1 },
        Corner { x: high, y: high, u: 1, v: 1 },
        Corner { x: high, y: low, u: 1, v: 0 },
    ];
    assert(corners@ =~= spec_quad(low as int, high - low));
    corners
}

/// The quad that a sprite is drawn with: the unit square, each corner at its
/// own texture coordinate.
pub fn unit_quad() -> (corners: Vec<Corner>)
    ensures
        corners@ == spec_quad(0, 1),
{
    quad(0, 1)
}

/// The quad that the composite pass is drawn with: all of normalized device
/// space, from -1 to 1 on both axes.
pub fn fullscreen_quad() -> (corners: Vec<Corner>)
    ensures
        corners@ == spec_quad(-1, 2),
{
    quad(-1, 1)
}

/// Both quads show the whole texture, and the full-screen quad is the unit
/// quad stretched from the unit square over device space: each corner lies at
/// twice its texture coordinate less one.
pub proof fn lemma_quads_cover(i: int)
    requires
        0 <= i < 6,
    ensures
        spec_quad(0, 1)[i].x == spec_quad(0, 1)[i].u,
        spec_quad(0, 1)[i].y == spec_quad(0, 1)[i].v,
        spec_quad(-1, 2)[i].u == spec_quad(0, 1)[i].u,
        spec_quad(-1, 2)[i].v == spec_quad(0, 1)[i].v,
        spec_quad(-1, 2)[i].x == 2 * spec_quad(0, 1)[i].x - 1,
        spec_quad(-1, 2)[i].y == 2 * spec_quad(0, 1)[i].y - 1,
{
}

} // verus!
