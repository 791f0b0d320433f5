use vstd::prelude::*;

verus! {

/// A corner of the quad: its position in the z = 0 plane, in half units
/// (`x == 1` is the coordinate 0.5), and its texture coordinates.
#[derive(Clone, Copy, Debug, PartialEq, Eq, Structural)]
pub struct Corner {
    pub x: i32,
    pub y: i32,
    pub u: u32,
    pub v: u32,
}

/// The four corners of the unit quad centred on the origin, counter-clockwise
/// from the top right.
pub open spec fn square_corners_spec() -> Seq<Corner> {
    seq![
        Corner { x: 1, y: 1, u: 1, v: 0 },
        Corner { x: -1i32, y: 1, u: 0, v: 0 },
        Corner { x: -1i32, y: -1i32, u: 0, v: 1 },
        Corner { x: 1, y: -1i32, u: 1, v: 1 },
    ]
}

/// The two triangles of the quad, both split along the diagonal from corner 0
/// to corner 2.
pub open spec fn square_indices_spec() -> Seq<u16> {
    seq![0, 1, 2, 0, 2, 3]
}

pub fn square_corners() -> (r: Vec<Corner>)
    ensures
        r@ == square_corners_spec(),
{
    let r = vec![
        Corner { x: 1, y: 1, u: 1, v: 0 },
        Corner { x: -1, y: 1, u: 0, v: 0 },
        Corner { x: -1, y: -1, u: 0, v: 1 },
        Corner { x: 1, y: -1, u: 1, v: 1 },
    ];
    assert(r@ =~= square_corners_spec());
    r
}

pub fn square_indices() -> (r: Vec<u16>)
    ensures
        r@ == square_indices_spec(),
{
    let r: Vec<u16> = vec![0, 1, 2, 0, 2, 3];
    assert(r@ =~= square_indices_spec());
    r
}

/// Twice the signed area of the triangle `a b c`: positive when its corners
/// turn counter-clockwise.
pub open spec fn cross(a: Corner, b: Corner, c: Corner) -> int {
    (b.x - a.x) * (c.y - a.y) - (b.y - a.y) * (c.x - a.x)
}

/// Twice the signed area of the polygon `p`, by the shoelace formula.
pub open spec fn shoelace(p: Seq<Corner>) -> int
    decreases p.len(),
{
    if p.len() < 2 {
        0
    } else {
        let a = p[p.len() - 2];
        let b = p[p.len() - 1];
        shoelace(p.drop_last()) + (a.x * b.y - b.x * a.y)
    }
}

/// Twice the signed area of the closed polygon `p`.
pub open spec fn doubled_area(p: Seq<Corner>) -> int {
    if p.len() < 2 {
        0
    } else {
        shoelace(p) + (p.last().x * p[0].y - p[0].x * p.last().y)
    }
}

/// `indices` is a triangle list over `corners` whose every triangle turns
/// counter-clockwise, so that it faces the viewer when back faces are culled.
pub open spec fn ccw_triangle_list(corners: Seq<Corner>, indices: Seq<u16>) -> bool {
    &&& indices.len() % 3 == 0
    &&& forall|k: int| 0 <= k < indices.len() ==> indices[k] < corners.len()
    &&& forall|t: int|
        0 <= t < indices.len() / 3 ==> #[trigger] cross(
            corners[indices[3 * t] as int],
            corners[indices[3 * t + 1] as int],
            corners[indices[3 * t + 2] as int],
        ) > 0
}

/// Twice the signed area of the triangle `a b c`.
pub fn signed_area2(a: Corner, b: Corner, c: Corner) -> (r: i128)
    ensures
        r == cross(a, b, c),
{
    let dx1: i128 = b.x as i128 - a.x as i128;
    let dy1: i128 = b.y as i128 - a.y as i128;
    let dx2: i128 = c.x as i128 - a.x as i128;
    let dy2: i128 = c.y as i128 - a.y as i128;
    let bound: i128 = 0x1_0000_0000;
    assert(-bound * bound <= dx1 * dy2 <= bound * bound && -bound * bound <= dy1 * dx2 <= bound
        * bound) by (nonlinear_arith)
        requires
            -bound <= dx1 <= bound,
            -bound <= dy1 <= bound,
            -bound <= dx2 <= bound,
            -bound <= dy2 <= bound,
            bound == 0x1_0000_0000,
    ;
    dx1 * dy2 - dy1 * dx2
}

/// Whether `indices` is a triangle list over `corners` whose every triangle
/// turns counter-clockwise.
pub fn is_ccw_triangle_list(corners: &Vec<Corner>, indices: &Vec<u16>) -> (r: bool)
    ensures
        r == ccw_triangle_list(corners@, indices@),
{
    if indices.len() % 3 != 0 {
        return false;
    }
    let mut k: usize = 0;
    while k < indices.len()
        invariant
            k <= indices@.len(),
            forall|j: int| 0 <= j < k ==> indices@[j] < corners@.len(),
        decreases indices@.len() - k,
    {
        if indices[k] as usize >= corners.len() {
            return false;
        }
        k = k + 1;
    }
    let len: usize = indices.len();
    let n: usize = len / 3;
    assert(3 * n == indices@.len());
    let mut t: usize = 0;
    while t < n
        invariant
            len == indices@.len(),
            n == indices@.len() / 3,
            3 * n == indices@.len(),
            indices@.len() % 3 == 0,
            t <= n,
            forall|j: int| 0 <= j < indices@.len() ==> indices@[j] < corners@.len(),
            forall|s: int|
                0 <= s < t ==> #[trigger] cross(
                    corners@[indices@[3 * s] as int],
                    corners@[indices@[3 * s + 1] as int],
                    corners@[indices@[3 * s + 2] as int],
                ) > 0,
        decreases n - t,
    {
        assert(3 * t + 2 < len) by (nonlinear_arith)
            requires
                t < n,
                3 * n == len,
        ;
        let a = corners[indices[3 * t] as usize];
        let b = corners[indices[3 * t + 1] as usize];
        let c = corners[indices[3 * t + 2] as usize];
        if signed_area2(a, b, c) <= 0 {
            assert(cross(
                corners@[indices@[3 * t] as int],
                corners@[indices@[3 * t + 1] as int],
                corners@[indices@[3 * t + 2] as int],
            ) <= 0);
            return false;
        }
        t = t + 1;
    }
    true
}

proof fn lemma_fan_area(ax: int, ay: int, bx: int, by: int, cx: int, cy: int, dx: int, dy: int)
    ensures
        (bx - ax) * (cy - ay) - (by - ay) * (cx - ax) + ((cx - ax) * (dy - ay) - (cy - ay) * (dx
            - ax)) == (ax * by - bx * ay) + (bx * cy - cx * by) + (cx * dy - dx * cy) + (dx * ay
            - ax * dy),
        (cx - ax) * (by - ay) - (cy - ay) * (bx - ax) == -((bx - ax) * (cy - ay) - (by - ay) * (
        cx - ax)),
        (cx - ax) * (dy - ay) - (cy - ay) * (dx - ax) == (dx - cx) * (ay - cy) - (dy - cy) * (ax
            - cx),
{
    assert((bx - ax) * (cy - ay) - (by - ay) * (cx - ax) + ((cx - ax) * (dy - ay) - (cy - ay) * (
    dx - ax)) == (ax * by - bx * ay) + (bx * cy - cx * by) + (cx * dy - dx * cy) + (dx * ay - ax
        * dy)) by (nonlinear_arith);
    assert((cx - ax) * (by - ay) - (cy - ay) * (bx - ax) == -((bx - ax) * (cy - ay) - (by - ay)
        * (cx - ax))) by (nonlinear_arith);
    assert((cx - ax) * (dy - ay) - (cy - ay) * (dx - ax) == (dx - cx) * (ay - cy) - (dy - cy) * (
    ax - cx)) by (nonlinear_arith);
}

/// A quadrilateral whose corners turn counter-clockwise at every corner,
/// split along its diagonal from corner 0 to corner 2 into the triangles
/// `0 1 2` and `0 2 3`, is covered by them with no gap and no overlap: both
/// turn counter-clockwise, corners 1 and 3 lie on opposite sides of the
/// shared diagonal, and the two areas add up to the quadrilateral's.
pub proof fn lemma_quad_split_tiles(q: Seq<Corner>)
    requires
        q.len() == 4,
        cross(q[0], q[1], q[2]) > 0,
        cross(q[1], q[2], q[3]) > 0,
        cross(q[2], q[3], q[0]) > 0,
        cross(q[3], q[0], q[1]) > 0,
    ensures
        ccw_triangle_list(q, square_indices_spec()),
        cross(q[0], q[2], q[1]) < 0 < cross(q[0], q[2], q[3]),
        cross(q[0], q[1], q[2]) + cross(q[0], q[2], q[3]) == doubled_area(q),
{
    let (a, b, c, d) = (q[0], q[1], q[2], q[3]);
    let s = square_indices_spec();
    let q3 = q.drop_last();
    let q2 = q3.drop_last();
    let q1 = q2.drop_last();
    assert(q1.len() == 1 && q2[0] == a && q2[1] == b && q3[2] == c && q3[1] == b);
    assert(shoelace(q1) == 0);
    assert(shoelace(q2) == a.x * b.y - b.x * a.y);
    assert(shoelace(q3) == shoelace(q2) + (b.x * c.y - c.x * b.y));
    assert(shoelace(q) == shoelace(q3) + (c.x * d.y - d.x * c.y));
    lemma_fan_area(
        a.x as int,
        a.y as int,
        b.x as int,
        b.y as int,
        c.x as int,
        c.y as int,
        d.x as int,
        d.y as int,
    );
    assert forall|t: int| 0 <= t < s.len() / 3 implies #[trigger] cross(
        q[s[3 * t] as int],
        q[s[3 * t + 1] as int],
        q[s[3 * t + 2] as int],
    ) > 0 by {
        if t == 0 {
            assert(s[0] == 0 && s[1] == 1 && s[2] == 2);
        } else {
            assert(s[3] == 0 && s[4] == 2 && s[5] == 3);
        }
    }
}

} // verus!
