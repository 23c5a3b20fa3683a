//! The lattice of points that makes up the cube, and the colour of each point.
use vstd::arithmetic::div_mod::lemma_fundamental_div_mod_converse;
use vstd::prelude::*;

verus! {

/// Side of one display cell, in pixels: the half-extent of the cube is the
/// display width divided by this pitch.
pub const CELL_PITCH: u16 = 256;

/// The cube's half-extent `G` for a display of the given width: the width
/// divided by the cell pitch, truncated.
pub open spec fn half_extent_of(width: nat, pitch: nat) -> nat {
    width / pitch
}

/// Half-extent of the cube for a display `width` pixels wide and cells `pitch`
/// pixels apart (`1280 / 256 == 5`).
pub fn half_extent(width: u16, pitch: u16) -> (g: u16)
    requires
        pitch > 0,
    ensures
        g as nat == half_extent_of(width as nat, pitch as nat),
{
    width / pitch
}

/// An integer point of the lattice; it is also the point's position in the
/// pivot's frame, one unit per cell.
#[derive(Clone, Copy, Debug, PartialEq, Eq, Structural)]
pub struct LatticePoint {
    pub x: i32,
    pub y: i32,
    pub z: i32,
}

/// A colour whose channels are the fractions `r / scale`, `g / scale` and
/// `b / scale`. The channels are signed: a negative fraction is kept as it is,
/// not clamped.
#[derive(Clone, Copy, Debug, PartialEq, Eq, Structural)]
pub struct NormalizedColor {
    pub r: i32,
    pub g: i32,
    pub b: i32,
    pub scale: u16,
}

/// A colour on the 8-bit scale `0..=255`.
#[derive(Clone, Copy, Debug, PartialEq, Eq, Structural)]
pub struct ByteColor {
    pub r: u8,
    pub g: u8,
    pub b: u8,
}

/// One sphere of the cube: where it sits under the pivot, and its colour.
#[derive(Clone, Copy, Debug, PartialEq, Eq, Structural)]
pub struct PointObject {
    pub position: LatticePoint,
    pub color: NormalizedColor,
}

/// Number of cells along one edge of the cube of half-extent `g`.
pub open spec fn side(g: int) -> int {
    2 * g
}

/// Number of points in the cube of half-extent `g`: `(2g)^3`.
pub open spec fn cube_size(g: int) -> int {
    (2 * g) * (2 * g) * (2 * g)
}

/// `p` lies in the half-open cube `[-g, g)^3`.
pub open spec fn in_cube(g: int, p: LatticePoint) -> bool {
    &&& -g <= p.x < g
    &&& -g <= p.y < g
    &&& -g <= p.z < g
}

/// The set of all points of the cube `[-g, g)^3`.
pub open spec fn cube(g: int) -> Set<LatticePoint> {
    Set::new(|p: LatticePoint| in_cube(g, p))
}

/// Place of `p` in the generation order: x outermost, then y, then z.
pub open spec fn index_of(g: int, p: LatticePoint) -> int {
    (p.x + g) * side(g) * side(g) + (p.y + g) * side(g) + (p.z + g)
}

/// The colour of the point `p` of a cube of half-extent `g`: each coordinate
/// divided by `g`.
pub open spec fn normalized_color_of(g: u16, p: LatticePoint) -> NormalizedColor {
    NormalizedColor { r: p.x, g: p.y, b: p.z, scale: g }
}

/// The positions of a sequence of objects, in order.
pub open spec fn positions(objs: Seq<PointObject>) -> Seq<LatticePoint> {
    objs.map_values(|o: PointObject| o.position)
}

/// The object placed at `p` in a cube of half-extent `g`.
pub fn point_object(p: LatticePoint, g: u16) -> (o: PointObject)
    ensures
        o.position == p,
        o.color == normalized_color_of(g, p),
        in_cube(g as int, p) ==> cube_color(o.color),
{
    PointObject { position: p, color: NormalizedColor { r: p.x, g: p.y, b: p.z, scale: g } }
}

/// Two points of the cube with the same place in the generation order are
/// the same point.
proof fn lemma_index_injective(g: int, p: LatticePoint, q: LatticePoint)
    requires
        in_cube(g, p),
        in_cube(g, q),
        index_of(g, p) == index_of(g, q),
    ensures
        p == q,
{
    let s = side(g);
    let i = index_of(g, p);
    assert(i == ((p.x + g) * s + (p.y + g)) * s + (p.z + g)) by (nonlinear_arith)
        requires i == index_of(g, p), s == side(g);
    assert(i == ((q.x + g) * s + (q.y + g)) * s + (q.z + g)) by (nonlinear_arith)
        requires i == index_of(g, q), s == side(g);
    lemma_fundamental_div_mod_converse(i, s, (p.x + g) * s + (p.y + g), p.z + g);
    lemma_fundamental_div_mod_converse(i, s, (q.x + g) * s + (q.y + g), q.z + g);
    let j = (p.x + g) * s + (p.y + g);
    lemma_fundamental_div_mod_converse(j, s, p.x + g, p.y + g);
    lemma_fundamental_div_mod_converse(j, s, q.x + g, q.y + g);
}

/// Every point of the cube has a place below the cube's size.
proof fn lemma_index_bounds(g: int, p: LatticePoint)
    requires
        in_cube(g, p),
    ensures
        0 <= index_of(g, p) < cube_size(g),
{
    let s = side(g);
    let a = p.x + g;
    let b = p.y + g;
    let c = p.z + g;
    assert(0 <= a * s * s + b * s + c < s * s * s) by (nonlinear_arith)
        requires 0 <= a < s, 0 <= b < s, 0 <= c < s;
}

/// The points of the cube `[-g, g)^3`, each exactly once, x outermost, then
/// y, then z.
pub fn lattice(g: u16) -> (r: Vec<LatticePoint>)
    requires
        cube_size(g as int) <= usize::MAX,
    ensures
        r@.len() == cube_size(g as int),
        r@.to_set() == cube(g as int),
        r@.no_duplicates(),
        forall|k: int| 0 <= k < r@.len() ==> index_of(g as int, #[trigger] r@[k]) == k,
{
    let gi: i32 = g as i32;
    let ghost gg: int = g as int;
    let ghost s: int = side(gg);
    let mut r: Vec<LatticePoint> = Vec::new();
    let mut x: i32 = -gi;
    assert((x + gg) * s * s == 0) by (nonlinear_arith)
        requires x + gg == 0;
    while x < gi
        invariant
            gi == gg,
            s == side(gg),
            -gg <= x <= gg,
            r@.len() == (x + gg) * s * s,
            forall|k: int|
                0 <= k < r@.len() ==> in_cube(gg, #[trigger] r@[k]) && index_of(gg, r@[k]) == k,
        decreases gg - x,
    {
        let mut y: i32 = -gi;
        assert((y + gg) * s == 0) by (nonlinear_arith)
            requires y + gg == 0;
        while y < gi
            invariant
                gi == gg,
                s == side(gg),
                -gg <= x < gg,
                -gg <= y <= gg,
                r@.len() == (x + gg) * s * s + (y + gg) * s,
                forall|k: int|
                    0 <= k < r@.len() ==> in_cube(gg, #[trigger] r@[k]) && index_of(gg, r@[k])
                        == k,
            decreases gg - y,
        {
            let mut z: i32 = -gi;
            while z < gi
                invariant
                    gi == gg,
                    s == side(gg),
                    -gg <= x < gg,
                    -gg <= y < gg,
                    -gg <= z <= gg,
                    r@.len() == (x + gg) * s * s + (y + gg) * s + (z + gg),
                    forall|k: int|
                        0 <= k < r@.len() ==> in_cube(gg, #[trigger] r@[k]) && index_of(
                            gg,
                            r@[k],
                        ) == k,
                decreases gg - z,
            {
                r.push(LatticePoint { x, y, z });
                z = z + 1;
            }
            assert((y + gg) * s + s == (y + 1 + gg) * s) by (nonlinear_arith);
            y = y + 1;
        }
        assert((x + gg) * s * s + s * s == (x + 1 + gg) * s * s) by (nonlinear_arith);
        x = x + 1;
    }
    assert forall|i: int, j: int| 0 <= i < r@.len() && 0 <= j < r@.len() && i != j implies r@[i]
        != r@[j] by {
        assert(index_of(gg, r@[i]) == i);
        assert(index_of(gg, r@[j]) == j);
    }
    assert forall|p: LatticePoint| r@.to_set().contains(p) <==> cube(gg).contains(p) by {
        if r@.to_set().contains(p) {
            let k = choose|k: int| 0 <= k < r@.len() && r@[k] == p;
            assert(in_cube(gg, r@[k]));
        }
        if in_cube(gg, p) {
            lemma_index_bounds(gg, p);
            let k = index_of(gg, p);
            assert(in_cube(gg, r@[k]));
            lemma_index_injective(gg, p, r@[k]);
        }
    }
    assert(r@.to_set() =~= cube(gg));
    r
}

/// Generates the cube of half-extent `g`: one object for each point of
/// `[-g, g)^3`, each point exactly once, coloured by its coordinates over `g`.
pub fn generate_grid(g: u16) -> (r: Vec<PointObject>)
    requires
        cube_size(g as int) <= usize::MAX,
    ensures
        r@.len() == cube_size(g as int),
        positions(r@).to_set() == cube(g as int),
        positions(r@).no_duplicates(),
        forall|k: int|
            0 <= k < r@.len() ==> (#[trigger] r@[k]).color == normalized_color_of(
                g,
                r@[k].position,
            ) && cube_color(r@[k].color),
{
    let points = lattice(g);
    assert forall|k: int| 0 <= k < points@.len() implies in_cube(g as int, #[trigger] points@[k]) by {
        assert(points@.to_set().contains(points@[k]));
    }
    let mut r: Vec<PointObject> = Vec::new();
    let mut i: usize = 0;
    while i < points.len()
        invariant
            i <= points@.len(),
            r@.len() == i,
            forall|k: int| 0 <= k < points@.len() ==> in_cube(g as int, #[trigger] points@[k]),
            forall|k: int|
                0 <= k < i ==> {
                    &&& (#[trigger] r@[k]).position == points@[k]
                    &&& r@[k].color == normalized_color_of(g, r@[k].position)
                    &&& cube_color(r@[k].color)
                },
        decreases points@.len() - i,
    {
        r.push(point_object(points[i], g));
        i = i + 1;
    }
    assert(positions(r@) =~= points@);
    r
}

/// One channel `v / scale` on the 8-bit scale: `255 * v / scale`, truncated,
/// with a negative fraction saturating to `0`.
pub open spec fn byte_channel_of(v: int, scale: int) -> int {
    if v < 0 {
        0
    } else {
        255 * v / scale
    }
}

/// A channel fraction `v / scale` of a cube colour lies in `[-1, 1)`.
pub open spec fn channel_in_range(v: int, scale: int) -> bool {
    -scale <= v < scale
}

/// A colour of the cube: a positive scale and every channel in `[-1, 1)`.
pub open spec fn cube_color(c: NormalizedColor) -> bool {
    &&& c.scale > 0
    &&& channel_in_range(c.r as int, c.scale as int)
    &&& channel_in_range(c.g as int, c.scale as int)
    &&& channel_in_range(c.b as int, c.scale as int)
}

/// One channel `v / scale` on the 8-bit scale.
fn byte_channel(v: i32, scale: u16) -> (b: u8)
    requires
        scale > 0,
        channel_in_range(v as int, scale as int),
    ensures
        b as int == byte_channel_of(v as int, scale as int),
{
    if v < 0 {
        0
    } else {
        let n: u32 = 255 * (v as u32);
        let q: u32 = n / (scale as u32);
        assert(q < 255) by (nonlinear_arith)
            requires q == n / (scale as u32), n == 255 * v, 0 <= v < scale, scale > 0;
        q as u8
    }
}

/// The colour `c` on the 8-bit scale, each channel `255 * v / scale` with
/// negative channels saturating to `0`.
pub fn byte_color(c: &NormalizedColor) -> (b: ByteColor)
    requires
        cube_color(*c),
    ensures
        b.r as int == byte_channel_of(c.r as int, c.scale as int),
        b.g as int == byte_channel_of(c.g as int, c.scale as int),
        b.b as int == byte_channel_of(c.b as int, c.scale as int),
{
    ByteColor {
        r: byte_channel(c.r, c.scale),
        g: byte_channel(c.g, c.scale),
        b: byte_channel(c.b, c.scale),
    }
}

} // verus!
