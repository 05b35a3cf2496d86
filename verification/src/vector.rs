//! Three-dimensional integer vectors.

use vstd::prelude::*;

verus! {

/// A vector of three mathematical integers, the model of [`IntVec3`].
pub struct Vector3 {
    pub x: int,
    pub y: int,
    pub z: int,
}

impl Vector3 {
    /// The scalar product.
    pub open spec fn dot(self, other: Vector3) -> int {
        self.x * other.x + self.y * other.y + self.z * other.z
    }

    /// The vector product, right-handed.
    pub open spec fn cross(self, other: Vector3) -> Vector3 {
        Vector3 {
            x: self.y * other.z - self.z * other.y,
            y: self.z * other.x - self.x * other.z,
            z: self.x * other.y - self.y * other.x,
        }
    }

    /// The componentwise sum.
    pub open spec fn plus(self, other: Vector3) -> Vector3 {
        Vector3 { x: self.x + other.x, y: self.y + other.y, z: self.z + other.z }
    }

    /// The componentwise difference.
    pub open spec fn minus(self, other: Vector3) -> Vector3 {
        Vector3 { x: self.x - other.x, y: self.y - other.y, z: self.z - other.z }
    }

    /// Every component multiplied by `k`.
    pub open spec fn scaled(self, k: int) -> Vector3 {
        Vector3 { x: self.x * k, y: self.y * k, z: self.z * k }
    }

    /// The square of the Euclidean length.
    pub open spec fn norm_squared(self) -> int {
        self.dot(self)
    }

    /// The determinant of the matrix whose rows are `self`, `b` and `c`:
    /// six times the signed volume of the tetrahedron that the three
    /// vectors span with the origin.
    pub open spec fn triple(self, b: Vector3, c: Vector3) -> int {
        self.dot(b.cross(c))
    }

    /// Whether every component can be held in an `i64`.
    pub open spec fn fits_i64(self) -> bool {
        &&& i64::MIN <= self.x <= i64::MAX
        &&& i64::MIN <= self.y <= i64::MAX
        &&& i64::MIN <= self.z <= i64::MAX
    }
}

/// The product of `k` and a factor `unit` that is -1, 0 or 1.
pub open spec fn unit_times(unit: int, k: int) -> int {
    if unit == 0 {
        0
    } else if unit == 1 {
        k
    } else {
        -k
    }
}

/// A product in which one factor is -1, 0 or 1 can be read off: the
/// components of the basis vectors are such factors.
pub proof fn lemma_unit_products()
    ensures
        forall|unit: int, k: int| -1 <= unit <= 1 ==> #[trigger] (unit * k) == unit_times(unit, k),
        forall|k: int, unit: int| -1 <= unit <= 1 ==> #[trigger] (k * unit) == unit_times(unit, k),
{
    assert forall|unit: int, k: int| -1 <= unit <= 1 implies #[trigger] (unit * k) == unit_times(
        unit,
        k,
    ) by {
        assert(unit * k == unit_times(unit, k)) by (nonlinear_arith)
            requires
                -1 <= unit <= 1,
        ;
    }
    assert forall|k: int, unit: int| -1 <= unit <= 1 implies #[trigger] (k * unit) == unit_times(
        unit,
        k,
    ) by {
        assert(k * unit == unit_times(unit, k)) by (nonlinear_arith)
            requires
                -1 <= unit <= 1,
        ;
    }
}

/// The product of two sums, multiplied out.
proof fn lemma_expand(a: int, b: int, c: int, d: int)
    by (nonlinear_arith)
    ensures
        (a + b) * (c + d) == a * c + a * d + b * c + b * d,
{
}

/// A product with a difference of products, multiplied out, and the order
/// of the factors in what comes of it.
proof fn lemma_expand_minor(a: int, b: int, c: int, d: int, e: int)
    by (nonlinear_arith)
    ensures
        a * (b * c - d * e) == a * (b * c) - a * (d * e),
        a * (b * c) == b * (a * c),
        a * (b * c) == c * (a * b),
        a * (b * c) == a * (c * b),
{
}

/// The vector product of two sums is the sum of the four vector products.
pub proof fn lemma_cross_of_sums(a: Vector3, b: Vector3, c: Vector3, d: Vector3)
    ensures
        a.plus(b).cross(c.plus(d)) == a.cross(c).plus(a.cross(d)).plus(b.cross(c)).plus(
            b.cross(d),
        ),
{
    lemma_expand(a.y, b.y, c.z, d.z);
    lemma_expand(a.z, b.z, c.y, d.y);
    lemma_expand(a.z, b.z, c.x, d.x);
    lemma_expand(a.x, b.x, c.z, d.z);
    lemma_expand(a.x, b.x, c.y, d.y);
    lemma_expand(a.y, b.y, c.x, d.x);
}

/// The scalar product with a sum is the sum of the scalar products.
pub proof fn lemma_dot_of_sum(p: Vector3, u: Vector3, v: Vector3)
    ensures
        p.dot(u.plus(v)) == p.dot(u) + p.dot(v),
{
    assert(p.x * (u.x + v.x) == p.x * u.x + p.x * v.x) by (nonlinear_arith);
    assert(p.y * (u.y + v.y) == p.y * u.y + p.y * v.y) by (nonlinear_arith);
    assert(p.z * (u.z + v.z) == p.z * u.z + p.z * v.z) by (nonlinear_arith);
}

/// A vector is perpendicular to each of its vector products.
pub proof fn lemma_dot_cross_repeated(p: Vector3, g: Vector3)
    ensures
        p.dot(p.cross(g)) == 0,
        p.dot(g.cross(p)) == 0,
        p.cross(p) == (Vector3 { x: 0, y: 0, z: 0 }),
{
    lemma_expand_minor(p.x, p.y, g.z, p.z, g.y);
    lemma_expand_minor(p.y, p.z, g.x, p.x, g.z);
    lemma_expand_minor(p.z, p.x, g.y, p.y, g.x);
    lemma_expand_minor(p.x, g.y, p.z, g.z, p.y);
    lemma_expand_minor(p.y, g.z, p.x, g.x, p.z);
    lemma_expand_minor(p.z, g.x, p.y, g.y, p.x);
    lemma_expand_minor(p.x, p.z, g.y, p.y, g.z);
    lemma_expand_minor(p.y, p.x, g.z, p.z, g.x);
    lemma_expand_minor(p.z, p.y, g.x, p.x, g.y);
    assert(p.y * p.z == p.z * p.y && p.z * p.x == p.x * p.z && p.x * p.y == p.y * p.x)
        by (nonlinear_arith);
}

/// The determinant of three vectors can be taken from the first and the two
/// edges that lead from it to the others.
pub proof fn lemma_triple_from_edges(p: Vector3, q: Vector3, r: Vector3)
    ensures
        p.triple(q, r) == p.dot(q.minus(p).cross(r.minus(p))),
{
    let e = q.minus(p);
    let g = r.minus(p);
    assert(q == p.plus(e));
    assert(r == p.plus(g));
    lemma_cross_of_sums(p, e, p, g);
    lemma_dot_cross_repeated(p, g);
    lemma_dot_cross_repeated(p, e);
    let first = p.cross(p).plus(p.cross(g));
    let second = first.plus(e.cross(p));
    lemma_dot_of_sum(p, second, e.cross(g));
    lemma_dot_of_sum(p, first, e.cross(p));
    lemma_dot_of_sum(p, p.cross(p), p.cross(g));
}

/// The product of two 64-bit integers stays far inside the 128-bit range.
proof fn lemma_product_range(a: int, b: int)
    by (nonlinear_arith)
    requires
        -0x8000_0000_0000_0000 <= a <= 0x8000_0000_0000_0000,
        -0x8000_0000_0000_0000 <= b <= 0x8000_0000_0000_0000,
    ensures
        -0x4000_0000_0000_0000_0000_0000_0000_0000 <= a * b
            <= 0x4000_0000_0000_0000_0000_0000_0000_0000,
{
}

/// A vector of three machine integers.
#[derive(Clone, Copy, Debug, PartialEq, Eq, Structural)]
pub struct IntVec3 {
    pub x: i64,
    pub y: i64,
    pub z: i64,
}

impl View for IntVec3 {
    type V = Vector3;

    open spec fn view(&self) -> Vector3 {
        Vector3 { x: self.x as int, y: self.y as int, z: self.z as int }
    }
}

impl IntVec3 {
    pub fn new(x: i64, y: i64, z: i64) -> (v: IntVec3)
        ensures
            v@ == (Vector3 { x: x as int, y: y as int, z: z as int }),
    {
        IntVec3 { x, y, z }
    }

    /// The scalar product, where it can be held in an `i64`.
    pub fn dot(&self, other: &IntVec3) -> (d: i64)
        requires
            i64::MIN <= self@.dot(other@) <= i64::MAX,
        ensures
            d == self@.dot(other@),
    {
        proof {
            lemma_product_range(self.x as int, other.x as int);
            lemma_product_range(self.y as int, other.y as int);
            lemma_product_range(self.z as int, other.z as int);
        }
        let xx: i128 = (self.x as i128) * (other.x as i128);
        let yy: i128 = (self.y as i128) * (other.y as i128);
        let zz: i128 = (self.z as i128) * (other.z as i128);
        (xx + yy + zz) as i64
    }

    /// The vector product, where its components can be held in an `i64`.
    pub fn cross(&self, other: &IntVec3) -> (v: IntVec3)
        requires
            self@.cross(other@).fits_i64(),
        ensures
            v@ == self@.cross(other@),
    {
        proof {
            lemma_product_range(self.y as int, other.z as int);
            lemma_product_range(self.z as int, other.y as int);
            lemma_product_range(self.z as int, other.x as int);
            lemma_product_range(self.x as int, other.z as int);
            lemma_product_range(self.x as int, other.y as int);
            lemma_product_range(self.y as int, other.x as int);
        }
        let x: i128 = (self.y as i128) * (other.z as i128) - (self.z as i128) * (other.y as i128);
        let y: i128 = (self.z as i128) * (other.x as i128) - (self.x as i128) * (other.z as i128);
        let z: i128 = (self.x as i128) * (other.y as i128) - (self.y as i128) * (other.x as i128);
        IntVec3 { x: x as i64, y: y as i64, z: z as i64 }
    }

    /// The componentwise sum, where its components can be held in an `i64`.
    pub fn plus(&self, other: &IntVec3) -> (v: IntVec3)
        requires
            self@.plus(other@).fits_i64(),
        ensures
            v@ == self@.plus(other@),
    {
        IntVec3 { x: self.x + other.x, y: self.y + other.y, z: self.z + other.z }
    }

    /// The componentwise difference, where its components can be held in an
    /// `i64`.
    pub fn minus(&self, other: &IntVec3) -> (v: IntVec3)
        requires
            self@.minus(other@).fits_i64(),
        ensures
            v@ == self@.minus(other@),
    {
        IntVec3 { x: self.x - other.x, y: self.y - other.y, z: self.z - other.z }
    }

    /// Every component multiplied by `k`, where the products can be held in
    /// an `i64`.
    pub fn scaled(&self, k: i64) -> (v: IntVec3)
        requires
            self@.scaled(k as int).fits_i64(),
        ensures
            v@ == self@.scaled(k as int),
    {
        IntVec3 { x: self.x * k, y: self.y * k, z: self.z * k }
    }
}

} // verus!
