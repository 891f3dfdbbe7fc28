//! Three-dimensional integer vectors: the mathematical model and its
//! machine representation.

use vstd::prelude::*;

verus! {

/// A vector of three mathematical integers.
pub struct Vector {
    pub x: int,
    pub y: int,
    pub z: int,
}

impl Vector {
    /// The vector whose components are all zero.
    pub open spec fn zero() -> Vector {
        Vector { x: 0, y: 0, z: 0 }
    }

    /// The unit vector along the first axis.
    pub open spec fn unit_x() -> Vector {
        Vector { x: 1, y: 0, z: 0 }
    }

    /// The unit vector along the second axis.
    pub open spec fn unit_y() -> Vector {
        Vector { x: 0, y: 1, z: 0 }
    }

    /// The unit vector along the third axis.
    pub open spec fn unit_z() -> Vector {
        Vector { x: 0, y: 0, z: 1 }
    }

    /// The sum, component by component.
    pub open spec fn plus(self, other: Vector) -> Vector {
        Vector { x: self.x + other.x, y: self.y + other.y, z: self.z + other.z }
    }

    /// The difference, component by component.
    pub open spec fn minus(self, other: Vector) -> Vector {
        Vector { x: self.x - other.x, y: self.y - other.y, z: self.z - other.z }
    }

    /// The opposite vector.
    pub open spec fn negated(self) -> Vector {
        Vector { x: -self.x, y: -self.y, z: -self.z }
    }

    /// Every component times `factor`.
    pub open spec fn scaled(self, factor: int) -> Vector {
        Vector { x: self.x * factor, y: self.y * factor, z: self.z * factor }
    }

    /// The scalar product.
    pub open spec fn dot(self, other: Vector) -> int {
        self.x * other.x + self.y * other.y + self.z * other.z
    }

    /// The right-handed cross product.
    pub open spec fn cross(self, other: Vector) -> Vector {
        Vector {
            x: self.y * other.z - self.z * other.y,
            y: self.z * other.x - self.x * other.z,
            z: self.x * other.y - self.y * other.x,
        }
    }

    /// The squared Euclidean length.
    pub open spec fn norm_squared(self) -> int {
        self.dot(self)
    }

    /// Every component lies in `[-limit, limit]`.
    pub open spec fn within(self, limit: int) -> bool {
        &&& -limit <= self.x <= limit
        &&& -limit <= self.y <= limit
        &&& -limit <= self.z <= limit
    }

    /// Every component fits in 128 bits.
    pub open spec fn representable(self) -> bool {
        &&& representable(self.x)
        &&& representable(self.y)
        &&& representable(self.z)
    }

    /// The cross product with `other` and the six products it is made of fit
    /// in 128 bits.
    pub open spec fn cross_representable(self, other: Vector) -> bool {
        &&& representable(self.y * other.z)
        &&& representable(self.z * other.y)
        &&& representable(self.z * other.x)
        &&& representable(self.x * other.z)
        &&& representable(self.x * other.y)
        &&& representable(self.y * other.x)
        &&& self.cross(other).representable()
    }
}

/// `value` fits in a signed 128-bit integer.
pub open spec fn representable(value: int) -> bool {
    i128::MIN <= value <= i128::MAX
}

/// A vector with 128-bit integer components.
#[derive(Clone, Copy, Debug, PartialEq, Eq, Structural)]
pub struct Vec3 {
    pub x: i128,
    pub y: i128,
    pub z: i128,
}

impl View for Vec3 {
    type V = Vector;

    open spec fn view(&self) -> Vector {
        Vector { x: self.x as int, y: self.y as int, z: self.z as int }
    }
}

impl Vec3 {
    /// The vector with the given components.
    pub fn new(x: i128, y: i128, z: i128) -> (v: Vec3)
        ensures
            v == (Vec3 { x, y, z }),
    {
        Vec3 { x, y, z }
    }

    /// The vector whose components are all zero.
    pub fn zero() -> (v: Vec3)
        ensures
            v@ == Vector::zero(),
    {
        Vec3 { x: 0, y: 0, z: 0 }
    }

    /// Whether every component lies in `[-limit, limit]`.
    pub fn is_within(&self, limit: i128) -> (ok: bool)
        requires
            0 <= limit,
        ensures
            ok == self@.within(limit as int),
    {
        -limit <= self.x && self.x <= limit && -limit <= self.y && self.y <= limit && -limit
            <= self.z && self.z <= limit
    }

    /// The sum, where it fits in 128 bits.
    pub fn plus(self, other: Vec3) -> (sum: Vec3)
        requires
            self@.plus(other@).representable(),
        ensures
            sum@ == self@.plus(other@),
    {
        Vec3 { x: self.x + other.x, y: self.y + other.y, z: self.z + other.z }
    }

    /// The difference, where it fits in 128 bits.
    pub fn minus(self, other: Vec3) -> (difference: Vec3)
        requires
            self@.minus(other@).representable(),
        ensures
            difference@ == self@.minus(other@),
    {
        Vec3 { x: self.x - other.x, y: self.y - other.y, z: self.z - other.z }
    }

    /// Every component times `factor`, where the products fit in 128 bits.
    pub fn scaled(self, factor: i128) -> (product: Vec3)
        requires
            self@.scaled(factor as int).representable(),
        ensures
            product@ == self@.scaled(factor as int),
    {
        Vec3 { x: self.x * factor, y: self.y * factor, z: self.z * factor }
    }

    /// The cross product, where it and the products it is made of fit in 128
    /// bits.
    pub fn cross(self, other: Vec3) -> (product: Vec3)
        requires
            self@.cross_representable(other@),
        ensures
            product@ == self@.cross(other@),
    {
        Vec3 {
            x: self.y * other.z - self.z * other.y,
            y: self.z * other.x - self.x * other.z,
            z: self.x * other.y - self.y * other.x,
        }
    }
}

/// The product of two bounded integers is bounded by the product of the bounds.
pub proof fn lemma_product_within(a: int, b: int, bound_a: int, bound_b: int)
    by (nonlinear_arith)
    requires
        -bound_a <= a <= bound_a,
        -bound_b <= b <= bound_b,
    ensures
        -(bound_a * bound_b) <= a * b <= bound_a * bound_b,
{
}

/// Scaling a bounded vector by a bounded factor gives a vector bounded by the
/// product of the bounds.
pub proof fn lemma_scaled_within(v: Vector, factor: int, bound: int, factor_bound: int)
    requires
        v.within(bound),
        -factor_bound <= factor <= factor_bound,
    ensures
        v.scaled(factor).within(bound * factor_bound),
{
    lemma_product_within(v.x, factor, bound, factor_bound);
    lemma_product_within(v.y, factor, bound, factor_bound);
    lemma_product_within(v.z, factor, bound, factor_bound);
}

/// The cross product of two bounded vectors is bounded by twice the product of
/// the bounds, and each of the products it is made of by the product of the
/// bounds.
pub proof fn lemma_cross_within(a: Vector, b: Vector, bound_a: int, bound_b: int)
    requires
        a.within(bound_a),
        b.within(bound_b),
    ensures
        a.cross(b).within(2 * (bound_a * bound_b)),
        2 * (bound_a * bound_b) <= i128::MAX ==> a.cross_representable(b),
{
    lemma_product_within(a.y, b.z, bound_a, bound_b);
    lemma_product_within(a.z, b.y, bound_a, bound_b);
    lemma_product_within(a.z, b.x, bound_a, bound_b);
    lemma_product_within(a.x, b.z, bound_a, bound_b);
    lemma_product_within(a.x, b.y, bound_a, bound_b);
    lemma_product_within(a.y, b.x, bound_a, bound_b);
}

/// The cross product of any vector with the zero vector is the zero vector.
pub proof fn lemma_cross_zero(arm: Vector)
    ensures
        arm.cross(Vector::zero()) == Vector::zero(),
{
}

/// Two multiples of one vector are parallel: their cross product is zero.
pub proof fn lemma_cross_of_multiples(v: Vector, first: int, second: int)
    ensures
        v.scaled(first).cross(v.scaled(second)) == Vector::zero(),
{
    lemma_products_commute(v.y, first, v.z, second);
    lemma_products_commute(v.z, first, v.x, second);
    lemma_products_commute(v.x, first, v.y, second);
}

/// `(a * s) * (b * t) == (b * s) * (a * t)`.
proof fn lemma_products_commute(a: int, s: int, b: int, t: int)
    by (nonlinear_arith)
    ensures
        (a * s) * (b * t) == (b * s) * (a * t),
{
}

/// The square of a product is the product of the squares.
proof fn lemma_square_of_product(a: int, factor: int)
    by (nonlinear_arith)
    ensures
        (a * factor) * (a * factor) == factor * factor * (a * a),
{
}

/// Multiplication distributes over a sum of three.
proof fn lemma_distribute_over_three(factor: int, a: int, b: int, c: int)
    by (nonlinear_arith)
    ensures
        factor * (a + b + c) == factor * a + factor * b + factor * c,
{
}

/// Scaling multiplies the squared length by the square of the factor.
pub proof fn lemma_scaled_norm(v: Vector, factor: int)
    ensures
        v.scaled(factor).norm_squared() == factor * factor * v.norm_squared(),
{
    lemma_square_of_product(v.x, factor);
    lemma_square_of_product(v.y, factor);
    lemma_square_of_product(v.z, factor);
    lemma_distribute_over_three(factor * factor, v.x * v.x, v.y * v.y, v.z * v.z);
}

/// A vector and its opposite have the same length.
pub proof fn lemma_negated_norm(v: Vector)
    ensures
        v.negated().norm_squared() == v.norm_squared(),
{
    assert((-v.x) * (-v.x) + (-v.y) * (-v.y) + (-v.z) * (-v.z) == v.x * v.x + v.y * v.y + v.z
        * v.z) by (nonlinear_arith);
}

/// Only the zero vector has length zero.
pub proof fn lemma_norm_zero(v: Vector)
    ensures
        v.norm_squared() == 0 <==> v == Vector::zero(),
{
    assert(v.x * v.x + v.y * v.y + v.z * v.z == 0 <==> (v.x == 0 && v.y == 0 && v.z == 0))
        by (nonlinear_arith);
}

} // verus!
