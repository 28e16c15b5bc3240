use vstd::prelude::*;

verus! {

/// Largest magnitude a transform entry may have so that composing two
/// transforms never overflows the machine arithmetic.
pub const COORD_LIMIT: i64 = 1048576;

/// A composable transform: a 3 x 3 integer matrix acting on row vectors
/// `(x, y, w)`.  Because vectors multiply from the left, `compose(a, b)`
/// is the transform that applies `a` first and `b` second.
#[derive(Debug, Copy, Clone, PartialEq, Eq, Structural)]
pub struct Transform {
    pub m00: i64,
    pub m01: i64,
    pub m02: i64,
    pub m10: i64,
    pub m11: i64,
    pub m12: i64,
    pub m20: i64,
    pub m21: i64,
    pub m22: i64,
}

/// The mathematical value of a transform, entry by entry.
#[verifier::ext_equal]
pub ghost struct TransformModel {
    pub m00: int,
    pub m01: int,
    pub m02: int,
    pub m10: int,
    pub m11: int,
    pub m12: int,
    pub m20: int,
    pub m21: int,
    pub m22: int,
}

/// Entry-by-entry matrix product of two transform models: the result
/// applies `a` first and `b` second (row-vector convention).
pub open spec fn spec_compose(a: TransformModel, b: TransformModel) -> TransformModel {
    TransformModel {
        m00: a.m00 * b.m00 + a.m01 * b.m10 + a.m02 * b.m20,
        m01: a.m00 * b.m01 + a.m01 * b.m11 + a.m02 * b.m21,
        m02: a.m00 * b.m02 + a.m01 * b.m12 + a.m02 * b.m22,
        m10: a.m10 * b.m00 + a.m11 * b.m10 + a.m12 * b.m20,
        m11: a.m10 * b.m01 + a.m11 * b.m11 + a.m12 * b.m21,
        m12: a.m10 * b.m02 + a.m11 * b.m12 + a.m12 * b.m22,
        m20: a.m20 * b.m00 + a.m21 * b.m10 + a.m22 * b.m20,
        m21: a.m20 * b.m01 + a.m21 * b.m11 + a.m22 * b.m21,
        m22: a.m20 * b.m02 + a.m21 * b.m12 + a.m22 * b.m22,
    }
}

/// A row vector `(x, y, w)` transformed by `t`.
pub open spec fn spec_apply(v: (int, int, int), t: TransformModel) -> (int, int, int) {
    (
        v.0 * t.m00 + v.1 * t.m10 + v.2 * t.m20,
        v.0 * t.m01 + v.1 * t.m11 + v.2 * t.m21,
        v.0 * t.m02 + v.1 * t.m12 + v.2 * t.m22,
    )
}

pub open spec fn spec_identity() -> TransformModel {
    TransformModel { m00: 1, m01: 0, m02: 0, m10: 0, m11: 1, m12: 0, m20: 0, m21: 0, m22: 1 }
}

impl Transform {
    pub open spec fn model(self) -> TransformModel {
        TransformModel {
            m00: self.m00 as int,
            m01: self.m01 as int,
            m02: self.m02 as int,
            m10: self.m10 as int,
            m11: self.m11 as int,
            m12: self.m12 as int,
            m20: self.m20 as int,
            m21: self.m21 as int,
            m22: self.m22 as int,
        }
    }

    pub open spec fn bounded(self) -> bool {
        &&& -COORD_LIMIT <= self.m00 <= COORD_LIMIT
        &&& -COORD_LIMIT <= self.m01 <= COORD_LIMIT
        &&& -COORD_LIMIT <= self.m02 <= COORD_LIMIT
        &&& -COORD_LIMIT <= self.m10 <= COORD_LIMIT
        &&& -COORD_LIMIT <= self.m11 <= COORD_LIMIT
        &&& -COORD_LIMIT <= self.m12 <= COORD_LIMIT
        &&& -COORD_LIMIT <= self.m20 <= COORD_LIMIT
        &&& -COORD_LIMIT <= self.m21 <= COORD_LIMIT
        &&& -COORD_LIMIT <= self.m22 <= COORD_LIMIT
    }

    /// The transform that leaves every vector unchanged.
    pub fn identity() -> (r: Transform)
        ensures
            r.model() == spec_identity(),
            r.bounded(),
    {
        Transform { m00: 1, m01: 0, m02: 0, m10: 0, m11: 1, m12: 0, m20: 0, m21: 0, m22: 1 }
    }

    /// Matrix product `self * other`: the composed transform applies
    /// `self` first and `other` second.
    pub fn compose(&self, other: &Transform) -> (r: Transform)
        requires
            self.bounded(),
            other.bounded(),
        ensures
            r.model() == spec_compose(self.model(), other.model()),
    {
        Transform {
            m00: dot3(self.m00, self.m01, self.m02, other.m00, other.m10, other.m20),
            m01: dot3(self.m00, self.m01, self.m02, other.m01, other.m11, other.m21),
            m02: dot3(self.m00, self.m01, self.m02, other.m02, other.m12, other.m22),
            m10: dot3(self.m10, self.m11, self.m12, other.m00, other.m10, other.m20),
            m11: dot3(self.m10, self.m11, self.m12, other.m01, other.m11, other.m21),
            m12: dot3(self.m10, self.m11, self.m12, other.m02, other.m12, other.m22),
            m20: dot3(self.m20, self.m21, self.m22, other.m00, other.m10, other.m20),
            m21: dot3(self.m20, self.m21, self.m22, other.m01, other.m11, other.m21),
            m22: dot3(self.m20, self.m21, self.m22, other.m02, other.m12, other.m22),
        }
    }
}

/// Inner product of a matrix row with a matrix column.
fn dot3(a0: i64, a1: i64, a2: i64, b0: i64, b1: i64, b2: i64) -> (r: i64)
    requires
        -COORD_LIMIT <= a0 <= COORD_LIMIT,
        -COORD_LIMIT <= a1 <= COORD_LIMIT,
        -COORD_LIMIT <= a2 <= COORD_LIMIT,
        -COORD_LIMIT <= b0 <= COORD_LIMIT,
        -COORD_LIMIT <= b1 <= COORD_LIMIT,
        -COORD_LIMIT <= b2 <= COORD_LIMIT,
    ensures
        r == a0 * b0 + a1 * b1 + a2 * b2,
{
    proof {
        assert(-0x10000000000 <= a0 * b0 <= 0x10000000000) by (nonlinear_arith)
            requires
                -1048576 <= a0 <= 1048576,
                -1048576 <= b0 <= 1048576,
        ;
        assert(-0x10000000000 <= a1 * b1 <= 0x10000000000) by (nonlinear_arith)
            requires
                -1048576 <= a1 <= 1048576,
                -1048576 <= b1 <= 1048576,
        ;
        assert(-0x10000000000 <= a2 * b2 <= 0x10000000000) by (nonlinear_arith)
            requires
                -1048576 <= a2 <= 1048576,
                -1048576 <= b2 <= 1048576,
        ;
    }
    a0 * b0 + a1 * b1 + a2 * b2
}

/// Composition order is load-bearing: transforming a vector by
/// `spec_compose(a, b)` is the same as transforming it by `a` first and
/// by `b` second, never the other way around.
pub proof fn lemma_compose_applies_in_order(v: (int, int, int), a: TransformModel, b: TransformModel)
    ensures
        spec_apply(v, spec_compose(a, b)) == spec_apply(spec_apply(v, a), b),
{
    lemma_column_applies_in_order(v, a, b.m00, b.m10, b.m20);
    lemma_column_applies_in_order(v, a, b.m01, b.m11, b.m21);
    lemma_column_applies_in_order(v, a, b.m02, b.m12, b.m22);
}

/// One coordinate of `lemma_compose_applies_in_order`: transforming `v` by
/// `a` and then taking the inner product with the column `(c0, c1, c2)`
/// matches taking the inner product with the column already multiplied
/// through `a`.
proof fn lemma_column_applies_in_order(
    v: (int, int, int),
    a: TransformModel,
    c0: int,
    c1: int,
    c2: int,
)
    ensures
        (v.0 * a.m00 + v.1 * a.m10 + v.2 * a.m20) * c0 + (v.0 * a.m01 + v.1 * a.m11 + v.2 * a.m21)
            * c1 + (v.0 * a.m02 + v.1 * a.m12 + v.2 * a.m22) * c2 == v.0 * (a.m00 * c0 + a.m01 * c1
            + a.m02 * c2) + v.1 * (a.m10 * c0 + a.m11 * c1 + a.m12 * c2) + v.2 * (a.m20 * c0 + a.m21
            * c1 + a.m22 * c2),
{
    let x = v.0;
    let y = v.1;
    let w = v.2;
    lemma_row_dot_column(x, y, w, a.m00, a.m10, a.m20, c0);
    lemma_row_dot_column(x, y, w, a.m01, a.m11, a.m21, c1);
    lemma_row_dot_column(x, y, w, a.m02, a.m12, a.m22, c2);
    vstd::arithmetic::mul::lemma_mul_is_distributive_add(x, a.m00 * c0, a.m01 * c1);
    vstd::arithmetic::mul::lemma_mul_is_distributive_add(x, a.m00 * c0 + a.m01 * c1, a.m02 * c2);
    vstd::arithmetic::mul::lemma_mul_is_distributive_add(y, a.m10 * c0, a.m11 * c1);
    vstd::arithmetic::mul::lemma_mul_is_distributive_add(y, a.m10 * c0 + a.m11 * c1, a.m12 * c2);
    vstd::arithmetic::mul::lemma_mul_is_distributive_add(w, a.m20 * c0, a.m21 * c1);
    vstd::arithmetic::mul::lemma_mul_is_distributive_add(w, a.m20 * c0 + a.m21 * c1, a.m22 * c2);
}

/// Distributing one column entry over a transformed coordinate:
/// `(x*p + y*q + w*r) * c == x*(p*c) + y*(q*c) + w*(r*c)`.
proof fn lemma_row_dot_column(x: int, y: int, w: int, p: int, q: int, r: int, c: int)
    ensures
        (x * p + y * q + w * r) * c == x * (p * c) + y * (q * c) + w * (r * c),
{
    vstd::arithmetic::mul::lemma_mul_is_distributive_add_other_way(c, x * p + y * q, w * r);
    vstd::arithmetic::mul::lemma_mul_is_distributive_add_other_way(c, x * p, y * q);
    vstd::arithmetic::mul::lemma_mul_is_associative(x, p, c);
    vstd::arithmetic::mul::lemma_mul_is_associative(y, q, c);
    vstd::arithmetic::mul::lemma_mul_is_associative(w, r, c);
}

/// The identity transform leaves every vector unchanged.
pub proof fn lemma_identity_applies_trivially(v: (int, int, int))
    ensures
        spec_apply(v, spec_identity()) == v,
{
    vstd::arithmetic::mul::lemma_mul_basics(v.0);
    vstd::arithmetic::mul::lemma_mul_basics(v.1);
    vstd::arithmetic::mul::lemma_mul_basics(v.2);
    assert(spec_apply(v, spec_identity()).0 == v.0);
    assert(spec_apply(v, spec_identity()).1 == v.1);
    assert(spec_apply(v, spec_identity()).2 == v.2);
}

} // verus!
