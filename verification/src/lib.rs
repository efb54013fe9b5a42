//! A small 3D math library: quaternion, 3-vector, and 3x3-matrix arithmetic
//! for rotation and spatial transforms.
//!
//! All components are exact integer scalars, so every operation is specified
//! exactly: each method's contract gives the value of every component of the
//! result, and the algebraic laws of the operations (associativity of the
//! quaternion and matrix products, involution of conjugation and transposition,
//! identity of the identity matrix, preservation of squared magnitude under
//! rotation) are proved as theorems over the same specifications.
//!
//! Overflow preconditions are stated over the largest component magnitude of
//! the operands (`vec_max_abs`, `quat_max_abs`, `mat_max_abs`): they demand no
//! more than that every intermediate value of the computation fits in an
//! `i64`.

use vstd::prelude::*;

verus! {

/// Mathematical value of a [`VectorFloat`]: a 3-vector of unbounded integers.
#[verifier::ext_equal]
pub struct VectorView {
    pub x: int,
    pub y: int,
    pub z: int,
}

/// Component-wise sum of two vectors.
pub open spec fn vec_add(a: VectorView, b: VectorView) -> VectorView {
    VectorView { x: a.x + b.x, y: a.y + b.y, z: a.z + b.z }
}

/// Component-wise difference of two vectors.
pub open spec fn vec_sub(a: VectorView, b: VectorView) -> VectorView {
    VectorView { x: a.x - b.x, y: a.y - b.y, z: a.z - b.z }
}

/// Absolute value of a scalar.
pub open spec fn scalar_abs(n: int) -> int {
    if n < 0 {
        -n
    } else {
        n
    }
}

/// The larger of two scalars.
pub open spec fn int_max(a: int, b: int) -> int {
    if a < b {
        b
    } else {
        a
    }
}

/// Largest absolute value among the three components.
pub open spec fn vec_max_abs(a: VectorView) -> int {
    int_max(int_max(scalar_abs(a.x), scalar_abs(a.y)), scalar_abs(a.z))
}

/// Cross product of two vectors, with the component formulas this library
/// uses. Note that the `y` component is `a.z * b.x - a.x * b.z`, the negation
/// of the conventional right-hand-rule formula; the formula is kept exactly
/// as the library has always computed it.
pub open spec fn vec_cross(a: VectorView, b: VectorView) -> VectorView {
    VectorView {
        x: a.z * b.y - a.y * b.z,
        y: a.z * b.x - a.x * b.z,
        z: a.x * b.y - a.y * b.x,
    }
}

/// Dot product of two vectors.
pub open spec fn vec_dot(a: VectorView, b: VectorView) -> int {
    a.x * b.x + a.y * b.y + a.z * b.z
}

/// Each component scaled by `n`.
pub open spec fn vec_scale(a: VectorView, n: int) -> VectorView {
    VectorView { x: a.x * n, y: a.y * n, z: a.z * n }
}

/// Squared Euclidean magnitude of a vector.
pub open spec fn vec_norm_sq(a: VectorView) -> int {
    a.x * a.x + a.y * a.y + a.z * a.z
}

/// A product of values bounded in magnitude is bounded by the product of the
/// bounds.
proof fn lemma_mul_abs_bound(a: int, b: int, ba: int, bb: int)
    by (nonlinear_arith)
    requires
        -ba <= a,
        a <= ba,
        -bb <= b,
        b <= bb,
    ensures
        0 <= ba * bb,
        -(ba * bb) <= a * b,
        a * b <= ba * bb,
{
}

/// Mathematical value of a [`Quaternion`]: four unbounded integer components.
#[verifier::ext_equal]
pub struct QuaternionView {
    pub w: int,
    pub x: int,
    pub y: int,
    pub z: int,
}

/// Hamilton product of two quaternions; `a` is the left operand.
pub open spec fn quat_mul(a: QuaternionView, b: QuaternionView) -> QuaternionView {
    QuaternionView {
        w: a.w * b.w - a.x * b.x - a.y * b.y - a.z * b.z,
        x: a.w * b.x + a.x * b.w + a.y * b.z - a.z * b.y,
        y: a.w * b.y - a.x * b.z + a.y * b.w + a.z * b.x,
        z: a.w * b.z + a.x * b.y - a.y * b.x + a.z * b.w,
    }
}

/// Conjugate: the vector part negated, the scalar part kept.
pub open spec fn quat_conjugate(a: QuaternionView) -> QuaternionView {
    QuaternionView { w: a.w, x: -a.x, y: -a.y, z: -a.z }
}

/// Squared magnitude of a quaternion.
pub open spec fn quat_norm_sq(a: QuaternionView) -> int {
    a.w * a.w + a.x * a.x + a.y * a.y + a.z * a.z
}

/// Largest absolute value among the four components.
pub open spec fn quat_max_abs(a: QuaternionView) -> int {
    int_max(
        int_max(scalar_abs(a.w), scalar_abs(a.x)),
        int_max(scalar_abs(a.y), scalar_abs(a.z)),
    )
}

/// The pure quaternion embedding a vector: zero scalar part.
pub open spec fn pure_quat(v: VectorView) -> QuaternionView {
    QuaternionView { w: 0, x: v.x, y: v.y, z: v.z }
}

/// The vector part of the sandwich product `q * (0, v) * conjugate(q)`:
/// rotation of `v` by `q`, when `q` has unit squared magnitude.
pub open spec fn vec_rotated(v: VectorView, q: QuaternionView) -> VectorView {
    let s = quat_mul(quat_mul(q, pure_quat(v)), quat_conjugate(q));
    VectorView { x: s.x, y: s.y, z: s.z }
}

/// Every component of a Hamilton product is at most four times the product of
/// the operands' largest component magnitudes.
proof fn lemma_quat_mul_max_bound(a: QuaternionView, b: QuaternionView, ba: int, bb: int)
    requires
        quat_max_abs(a) <= ba,
        quat_max_abs(b) <= bb,
    ensures
        quat_max_abs(quat_mul(a, b)) <= 4 * (ba * bb),
        0 <= ba * bb,
{
    lemma_mul_abs_bound(a.w, b.w, ba, bb);
    lemma_mul_abs_bound(a.w, b.x, ba, bb);
    lemma_mul_abs_bound(a.w, b.y, ba, bb);
    lemma_mul_abs_bound(a.w, b.z, ba, bb);
    lemma_mul_abs_bound(a.x, b.w, ba, bb);
    lemma_mul_abs_bound(a.x, b.x, ba, bb);
    lemma_mul_abs_bound(a.x, b.y, ba, bb);
    lemma_mul_abs_bound(a.x, b.z, ba, bb);
    lemma_mul_abs_bound(a.y, b.w, ba, bb);
    lemma_mul_abs_bound(a.y, b.x, ba, bb);
    lemma_mul_abs_bound(a.y, b.y, ba, bb);
    lemma_mul_abs_bound(a.y, b.z, ba, bb);
    lemma_mul_abs_bound(a.z, b.w, ba, bb);
    lemma_mul_abs_bound(a.z, b.x, ba, bb);
    lemma_mul_abs_bound(a.z, b.y, ba, bb);
    lemma_mul_abs_bound(a.z, b.z, ba, bb);
}

/// A 4-component quaternion `(w, x, y, z)`: a compact representation of a 3D
/// rotation when its squared magnitude is 1. The type does not enforce unit
/// magnitude; callers normalize where a unit quaternion is required.
#[derive(Debug, Clone, Copy, PartialEq)]
pub struct Quaternion {
    pub w: i64,
    pub x: i64,
    pub y: i64,
    pub z: i64,
}

impl View for Quaternion {
    type V = QuaternionView;

    open spec fn view(&self) -> QuaternionView {
        QuaternionView { w: self.w as int, x: self.x as int, y: self.y as int, z: self.z as int }
    }
}

impl Quaternion {
    pub fn new(w: i64, x: i64, y: i64, z: i64) -> (r: Self)
        ensures
            r@ == (QuaternionView { w: w as int, x: x as int, y: y as int, z: z as int }),
    {
        Self { w, x, y, z }
    }

    /// Hamilton product of `self` (left operand) and `q` (right operand).
    /// The product is not commutative: the order of the operands matters.
    pub fn get_product(&self, q: Quaternion) -> (r: Quaternion)
        requires
            quat_max_abs(self@) * quat_max_abs(q@) <= i64::MAX / 4,
        ensures
            r@ == quat_mul(self@, q@),
    {
        proof {
            let ma = quat_max_abs(self@);
            let mb = quat_max_abs(q@);
            lemma_mul_abs_bound(self.w as int, q.w as int, ma, mb);
            lemma_mul_abs_bound(self.w as int, q.x as int, ma, mb);
            lemma_mul_abs_bound(self.w as int, q.y as int, ma, mb);
            lemma_mul_abs_bound(self.w as int, q.z as int, ma, mb);
            lemma_mul_abs_bound(self.x as int, q.w as int, ma, mb);
            lemma_mul_abs_bound(self.x as int, q.x as int, ma, mb);
            lemma_mul_abs_bound(self.x as int, q.y as int, ma, mb);
            lemma_mul_abs_bound(self.x as int, q.z as int, ma, mb);
            lemma_mul_abs_bound(self.y as int, q.w as int, ma, mb);
            lemma_mul_abs_bound(self.y as int, q.x as int, ma, mb);
            lemma_mul_abs_bound(self.y as int, q.y as int, ma, mb);
            lemma_mul_abs_bound(self.y as int, q.z as int, ma, mb);
            lemma_mul_abs_bound(self.z as int, q.w as int, ma, mb);
            lemma_mul_abs_bound(self.z as int, q.x as int, ma, mb);
            lemma_mul_abs_bound(self.z as int, q.y as int, ma, mb);
            lemma_mul_abs_bound(self.z as int, q.z as int, ma, mb);
        }
        Quaternion {
            w: self.w * q.w - self.x * q.x - self.y * q.y - self.z * q.z,
            x: self.w * q.x + self.x * q.w + self.y * q.z - self.z * q.y,
            y: self.w * q.y - self.x * q.z + self.y * q.w + self.z * q.x,
            z: self.w * q.z + self.x * q.y - self.y * q.x + self.z * q.w,
        }
    }

    /// Conjugate of `self`: negates the vector part, keeps the scalar part.
    pub fn get_conjugate(&self) -> (r: Quaternion)
        requires
            quat_max_abs(self@) <= i64::MAX,
        ensures
            r@ == quat_conjugate(self@),
    {
        Quaternion { w: self.w, x: -self.x, y: -self.y, z: -self.z }
    }
}

/// A 3-component vector.
#[derive(Debug, Clone, Copy, PartialEq)]
pub struct VectorFloat {
    pub x: i64,
    pub y: i64,
    pub z: i64,
}

impl View for VectorFloat {
    type V = VectorView;

    open spec fn view(&self) -> VectorView {
        VectorView { x: self.x as int, y: self.y as int, z: self.z as int }
    }
}

impl VectorFloat {
    pub fn new(x: i64, y: i64, z: i64) -> (r: Self)
        ensures
            r@ == (VectorView { x: x as int, y: y as int, z: z as int }),
    {
        Self { x, y, z }
    }

    /// Adds `self` with `vec` and returns the result.
    pub fn add(&self, vec: VectorFloat) -> (r: VectorFloat)
        requires
            vec_max_abs(self@) + vec_max_abs(vec@) <= i64::MAX,
        ensures
            r@ == vec_add(self@, vec@),
    {
        VectorFloat { x: self.x + vec.x, y: self.y + vec.y, z: self.z + vec.z }
    }

    /// Subtracts `vec` from `self` and returns the result.
    pub fn sub(&self, vec: VectorFloat) -> (r: VectorFloat)
        requires
            vec_max_abs(self@) + vec_max_abs(vec@) <= i64::MAX,
        ensures
            r@ == vec_sub(self@, vec@),
    {
        VectorFloat { x: self.x - vec.x, y: self.y - vec.y, z: self.z - vec.z }
    }

    /// Calculates the cross product between `self` and `v` and returns the
    /// result, by the exact component formulas of [`vec_cross`].
    pub fn cross(&self, v: &VectorFloat) -> (r: VectorFloat)
        requires
            vec_max_abs(self@) * vec_max_abs(v@) <= i64::MAX / 2,
        ensures
            r@ == vec_cross(self@, v@),
    {
        proof {
            let ma = vec_max_abs(self@);
            let mb = vec_max_abs(v@);
            lemma_mul_abs_bound(self.z as int, v.y as int, ma, mb);
            lemma_mul_abs_bound(self.y as int, v.z as int, ma, mb);
            lemma_mul_abs_bound(self.z as int, v.x as int, ma, mb);
            lemma_mul_abs_bound(self.x as int, v.z as int, ma, mb);
            lemma_mul_abs_bound(self.x as int, v.y as int, ma, mb);
            lemma_mul_abs_bound(self.y as int, v.x as int, ma, mb);
        }
        VectorFloat {
            x: self.z * v.y - self.y * v.z,
            y: self.z * v.x - self.x * v.z,
            z: self.x * v.y - self.y * v.x,
        }
    }

    /// Scales each component of `self` by `num`.
    pub fn prod(&self, num: i64) -> (r: VectorFloat)
        requires
            vec_max_abs(self@) * scalar_abs(num as int) <= i64::MAX,
        ensures
            r@ == vec_scale(self@, num as int),
    {
        proof {
            let ma = vec_max_abs(self@);
            let mn = scalar_abs(num as int);
            lemma_mul_abs_bound(self.x as int, num as int, ma, mn);
            lemma_mul_abs_bound(self.y as int, num as int, ma, mn);
            lemma_mul_abs_bound(self.z as int, num as int, ma, mn);
        }
        VectorFloat { x: self.x * num, y: self.y * num, z: self.z * num }
    }

    /// Dot product of `self` and `v`.
    pub fn dot(&self, v: &VectorFloat) -> (r: i64)
        requires
            vec_max_abs(self@) * vec_max_abs(v@) <= i64::MAX / 3,
        ensures
            r as int == vec_dot(self@, v@),
    {
        proof {
            let ma = vec_max_abs(self@);
            let mb = vec_max_abs(v@);
            lemma_mul_abs_bound(self.x as int, v.x as int, ma, mb);
            lemma_mul_abs_bound(self.y as int, v.y as int, ma, mb);
            lemma_mul_abs_bound(self.z as int, v.z as int, ma, mb);
        }
        self.x * v.x + self.y * v.y + self.z * v.z
    }

    /// Rotation of `self` by `q`, via the sandwich product
    /// `q * (0, self) * conjugate(q)`; the scalar part of the intermediate is
    /// discarded. The result is the rotation of `self` when `q` has unit
    /// squared magnitude; the contract gives the exact sandwich product for
    /// every `q`.
    pub fn get_rotated(&self, q: Quaternion) -> (r: VectorFloat)
        requires
            quat_max_abs(q@) <= i64::MAX,
            quat_max_abs(q@) * quat_max_abs(q@) * vec_max_abs(self@) <= i64::MAX / 16,
        ensures
            r@ == vec_rotated(self@, q@),
    {
        let mut p = Quaternion { w: 0, x: self.x, y: self.y, z: self.z };
        proof {
            assert(p@ == pure_quat(self@));
            assert(quat_max_abs(p@) <= vec_max_abs(self@));
            assert(quat_max_abs(q@) * quat_max_abs(p@) <= i64::MAX / 4) by (nonlinear_arith)
                requires
                    0 <= quat_max_abs(q@),
                    0 <= quat_max_abs(p@),
                    quat_max_abs(p@) <= vec_max_abs(self@),
                    quat_max_abs(q@) * quat_max_abs(q@) * vec_max_abs(self@) <= i64::MAX / 16;
        }
        p = q.get_product(p);
        proof {
            lemma_quat_mul_max_bound(q@, pure_quat(self@), quat_max_abs(q@), vec_max_abs(self@));
        }
        let c = q.get_conjugate();
        proof {
            assert(quat_max_abs(c@) <= quat_max_abs(q@));
            assert(quat_max_abs(p@) * quat_max_abs(c@) <= i64::MAX / 4) by (nonlinear_arith)
                requires
                    0 <= quat_max_abs(p@),
                    quat_max_abs(p@) <= 4 * (quat_max_abs(q@) * vec_max_abs(self@)),
                    0 <= quat_max_abs(c@),
                    quat_max_abs(c@) <= quat_max_abs(q@),
                    0 <= quat_max_abs(q@),
                    0 <= vec_max_abs(self@),
                    quat_max_abs(q@) * quat_max_abs(q@) * vec_max_abs(self@) <= i64::MAX / 16;
        }
        p = p.get_product(c);
        VectorFloat { x: p.x, y: p.y, z: p.z }
    }

    /// Rotates `self` in place by `q`: the in-place form of [`Self::get_rotated`].
    pub fn rotate(&mut self, q: Quaternion)
        requires
            quat_max_abs(q@) <= i64::MAX,
            quat_max_abs(q@) * quat_max_abs(q@) * vec_max_abs(old(self)@) <= i64::MAX / 16,
        ensures
            final(self)@ == vec_rotated(old(self)@, q@),
    {
        let r = self.get_rotated(q);
        self.x = r.x;
        self.y = r.y;
        self.z = r.z;
    }
}

/// Mathematical value of a [`Matrix3`]: nine unbounded integer entries,
/// `mRC` standing for the entry at row `R`, column `C`.
#[verifier::ext_equal]
pub struct MatrixView {
    pub m00: int,
    pub m01: int,
    pub m02: int,
    pub m10: int,
    pub m11: int,
    pub m12: int,
    pub m20: int,
    pub m21: int,
    pub m22: int,
}

/// Standard 3x3 matrix product: entry `(i, j)` is the sum over `k` of
/// `a[i][k] * b[k][j]`.
pub open spec fn mat_mul(a: MatrixView, b: MatrixView) -> MatrixView {
    MatrixView {
        m00: a.m00 * b.m00 + a.m01 * b.m10 + a.m02 * b.m20,
        m01: a.m00 * b.m01 + a.m01 * b.m11 + a.m02 * b.m21,
        m02: a.m00 * b.m02 + a.m01 * b.m12 + a.m02 * b.m22,
        m10: a.m10 * b.m00 + a.m11 * b.m10 + a.m12 * b.m20,
        m11: a.m10 * b.m01 + a.m11 * b.m11 + a.m12 * b.m21,
        m12: a.m10 * b.m02 + a.m11 * b.m12 + a.m12 * b.m22,
        m20: a.m20 * b.m00 + a.m21 * b.m10 + a.m22 * b.m20,
        m21: a.m20 * b.m01 + a.m21 * b.m11 + a.m22 * b.m21,
        m22: a.m20 * b.m02 + a.m21 * b.m12 + a.m22 * b.m22,
    }
}

/// Transpose: entry `(i, j)` becomes entry `(j, i)`.
pub open spec fn mat_transpose(a: MatrixView) -> MatrixView {
    MatrixView {
        m00: a.m00,
        m01: a.m10,
        m02: a.m20,
        m10: a.m01,
        m11: a.m11,
        m12: a.m21,
        m20: a.m02,
        m21: a.m12,
        m22: a.m22,
    }
}

/// Diagonal matrix with diagonal `(d0, d1, d2)` and zero elsewhere.
pub open spec fn mat_diag(d0: int, d1: int, d2: int) -> MatrixView {
    MatrixView {
        m00: d0,
        m01: 0,
        m02: 0,
        m10: 0,
        m11: d1,
        m12: 0,
        m20: 0,
        m21: 0,
        m22: d2,
    }
}

/// The identity matrix.
pub open spec fn mat_identity() -> MatrixView {
    mat_diag(1, 1, 1)
}

/// Column scaling: column 0 is scaled by `v.x`, column 1 by `v.y`, column 2
/// by `v.z`. This is not the linear-algebra matrix-vector product — the name
/// and the element-wise behaviour are kept exactly as the library has always
/// had them.
pub open spec fn mat_col_scale(a: MatrixView, v: VectorView) -> MatrixView {
    MatrixView {
        m00: a.m00 * v.x,
        m01: a.m01 * v.y,
        m02: a.m02 * v.z,
        m10: a.m10 * v.x,
        m11: a.m11 * v.y,
        m12: a.m12 * v.z,
        m20: a.m20 * v.x,
        m21: a.m21 * v.y,
        m22: a.m22 * v.z,
    }
}

/// Largest absolute value among the nine entries.
pub open spec fn mat_max_abs(a: MatrixView) -> int {
    int_max(
        int_max(
            int_max(scalar_abs(a.m00), scalar_abs(a.m01)),
            int_max(scalar_abs(a.m02), scalar_abs(a.m10)),
        ),
        int_max(
            int_max(scalar_abs(a.m11), scalar_abs(a.m12)),
            int_max(
                int_max(scalar_abs(a.m20), scalar_abs(a.m21)),
                scalar_abs(a.m22),
            ),
        ),
    )
}

/// A 3x3 matrix, stored row-major: `a[row][col]`.
#[derive(Debug, Clone, Copy, PartialEq)]
pub struct Matrix3 {
    pub a: [[i64; 3]; 3],
}

impl View for Matrix3 {
    type V = MatrixView;

    open spec fn view(&self) -> MatrixView {
        MatrixView {
            m00: self.a[0][0] as int,
            m01: self.a[0][1] as int,
            m02: self.a[0][2] as int,
            m10: self.a[1][0] as int,
            m11: self.a[1][1] as int,
            m12: self.a[1][2] as int,
            m20: self.a[2][0] as int,
            m21: self.a[2][1] as int,
            m22: self.a[2][2] as int,
        }
    }
}

impl Matrix3 {
    pub fn new(a: [[i64; 3]; 3]) -> (r: Self)
        ensures
            r@ == (MatrixView {
                m00: a[0][0] as int,
                m01: a[0][1] as int,
                m02: a[0][2] as int,
                m10: a[1][0] as int,
                m11: a[1][1] as int,
                m12: a[1][2] as int,
                m20: a[2][0] as int,
                m21: a[2][1] as int,
                m22: a[2][2] as int,
            }),
    {
        Self { a }
    }

    /// Stacks three row vectors into a matrix.
    pub fn new_from_rows(row1: [i64; 3], row2: [i64; 3], row3: [i64; 3]) -> (r: Matrix3)
        ensures
            r@ == (MatrixView {
                m00: row1[0] as int,
                m01: row1[1] as int,
                m02: row1[2] as int,
                m10: row2[0] as int,
                m11: row2[1] as int,
                m12: row2[2] as int,
                m20: row3[0] as int,
                m21: row3[1] as int,
                m22: row3[2] as int,
            }),
    {
        Matrix3::new([row1, row2, row3])
    }

    /// Lays three column vectors side by side into a matrix.
    pub fn new_from_cols(col1: [i64; 3], col2: [i64; 3], col3: [i64; 3]) -> (r: Matrix3)
        ensures
            r@ == (MatrixView {
                m00: col1[0] as int,
                m01: col2[0] as int,
                m02: col3[0] as int,
                m10: col1[1] as int,
                m11: col2[1] as int,
                m12: col3[1] as int,
                m20: col1[2] as int,
                m21: col2[2] as int,
                m22: col3[2] as int,
            }),
    {
        Matrix3::new([
            [col1[0], col2[0], col3[0]],
            [col1[1], col2[1], col3[1]],
            [col1[2], col2[2], col3[2]],
        ])
    }

    /// Returns a new matrix with the given diagonal entries and zero
    /// elsewhere.
    pub fn new_from_diag(diag: [i64; 3]) -> (r: Matrix3)
        ensures
            r@ == mat_diag(diag[0] as int, diag[1] as int, diag[2] as int),
    {
        Matrix3::new([
            [diag[0], 0, 0],
            [0, diag[1], 0],
            [0, 0, diag[2]],
        ])
    }

    /// The identity matrix: ones on the diagonal, zero elsewhere.
    pub fn new_identity() -> (r: Matrix3)
        ensures
            r@ == mat_identity(),
    {
        Matrix3::new_from_diag([1, 1, 1])
    }

    /// Returns the underlying grid by value.
    pub fn get_raw(&self) -> (r: [[i64; 3]; 3])
        ensures
            r == self.a,
    {
        self.a
    }

    /// Transposes the `self` matrix and returns the result.
    pub fn transpose(&self) -> (r: Matrix3)
        ensures
            r@ == mat_transpose(self@),
    {
        Matrix3::new([
            [self.a[0][0], self.a[1][0], self.a[2][0]],
            [self.a[0][1], self.a[1][1], self.a[2][1]],
            [self.a[0][2], self.a[1][2], self.a[2][2]],
        ])
    }

    /// Calculates the matrix product between `self` and `m`, `self` being the
    /// left operand.
    pub fn product(&self, m: &Matrix3) -> (r: Matrix3)
        requires
            mat_max_abs(self@) * mat_max_abs(m@) <= i64::MAX / 3,
        ensures
            r@ == mat_mul(self@, m@),
    {
        proof {
            let ma = mat_max_abs(self@);
            let mb = mat_max_abs(m@);
            lemma_mul_abs_bound(self.a[0][0] as int, m.a[0][0] as int, ma, mb);
            lemma_mul_abs_bound(self.a[0][0] as int, m.a[0][1] as int, ma, mb);
            lemma_mul_abs_bound(self.a[0][0] as int, m.a[0][2] as int, ma, mb);
            lemma_mul_abs_bound(self.a[0][1] as int, m.a[1][0] as int, ma, mb);
            lemma_mul_abs_bound(self.a[0][1] as int, m.a[1][1] as int, ma, mb);
            lemma_mul_abs_bound(self.a[0][1] as int, m.a[1][2] as int, ma, mb);
            lemma_mul_abs_bound(self.a[0][2] as int, m.a[2][0] as int, ma, mb);
            lemma_mul_abs_bound(self.a[0][2] as int, m.a[2][1] as int, ma, mb);
            lemma_mul_abs_bound(self.a[0][2] as int, m.a[2][2] as int, ma, mb);
            lemma_mul_abs_bound(self.a[1][0] as int, m.a[0][0] as int, ma, mb);
            lemma_mul_abs_bound(self.a[1][0] as int, m.a[0][1] as int, ma, mb);
            lemma_mul_abs_bound(self.a[1][0] as int, m.a[0][2] as int, ma, mb);
            lemma_mul_abs_bound(self.a[1][1] as int, m.a[1][0] as int, ma, mb);
            lemma_mul_abs_bound(self.a[1][1] as int, m.a[1][1] as int, ma, mb);
            lemma_mul_abs_bound(self.a[1][1] as int, m.a[1][2] as int, ma, mb);
            lemma_mul_abs_bound(self.a[1][2] as int, m.a[2][0] as int, ma, mb);
            lemma_mul_abs_bound(self.a[1][2] as int, m.a[2][1] as int, ma, mb);
            lemma_mul_abs_bound(self.a[1][2] as int, m.a[2][2] as int, ma, mb);
            lemma_mul_abs_bound(self.a[2][0] as int, m.a[0][0] as int, ma, mb);
            lemma_mul_abs_bound(self.a[2][0] as int, m.a[0][1] as int, ma, mb);
            lemma_mul_abs_bound(self.a[2][0] as int, m.a[0][2] as int, ma, mb);
            lemma_mul_abs_bound(self.a[2][1] as int, m.a[1][0] as int, ma, mb);
            lemma_mul_abs_bound(self.a[2][1] as int, m.a[1][1] as int, ma, mb);
            lemma_mul_abs_bound(self.a[2][1] as int, m.a[1][2] as int, ma, mb);
            lemma_mul_abs_bound(self.a[2][2] as int, m.a[2][0] as int, ma, mb);
            lemma_mul_abs_bound(self.a[2][2] as int, m.a[2][1] as int, ma, mb);
            lemma_mul_abs_bound(self.a[2][2] as int, m.a[2][2] as int, ma, mb);
        }
        Matrix3::new([
            [
                self.a[0][0] * m.a[0][0] + self.a[0][1] * m.a[1][0] + self.a[0][2] * m.a[2][0],
                self.a[0][0] * m.a[0][1] + self.a[0][1] * m.a[1][1] + self.a[0][2] * m.a[2][1],
                self.a[0][0] * m.a[0][2] + self.a[0][1] * m.a[1][2] + self.a[0][2] * m.a[2][2],
            ],
            [
                self.a[1][0] * m.a[0][0] + self.a[1][1] * m.a[1][0] + self.a[1][2] * m.a[2][0],
                self.a[1][0] * m.a[0][1] + self.a[1][1] * m.a[1][1] + self.a[1][2] * m.a[2][1],
                self.a[1][0] * m.a[0][2] + self.a[1][1] * m.a[1][2] + self.a[1][2] * m.a[2][2],
            ],
            [
                self.a[2][0] * m.a[0][0] + self.a[2][1] * m.a[1][0] + self.a[2][2] * m.a[2][0],
                self.a[2][0] * m.a[0][1] + self.a[2][1] * m.a[1][1] + self.a[2][2] * m.a[2][1],
                self.a[2][0] * m.a[0][2] + self.a[2][1] * m.a[1][2] + self.a[2][2] * m.a[2][2],
            ],
        ])
    }

    /// Scales column 0 of `self` by `v.x`, column 1 by `v.y` and column 2 by
    /// `v.z`, element-wise per row, and returns the resulting matrix. Despite
    /// the name this is not a matrix-vector product; see [`mat_col_scale`].
    pub fn vector_product(&self, v: &VectorFloat) -> (r: Matrix3)
        requires
            mat_max_abs(self@) * vec_max_abs(v@) <= i64::MAX,
        ensures
            r@ == mat_col_scale(self@, v@),
    {
        proof {
            let ma = mat_max_abs(self@);
            let mb = vec_max_abs(v@);
            lemma_mul_abs_bound(self.a[0][0] as int, v.x as int, ma, mb);
            lemma_mul_abs_bound(self.a[0][1] as int, v.y as int, ma, mb);
            lemma_mul_abs_bound(self.a[0][2] as int, v.z as int, ma, mb);
            lemma_mul_abs_bound(self.a[1][0] as int, v.x as int, ma, mb);
            lemma_mul_abs_bound(self.a[1][1] as int, v.y as int, ma, mb);
            lemma_mul_abs_bound(self.a[1][2] as int, v.z as int, ma, mb);
            lemma_mul_abs_bound(self.a[2][0] as int, v.x as int, ma, mb);
            lemma_mul_abs_bound(self.a[2][1] as int, v.y as int, ma, mb);
            lemma_mul_abs_bound(self.a[2][2] as int, v.z as int, ma, mb);
        }
        Matrix3::new([
            [self.a[0][0] * v.x, self.a[0][1] * v.y, self.a[0][2] * v.z],
            [self.a[1][0] * v.x, self.a[1][1] * v.y, self.a[1][2] * v.z],
            [self.a[2][0] * v.x, self.a[2][1] * v.y, self.a[2][2] * v.z],
        ])
    }
}

// Algebraic laws of the three types' operations, stated over the same
// specifications that the methods' contracts use.

/// Multiplication is associative, in the grouping the monomial proofs need.
proof fn lemma_mul_reassoc(x: int, y: int, z: int)
    by (nonlinear_arith)
    ensures
        x * (y * z) == x * y * z,
{
}

/// One component of the associativity of the Hamilton product, proved by
/// distributing each factor and reassociating the monomials.
#[verifier::rlimit(100)]
proof fn lemma_qassoc_w(
    pw: int, px: int, py: int, pz: int,
    qw: int, qx: int, qy: int, qz: int,
    rw: int, rx: int, ry: int, rz: int,
)
    ensures
        (pw * qw - px * qx - py * qy - pz * qz) * rw - (pw * qx + px * qw + py * qz - pz * qy) * rx - (pw * qy - px * qz + py * qw + pz * qx) * ry - (pw * qz + px * qy - py * qx + pz * qw) * rz
            == pw * (qw * rw - qx * rx - qy * ry - qz * rz) - px * (qw * rx + qx * rw + qy * rz - qz * ry) - py * (qw * ry - qx * rz + qy * rw + qz * rx) - pz * (qw * rz + qx * ry - qy * rx + qz * rw),
{
    assert((pw * qw - px * qx - py * qy - pz * qz) * rw == pw * qw * rw - px * qx * rw - py * qy * rw - pz * qz * rw) by (nonlinear_arith);
    assert((pw * qx + px * qw + py * qz - pz * qy) * rx == pw * qx * rx + px * qw * rx + py * qz * rx - pz * qy * rx) by (nonlinear_arith);
    assert((pw * qy - px * qz + py * qw + pz * qx) * ry == pw * qy * ry - px * qz * ry + py * qw * ry + pz * qx * ry) by (nonlinear_arith);
    assert((pw * qz + px * qy - py * qx + pz * qw) * rz == pw * qz * rz + px * qy * rz - py * qx * rz + pz * qw * rz) by (nonlinear_arith);
    assert(pw * (qw * rw - qx * rx - qy * ry - qz * rz) == pw * (qw * rw) - pw * (qx * rx) - pw * (qy * ry) - pw * (qz * rz)) by (nonlinear_arith);
    assert(px * (qw * rx + qx * rw + qy * rz - qz * ry) == px * (qw * rx) + px * (qx * rw) + px * (qy * rz) - px * (qz * ry)) by (nonlinear_arith);
    assert(py * (qw * ry - qx * rz + qy * rw + qz * rx) == py * (qw * ry) - py * (qx * rz) + py * (qy * rw) + py * (qz * rx)) by (nonlinear_arith);
    assert(pz * (qw * rz + qx * ry - qy * rx + qz * rw) == pz * (qw * rz) + pz * (qx * ry) - pz * (qy * rx) + pz * (qz * rw)) by (nonlinear_arith);
    lemma_mul_reassoc(pw, qw, rw);
    lemma_mul_reassoc(pw, qx, rx);
    lemma_mul_reassoc(pw, qy, ry);
    lemma_mul_reassoc(pw, qz, rz);
    lemma_mul_reassoc(px, qw, rx);
    lemma_mul_reassoc(px, qx, rw);
    lemma_mul_reassoc(px, qy, rz);
    lemma_mul_reassoc(px, qz, ry);
    lemma_mul_reassoc(py, qw, ry);
    lemma_mul_reassoc(py, qx, rz);
    lemma_mul_reassoc(py, qy, rw);
    lemma_mul_reassoc(py, qz, rx);
    lemma_mul_reassoc(pz, qw, rz);
    lemma_mul_reassoc(pz, qx, ry);
    lemma_mul_reassoc(pz, qy, rx);
    lemma_mul_reassoc(pz, qz, rw);
}

/// One component of the associativity of the Hamilton product, proved by
/// distributing each factor and reassociating the monomials.
#[verifier::rlimit(100)]
proof fn lemma_qassoc_x(
    pw: int, px: int, py: int, pz: int,
    qw: int, qx: int, qy: int, qz: int,
    rw: int, rx: int, ry: int, rz: int,
)
    ensures
        (pw * qw - px * qx - py * qy - pz * qz) * rx + (pw * qx + px * qw + py * qz - pz * qy) * rw + (pw * qy - px * qz + py * qw + pz * qx) * rz - (pw * qz + px * qy - py * qx + pz * qw) * ry
            == pw * (qw * rx + qx * rw + qy * rz - qz * ry) + px * (qw * rw - qx * rx - qy * ry - qz * rz) + py * (qw * rz + qx * ry - qy * rx + qz * rw) - pz * (qw * ry - qx * rz + qy * rw + qz * rx),
{
    assert((pw * qw - px * qx - py * qy - pz * qz) * rx == pw * qw * rx - px * qx * rx - py * qy * rx - pz * qz * rx) by (nonlinear_arith);
    assert((pw * qx + px * qw + py * qz - pz * qy) * rw == pw * qx * rw + px * qw * rw + py * qz * rw - pz * qy * rw) by (nonlinear_arith);
    assert((pw * qy - px * qz + py * qw + pz * qx) * rz == pw * qy * rz - px * qz * rz + py * qw * rz + pz * qx * rz) by (nonlinear_arith);
    assert((pw * qz + px * qy - py * qx + pz * qw) * ry == pw * qz * ry + px * qy * ry - py * qx * ry + pz * qw * ry) by (nonlinear_arith);
    assert(pw * (qw * rx + qx * rw + qy * rz - qz * ry) == pw * (qw * rx) + pw * (qx * rw) + pw * (qy * rz) - pw * (qz * ry)) by (nonlinear_arith);
    assert(px * (qw * rw - qx * rx - qy * ry - qz * rz) == px * (qw * rw) - px * (qx * rx) - px * (qy * ry) - px * (qz * rz)) by (nonlinear_arith);
    assert(py * (qw * rz + qx * ry - qy * rx + qz * rw) == py * (qw * rz) + py * (qx * ry) - py * (qy * rx) + py * (qz * rw)) by (nonlinear_arith);
    assert(pz * (qw * ry - qx * rz + qy * rw + qz * rx) == pz * (qw * ry) - pz * (qx * rz) + pz * (qy * rw) + pz * (qz * rx)) by (nonlinear_arith);
    lemma_mul_reassoc(pw, qw, rx);
    lemma_mul_reassoc(pw, qx, rw);
    lemma_mul_reassoc(pw, qy, rz);
    lemma_mul_reassoc(pw, qz, ry);
    lemma_mul_reassoc(px, qw, rw);
    lemma_mul_reassoc(px, qx, rx);
    lemma_mul_reassoc(px, qy, ry);
    lemma_mul_reassoc(px, qz, rz);
    lemma_mul_reassoc(py, qw, rz);
    lemma_mul_reassoc(py, qx, ry);
    lemma_mul_reassoc(py, qy, rx);
    lemma_mul_reassoc(py, qz, rw);
    lemma_mul_reassoc(pz, qw, ry);
    lemma_mul_reassoc(pz, qx, rz);
    lemma_mul_reassoc(pz, qy, rw);
    lemma_mul_reassoc(pz, qz, rx);
}

/// One component of the associativity of the Hamilton product, proved by
/// distributing each factor and reassociating the monomials.
#[verifier::rlimit(100)]
proof fn lemma_qassoc_y(
    pw: int, px: int, py: int, pz: int,
    qw: int, qx: int, qy: int, qz: int,
    rw: int, rx: int, ry: int, rz: int,
)
    ensures
        (pw * qw - px * qx - py * qy - pz * qz) * ry - (pw * qx + px * qw + py * qz - pz * qy) * rz + (pw * qy - px * qz + py * qw + pz * qx) * rw + (pw * qz + px * qy - py * qx + pz * qw) * rx
            == pw * (qw * ry - qx * rz + qy * rw + qz * rx) - px * (qw * rz + qx * ry - qy * rx + qz * rw) + py * (qw * rw - qx * rx - qy * ry - qz * rz) + pz * (qw * rx + qx * rw + qy * rz - qz * ry),
{
    assert((pw * qw - px * qx - py * qy - pz * qz) * ry == pw * qw * ry - px * qx * ry - py * qy * ry - pz * qz * ry) by (nonlinear_arith);
    assert((pw * qx + px * qw + py * qz - pz * qy) * rz == pw * qx * rz + px * qw * rz + py * qz * rz - pz * qy * rz) by (nonlinear_arith);
    assert((pw * qy - px * qz + py * qw + pz * qx) * rw == pw * qy * rw - px * qz * rw + py * qw * rw + pz * qx * rw) by (nonlinear_arith);
    assert((pw * qz + px * qy - py * qx + pz * qw) * rx == pw * qz * rx + px * qy * rx - py * qx * rx + pz * qw * rx) by (nonlinear_arith);
    assert(pw * (qw * ry - qx * rz + qy * rw + qz * rx) == pw * (qw * ry) - pw * (qx * rz) + pw * (qy * rw) + pw * (qz * rx)) by (nonlinear_arith);
    assert(px * (qw * rz + qx * ry - qy * rx + qz * rw) == px * (qw * rz) + px * (qx * ry) - px * (qy * rx) + px * (qz * rw)) by (nonlinear_arith);
    assert(py * (qw * rw - qx * rx - qy * ry - qz * rz) == py * (qw * rw) - py * (qx * rx) - py * (qy * ry) - py * (qz * rz)) by (nonlinear_arith);
    assert(pz * (qw * rx + qx * rw + qy * rz - qz * ry) == pz * (qw * rx) + pz * (qx * rw) + pz * (qy * rz) - pz * (qz * ry)) by (nonlinear_arith);
    lemma_mul_reassoc(pw, qw, ry);
    lemma_mul_reassoc(pw, qx, rz);
    lemma_mul_reassoc(pw, qy, rw);
    lemma_mul_reassoc(pw, qz, rx);
    lemma_mul_reassoc(px, qw, rz);
    lemma_mul_reassoc(px, qx, ry);
    lemma_mul_reassoc(px, qy, rx);
    lemma_mul_reassoc(px, qz, rw);
    lemma_mul_reassoc(py, qw, rw);
    lemma_mul_reassoc(py, qx, rx);
    lemma_mul_reassoc(py, qy, ry);
    lemma_mul_reassoc(py, qz, rz);
    lemma_mul_reassoc(pz, qw, rx);
    lemma_mul_reassoc(pz, qx, rw);
    lemma_mul_reassoc(pz, qy, rz);
    lemma_mul_reassoc(pz, qz, ry);
}

/// One component of the associativity of the Hamilton product, proved by
/// distributing each factor and reassociating the monomials.
#[verifier::rlimit(100)]
proof fn lemma_qassoc_z(
    pw: int, px: int, py: int, pz: int,
    qw: int, qx: int, qy: int, qz: int,
    rw: int, rx: int, ry: int, rz: int,
)
    ensures
        (pw * qw - px * qx - py * qy - pz * qz) * rz + (pw * qx + px * qw + py * qz - pz * qy) * ry - (pw * qy - px * qz + py * qw + pz * qx) * rx + (pw * qz + px * qy - py * qx + pz * qw) * rw
            == pw * (qw * rz + qx * ry - qy * rx + qz * rw) + px * (qw * ry - qx * rz + qy * rw + qz * rx) - py * (qw * rx + qx * rw + qy * rz - qz * ry) + pz * (qw * rw - qx * rx - qy * ry - qz * rz),
{
    assert((pw * qw - px * qx - py * qy - pz * qz) * rz == pw * qw * rz - px * qx * rz - py * qy * rz - pz * qz * rz) by (nonlinear_arith);
    assert((pw * qx + px * qw + py * qz - pz * qy) * ry == pw * qx * ry + px * qw * ry + py * qz * ry - pz * qy * ry) by (nonlinear_arith);
    assert((pw * qy - px * qz + py * qw + pz * qx) * rx == pw * qy * rx - px * qz * rx + py * qw * rx + pz * qx * rx) by (nonlinear_arith);
    assert((pw * qz + px * qy - py * qx + pz * qw) * rw == pw * qz * rw + px * qy * rw - py * qx * rw + pz * qw * rw) by (nonlinear_arith);
    assert(pw * (qw * rz + qx * ry - qy * rx + qz * rw) == pw * (qw * rz) + pw * (qx * ry) - pw * (qy * rx) + pw * (qz * rw)) by (nonlinear_arith);
    assert(px * (qw * ry - qx * rz + qy * rw + qz * rx) == px * (qw * ry) - px * (qx * rz) + px * (qy * rw) + px * (qz * rx)) by (nonlinear_arith);
    assert(py * (qw * rx + qx * rw + qy * rz - qz * ry) == py * (qw * rx) + py * (qx * rw) + py * (qy * rz) - py * (qz * ry)) by (nonlinear_arith);
    assert(pz * (qw * rw - qx * rx - qy * ry - qz * rz) == pz * (qw * rw) - pz * (qx * rx) - pz * (qy * ry) - pz * (qz * rz)) by (nonlinear_arith);
    lemma_mul_reassoc(pw, qw, rz);
    lemma_mul_reassoc(pw, qx, ry);
    lemma_mul_reassoc(pw, qy, rx);
    lemma_mul_reassoc(pw, qz, rw);
    lemma_mul_reassoc(px, qw, ry);
    lemma_mul_reassoc(px, qx, rz);
    lemma_mul_reassoc(px, qy, rw);
    lemma_mul_reassoc(px, qz, rx);
    lemma_mul_reassoc(py, qw, rx);
    lemma_mul_reassoc(py, qx, rw);
    lemma_mul_reassoc(py, qy, rz);
    lemma_mul_reassoc(py, qz, ry);
    lemma_mul_reassoc(pz, qw, rw);
    lemma_mul_reassoc(pz, qx, rx);
    lemma_mul_reassoc(pz, qy, ry);
    lemma_mul_reassoc(pz, qz, rz);
}

/// The Hamilton product is associative: `(a * b) * c == a * (b * c)`.
/// (It is not commutative: `quat_mul(a, b)` and `quat_mul(b, a)` differ for
/// most operands.)
pub proof fn lemma_quat_mul_associative(a: QuaternionView, b: QuaternionView, c: QuaternionView)
    ensures
        quat_mul(quat_mul(a, b), c) == quat_mul(a, quat_mul(b, c)),
{
    lemma_qassoc_w(a.w, a.x, a.y, a.z, b.w, b.x, b.y, b.z, c.w, c.x, c.y, c.z);
    lemma_qassoc_x(a.w, a.x, a.y, a.z, b.w, b.x, b.y, b.z, c.w, c.x, c.y, c.z);
    lemma_qassoc_y(a.w, a.x, a.y, a.z, b.w, b.x, b.y, b.z, c.w, c.x, c.y, c.z);
    lemma_qassoc_z(a.w, a.x, a.y, a.z, b.w, b.x, b.y, b.z, c.w, c.x, c.y, c.z);
    assert(quat_mul(quat_mul(a, b), c) =~= quat_mul(a, quat_mul(b, c)));
}

/// Conjugation is an involution: conjugating twice gives back the quaternion
/// exactly.
pub proof fn lemma_quat_conjugate_involution(a: QuaternionView)
    ensures
        quat_conjugate(quat_conjugate(a)) == a,
{
    assert(quat_conjugate(quat_conjugate(a)) =~= a);
}

/// One entry of the associativity of the matrix product: a row of the left
/// matrix, the whole middle matrix, and a column of the right matrix.
#[verifier::rlimit(100)]
proof fn lemma_massoc_entry(
    a0: int, a1: int, a2: int,
    b00: int, b01: int, b02: int,
    b10: int, b11: int, b12: int,
    b20: int, b21: int, b22: int,
    c0: int, c1: int, c2: int,
)
    ensures
        (a0 * b00 + a1 * b10 + a2 * b20) * c0 + (a0 * b01 + a1 * b11 + a2 * b21) * c1 + (a0 * b02 + a1 * b12 + a2 * b22) * c2
            == a0 * (b00 * c0 + b01 * c1 + b02 * c2) + a1 * (b10 * c0 + b11 * c1 + b12 * c2) + a2 * (b20 * c0 + b21 * c1 + b22 * c2),
{
    assert((a0 * b00 + a1 * b10 + a2 * b20) * c0 == a0 * b00 * c0 + a1 * b10 * c0 + a2 * b20 * c0) by (nonlinear_arith);
    assert((a0 * b01 + a1 * b11 + a2 * b21) * c1 == a0 * b01 * c1 + a1 * b11 * c1 + a2 * b21 * c1) by (nonlinear_arith);
    assert((a0 * b02 + a1 * b12 + a2 * b22) * c2 == a0 * b02 * c2 + a1 * b12 * c2 + a2 * b22 * c2) by (nonlinear_arith);
    assert(a0 * (b00 * c0 + b01 * c1 + b02 * c2) == a0 * (b00 * c0) + a0 * (b01 * c1) + a0 * (b02 * c2)) by (nonlinear_arith);
    assert(a1 * (b10 * c0 + b11 * c1 + b12 * c2) == a1 * (b10 * c0) + a1 * (b11 * c1) + a1 * (b12 * c2)) by (nonlinear_arith);
    assert(a2 * (b20 * c0 + b21 * c1 + b22 * c2) == a2 * (b20 * c0) + a2 * (b21 * c1) + a2 * (b22 * c2)) by (nonlinear_arith);
    lemma_mul_reassoc(a0, b00, c0);
    lemma_mul_reassoc(a0, b01, c1);
    lemma_mul_reassoc(a0, b02, c2);
    lemma_mul_reassoc(a1, b10, c0);
    lemma_mul_reassoc(a1, b11, c1);
    lemma_mul_reassoc(a1, b12, c2);
    lemma_mul_reassoc(a2, b20, c0);
    lemma_mul_reassoc(a2, b21, c1);
    lemma_mul_reassoc(a2, b22, c2);
}

/// The matrix product is associative: `(a * b) * c == a * (b * c)`.
pub proof fn lemma_mat_mul_associative(a: MatrixView, b: MatrixView, c: MatrixView)
    ensures
        mat_mul(mat_mul(a, b), c) == mat_mul(a, mat_mul(b, c)),
{
    lemma_massoc_entry(a.m00, a.m01, a.m02, b.m00, b.m01, b.m02, b.m10, b.m11, b.m12, b.m20,
        b.m21, b.m22, c.m00, c.m10, c.m20);
    lemma_massoc_entry(a.m00, a.m01, a.m02, b.m00, b.m01, b.m02, b.m10, b.m11, b.m12, b.m20,
        b.m21, b.m22, c.m01, c.m11, c.m21);
    lemma_massoc_entry(a.m00, a.m01, a.m02, b.m00, b.m01, b.m02, b.m10, b.m11, b.m12, b.m20,
        b.m21, b.m22, c.m02, c.m12, c.m22);
    lemma_massoc_entry(a.m10, a.m11, a.m12, b.m00, b.m01, b.m02, b.m10, b.m11, b.m12, b.m20,
        b.m21, b.m22, c.m00, c.m10, c.m20);
    lemma_massoc_entry(a.m10, a.m11, a.m12, b.m00, b.m01, b.m02, b.m10, b.m11, b.m12, b.m20,
        b.m21, b.m22, c.m01, c.m11, c.m21);
    lemma_massoc_entry(a.m10, a.m11, a.m12, b.m00, b.m01, b.m02, b.m10, b.m11, b.m12, b.m20,
        b.m21, b.m22, c.m02, c.m12, c.m22);
    lemma_massoc_entry(a.m20, a.m21, a.m22, b.m00, b.m01, b.m02, b.m10, b.m11, b.m12, b.m20,
        b.m21, b.m22, c.m00, c.m10, c.m20);
    lemma_massoc_entry(a.m20, a.m21, a.m22, b.m00, b.m01, b.m02, b.m10, b.m11, b.m12, b.m20,
        b.m21, b.m22, c.m01, c.m11, c.m21);
    lemma_massoc_entry(a.m20, a.m21, a.m22, b.m00, b.m01, b.m02, b.m10, b.m11, b.m12, b.m20,
        b.m21, b.m22, c.m02, c.m12, c.m22);
    assert(mat_mul(mat_mul(a, b), c) =~= mat_mul(a, mat_mul(b, c)));
}

/// The identity matrix is the multiplicative identity, on either side.
pub proof fn lemma_mat_identity_product(m: MatrixView)
    ensures
        mat_mul(m, mat_identity()) == m,
        mat_mul(mat_identity(), m) == m,
{
    assert(mat_mul(m, mat_identity()) =~= m);
    assert(mat_mul(mat_identity(), m) =~= m);
}

/// Transposition is an involution: transposing twice gives back the matrix
/// exactly.
pub proof fn lemma_mat_transpose_involution(m: MatrixView)
    ensures
        mat_transpose(mat_transpose(m)) == m,
{
    assert(mat_transpose(mat_transpose(m)) =~= m);
}

/// A product with a negated factor is the negated product.
proof fn lemma_mul_neg(x: int, y: int)
    by (nonlinear_arith)
    ensures
        x * (-y) == -(x * y),
{
}

/// Euler's four-square identity: the sum of the squares of the components
/// of a Hamilton product is the product of the operands' sums of squares.
/// Proved by expanding each square and regrouping the monomials.
#[verifier::rlimit(100)]
proof fn lemma_four_square(
    pw: int, px: int, py: int, pz: int,
    qw: int, qx: int, qy: int, qz: int,
)
    ensures
        ((pw * qw - px * qx - py * qy - pz * qz) * (pw * qw - px * qx - py * qy - pz * qz)) + ((pw * qx + px * qw + py * qz - pz * qy) * (pw * qx + px * qw + py * qz - pz * qy)) + ((pw * qy - px * qz + py * qw + pz * qx) * (pw * qy - px * qz + py * qw + pz * qx)) + ((pw * qz + px * qy - py * qx + pz * qw) * (pw * qz + px * qy - py * qx + pz * qw))
            == (pw * pw + px * px + py * py + pz * pz) * (qw * qw + qx * qx + qy * qy + qz * qz),
{
    assert((pw * qw - px * qx - py * qy - pz * qz) * (pw * qw - px * qx - py * qy - pz * qz)
        == (pw * qw) * (pw * qw) - (pw * qw) * (px * qx) - (pw * qw) * (py * qy) - (pw * qw) * (pz * qz) - (px * qx) * (pw * qw) + (px * qx) * (px * qx) + (px * qx) * (py * qy) + (px * qx) * (pz * qz) - (py * qy) * (pw * qw) + (py * qy) * (px * qx) + (py * qy) * (py * qy) + (py * qy) * (pz * qz) - (pz * qz) * (pw * qw) + (pz * qz) * (px * qx) + (pz * qz) * (py * qy) + (pz * qz) * (pz * qz)) by (nonlinear_arith);
    assert((pw * qx + px * qw + py * qz - pz * qy) * (pw * qx + px * qw + py * qz - pz * qy)
        == (pw * qx) * (pw * qx) + (pw * qx) * (px * qw) + (pw * qx) * (py * qz) - (pw * qx) * (pz * qy) + (px * qw) * (pw * qx) + (px * qw) * (px * qw) + (px * qw) * (py * qz) - (px * qw) * (pz * qy) + (py * qz) * (pw * qx) + (py * qz) * (px * qw) + (py * qz) * (py * qz) - (py * qz) * (pz * qy) - (pz * qy) * (pw * qx) - (pz * qy) * (px * qw) - (pz * qy) * (py * qz) + (pz * qy) * (pz * qy)) by (nonlinear_arith);
    assert((pw * qy - px * qz + py * qw + pz * qx) * (pw * qy - px * qz + py * qw + pz * qx)
        == (pw * qy) * (pw * qy) - (pw * qy) * (px * qz) + (pw * qy) * (py * qw) + (pw * qy) * (pz * qx) - (px * qz) * (pw * qy) + (px * qz) * (px * qz) - (px * qz) * (py * qw) - (px * qz) * (pz * qx) + (py * qw) * (pw * qy) - (py * qw) * (px * qz) + (py * qw) * (py * qw) + (py * qw) * (pz * qx) + (pz * qx) * (pw * qy) - (pz * qx) * (px * qz) + (pz * qx) * (py * qw) + (pz * qx) * (pz * qx)) by (nonlinear_arith);
    assert((pw * qz + px * qy - py * qx + pz * qw) * (pw * qz + px * qy - py * qx + pz * qw)
        == (pw * qz) * (pw * qz) + (pw * qz) * (px * qy) - (pw * qz) * (py * qx) + (pw * qz) * (pz * qw) + (px * qy) * (pw * qz) + (px * qy) * (px * qy) - (px * qy) * (py * qx) + (px * qy) * (pz * qw) - (py * qx) * (pw * qz) - (py * qx) * (px * qy) + (py * qx) * (py * qx) - (py * qx) * (pz * qw) + (pz * qw) * (pw * qz) + (pz * qw) * (px * qy) - (pz * qw) * (py * qx) + (pz * qw) * (pz * qw)) by (nonlinear_arith);
    assert((pw * pw + px * px + py * py + pz * pz) * (qw * qw + qx * qx + qy * qy + qz * qz)
        == (pw * pw) * (qw * qw) + (pw * pw) * (qx * qx) + (pw * pw) * (qy * qy) + (pw * pw) * (qz * qz) + (px * px) * (qw * qw) + (px * px) * (qx * qx) + (px * px) * (qy * qy) + (px * px) * (qz * qz) + (py * py) * (qw * qw) + (py * py) * (qx * qx) + (py * py) * (qy * qy) + (py * py) * (qz * qz) + (pz * pz) * (qw * qw) + (pz * pz) * (qx * qx) + (pz * pz) * (qy * qy) + (pz * pz) * (qz * qz)) by (nonlinear_arith);
    assert((pw * qw) * (pw * qw) == (pw * pw) * (qw * qw)) by (nonlinear_arith);
    assert((pw * qw) * (px * qx) == (pw * px) * (qw * qx)) by (nonlinear_arith);
    assert((pw * qw) * (py * qy) == (pw * py) * (qw * qy)) by (nonlinear_arith);
    assert((pw * qw) * (pz * qz) == (pw * pz) * (qw * qz)) by (nonlinear_arith);
    assert((px * qx) * (pw * qw) == (pw * px) * (qw * qx)) by (nonlinear_arith);
    assert((px * qx) * (px * qx) == (px * px) * (qx * qx)) by (nonlinear_arith);
    assert((px * qx) * (py * qy) == (px * py) * (qx * qy)) by (nonlinear_arith);
    assert((px * qx) * (pz * qz) == (px * pz) * (qx * qz)) by (nonlinear_arith);
    assert((py * qy) * (pw * qw) == (pw * py) * (qw * qy)) by (nonlinear_arith);
    assert((py * qy) * (px * qx) == (px * py) * (qx * qy)) by (nonlinear_arith);
    assert((py * qy) * (py * qy) == (py * py) * (qy * qy)) by (nonlinear_arith);
    assert((py * qy) * (pz * qz) == (py * pz) * (qy * qz)) by (nonlinear_arith);
    assert((pz * qz) * (pw * qw) == (pw * pz) * (qw * qz)) by (nonlinear_arith);
    assert((pz * qz) * (px * qx) == (px * pz) * (qx * qz)) by (nonlinear_arith);
    assert((pz * qz) * (py * qy) == (py * pz) * (qy * qz)) by (nonlinear_arith);
    assert((pz * qz) * (pz * qz) == (pz * pz) * (qz * qz)) by (nonlinear_arith);
    assert((pw * qx) * (pw * qx) == (pw * pw) * (qx * qx)) by (nonlinear_arith);
    assert((pw * qx) * (px * qw) == (pw * px) * (qw * qx)) by (nonlinear_arith);
    assert((pw * qx) * (py * qz) == (pw * py) * (qx * qz)) by (nonlinear_arith);
    assert((pw * qx) * (pz * qy) == (pw * pz) * (qx * qy)) by (nonlinear_arith);
    assert((px * qw) * (pw * qx) == (pw * px) * (qw * qx)) by (nonlinear_arith);
    assert((px * qw) * (px * qw) == (px * px) * (qw * qw)) by (nonlinear_arith);
    assert((px * qw) * (py * qz) == (px * py) * (qw * qz)) by (nonlinear_arith);
    assert((px * qw) * (pz * qy) == (px * pz) * (qw * qy)) by (nonlinear_arith);
    assert((py * qz) * (pw * qx) == (pw * py) * (qx * qz)) by (nonlinear_arith);
    assert((py * qz) * (px * qw) == (px * py) * (qw * qz)) by (nonlinear_arith);
    assert((py * qz) * (py * qz) == (py * py) * (qz * qz)) by (nonlinear_arith);
    assert((py * qz) * (pz * qy) == (py * pz) * (qy * qz)) by (nonlinear_arith);
    assert((pz * qy) * (pw * qx) == (pw * pz) * (qx * qy)) by (nonlinear_arith);
    assert((pz * qy) * (px * qw) == (px * pz) * (qw * qy)) by (nonlinear_arith);
    assert((pz * qy) * (py * qz) == (py * pz) * (qy * qz)) by (nonlinear_arith);
    assert((pz * qy) * (pz * qy) == (pz * pz) * (qy * qy)) by (nonlinear_arith);
    assert((pw * qy) * (pw * qy) == (pw * pw) * (qy * qy)) by (nonlinear_arith);
    assert((pw * qy) * (px * qz) == (pw * px) * (qy * qz)) by (nonlinear_arith);
    assert((pw * qy) * (py * qw) == (pw * py) * (qw * qy)) by (nonlinear_arith);
    assert((pw * qy) * (pz * qx) == (pw * pz) * (qx * qy)) by (nonlinear_arith);
    assert((px * qz) * (pw * qy) == (pw * px) * (qy * qz)) by (nonlinear_arith);
    assert((px * qz) * (px * qz) == (px * px) * (qz * qz)) by (nonlinear_arith);
    assert((px * qz) * (py * qw) == (px * py) * (qw * qz)) by (nonlinear_arith);
    assert((px * qz) * (pz * qx) == (px * pz) * (qx * qz)) by (nonlinear_arith);
    assert((py * qw) * (pw * qy) == (pw * py) * (qw * qy)) by (nonlinear_arith);
    assert((py * qw) * (px * qz) == (px * py) * (qw * qz)) by (nonlinear_arith);
    assert((py * qw) * (py * qw) == (py * py) * (qw * qw)) by (nonlinear_arith);
    assert((py * qw) * (pz * qx) == (py * pz) * (qw * qx)) by (nonlinear_arith);
    assert((pz * qx) * (pw * qy) == (pw * pz) * (qx * qy)) by (nonlinear_arith);
    assert((pz * qx) * (px * qz) == (px * pz) * (qx * qz)) by (nonlinear_arith);
    assert((pz * qx) * (py * qw) == (py * pz) * (qw * qx)) by (nonlinear_arith);
    assert((pz * qx) * (pz * qx) == (pz * pz) * (qx * qx)) by (nonlinear_arith);
    assert((pw * qz) * (pw * qz) == (pw * pw) * (qz * qz)) by (nonlinear_arith);
    assert((pw * qz) * (px * qy) == (pw * px) * (qy * qz)) by (nonlinear_arith);
    assert((pw * qz) * (py * qx) == (pw * py) * (qx * qz)) by (nonlinear_arith);
    assert((pw * qz) * (pz * qw) == (pw * pz) * (qw * qz)) by (nonlinear_arith);
    assert((px * qy) * (pw * qz) == (pw * px) * (qy * qz)) by (nonlinear_arith);
    assert((px * qy) * (px * qy) == (px * px) * (qy * qy)) by (nonlinear_arith);
    assert((px * qy) * (py * qx) == (px * py) * (qx * qy)) by (nonlinear_arith);
    assert((px * qy) * (pz * qw) == (px * pz) * (qw * qy)) by (nonlinear_arith);
    assert((py * qx) * (pw * qz) == (pw * py) * (qx * qz)) by (nonlinear_arith);
    assert((py * qx) * (px * qy) == (px * py) * (qx * qy)) by (nonlinear_arith);
    assert((py * qx) * (py * qx) == (py * py) * (qx * qx)) by (nonlinear_arith);
    assert((py * qx) * (pz * qw) == (py * pz) * (qw * qx)) by (nonlinear_arith);
    assert((pz * qw) * (pw * qz) == (pw * pz) * (qw * qz)) by (nonlinear_arith);
    assert((pz * qw) * (px * qy) == (px * pz) * (qw * qy)) by (nonlinear_arith);
    assert((pz * qw) * (py * qx) == (py * pz) * (qw * qx)) by (nonlinear_arith);
    assert((pz * qw) * (pz * qw) == (pz * pz) * (qw * qw)) by (nonlinear_arith);
}

/// The squared magnitude of a Hamilton product is the product of the squared
/// magnitudes of the operands.
pub proof fn lemma_quat_mul_norm_sq(a: QuaternionView, b: QuaternionView)
    ensures
        quat_norm_sq(quat_mul(a, b)) == quat_norm_sq(a) * quat_norm_sq(b),
{
    lemma_four_square(a.w, a.x, a.y, a.z, b.w, b.x, b.y, b.z);
}

/// Conjugation keeps the squared magnitude.
pub proof fn lemma_quat_conjugate_norm_sq(a: QuaternionView)
    ensures
        quat_norm_sq(quat_conjugate(a)) == quat_norm_sq(a),
{
    assert((-a.x) * (-a.x) == a.x * a.x) by (nonlinear_arith);
    assert((-a.y) * (-a.y) == a.y * a.y) by (nonlinear_arith);
    assert((-a.z) * (-a.z) == a.z * a.z) by (nonlinear_arith);
}

/// The sandwich product `q * (0, v) * conjugate(q)` is a pure quaternion: its
/// scalar part is zero, so nothing of the vector is lost when the sandwich
/// product's vector part is taken as the rotated vector.
#[verifier::rlimit(100)]
pub proof fn lemma_sandwich_is_pure(v: VectorView, q: QuaternionView)
    ensures
        quat_mul(quat_mul(q, pure_quat(v)), quat_conjugate(q)).w == 0,
{
    let p = quat_mul(q, pure_quat(v));
    let c = quat_conjugate(q);
    lemma_mul_neg(p.x, q.x);
    lemma_mul_neg(p.y, q.y);
    lemma_mul_neg(p.z, q.z);
    assert(p.w * q.w == -(q.x * v.x * q.w) - q.y * v.y * q.w - q.z * v.z * q.w) by (nonlinear_arith)
        requires
            p.w == -(q.x * v.x) - q.y * v.y - q.z * v.z;
    assert(p.x * q.x == q.w * v.x * q.x + q.y * v.z * q.x - q.z * v.y * q.x) by (nonlinear_arith)
        requires
            p.x == q.w * v.x + q.y * v.z - q.z * v.y;
    assert(p.y * q.y == q.w * v.y * q.y - q.x * v.z * q.y + q.z * v.x * q.y) by (nonlinear_arith)
        requires
            p.y == q.w * v.y - q.x * v.z + q.z * v.x;
    assert(p.z * q.z == q.w * v.z * q.z + q.x * v.y * q.z - q.y * v.x * q.z) by (nonlinear_arith)
        requires
            p.z == q.w * v.z + q.x * v.y - q.y * v.x;
    assert(q.w * v.x * q.x == q.x * v.x * q.w) by (nonlinear_arith);
    assert(q.w * v.y * q.y == q.y * v.y * q.w) by (nonlinear_arith);
    assert(q.w * v.z * q.z == q.z * v.z * q.w) by (nonlinear_arith);
    assert(q.y * v.z * q.x == q.x * v.z * q.y) by (nonlinear_arith);
    assert(q.x * v.y * q.z == q.z * v.y * q.x) by (nonlinear_arith);
    assert(q.z * v.x * q.y == q.y * v.x * q.z) by (nonlinear_arith);
}

/// Rotation scales the squared magnitude of a vector by the square of the
/// quaternion's squared magnitude.
pub proof fn lemma_rotation_scales_norm_sq(v: VectorView, q: QuaternionView)
    ensures
        vec_norm_sq(vec_rotated(v, q)) == quat_norm_sq(q) * quat_norm_sq(q) * vec_norm_sq(v),
{
    let p = pure_quat(v);
    let s = quat_mul(quat_mul(q, p), quat_conjugate(q));
    lemma_quat_mul_norm_sq(quat_mul(q, p), quat_conjugate(q));
    lemma_quat_mul_norm_sq(q, p);
    lemma_quat_conjugate_norm_sq(q);
    lemma_sandwich_is_pure(v, q);
    assert(quat_norm_sq(p) == vec_norm_sq(v));
    assert(s.w * s.w == 0) by (nonlinear_arith)
        requires
            s.w == 0;
    assert(vec_norm_sq(vec_rotated(v, q)) == quat_norm_sq(s));
    assert((quat_norm_sq(q) * vec_norm_sq(v)) * quat_norm_sq(q)
        == quat_norm_sq(q) * quat_norm_sq(q) * vec_norm_sq(v)) by (nonlinear_arith);
}

/// Rotation by a unit quaternion preserves the squared magnitude of the
/// vector exactly.
pub proof fn lemma_rotation_preserves_norm_sq(v: VectorView, q: QuaternionView)
    requires
        quat_norm_sq(q) == 1,
    ensures
        vec_norm_sq(vec_rotated(v, q)) == vec_norm_sq(v),
{
    lemma_rotation_scales_norm_sq(v, q);
    assert(quat_norm_sq(q) * quat_norm_sq(q) * vec_norm_sq(v) == vec_norm_sq(v))
        by (nonlinear_arith)
        requires
            quat_norm_sq(q) == 1;
}

} // verus!
