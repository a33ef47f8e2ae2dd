//! Three-by-three matrix algebra over single-precision bit patterns.
//!
//! A `RowMatrix` stores the nine entries of a row-major matrix as IEEE 754
//! binary32 bit patterns; a `ColMatrix` stores the three columns. Every
//! operation composes the named scalar operations of [`crate::fp32`], so each
//! contract states the exact sequence of roundings that produces each entry.
use vstd::prelude::*;

use crate::fp32::{
    abs_bits, add_bits, div_bits, f32_abs, f32_add, f32_div, f32_le, f32_mul, f32_neg, f32_sub,
    le_bits, mul_bits, neg_bits, sub_bits, F32_EPSILON, F32_ZERO,
};

verus! {

/// A row-major three-by-three matrix of single-precision bit patterns.
#[derive(Clone, Copy, Debug)]
pub struct RowMatrix(pub [u32; 9]);

/// A column-major three-by-three matrix of single-precision bit patterns.
#[derive(Clone, Copy, Debug)]
pub struct ColMatrix(pub [[u32; 3]; 3]);

/// The dot product of a row and a column: products summed left to right.
pub open spec fn dot3(r0: u32, r1: u32, r2: u32, c0: u32, c1: u32, c2: u32) -> u32 {
    add_bits(add_bits(mul_bits(r0, c0), mul_bits(r1, c1)), mul_bits(r2, c2))
}

/// A two-by-two determinant: `ma * nb - na * mb`.
pub open spec fn det2(ma: u32, mb: u32, na: u32, nb: u32) -> u32 {
    sub_bits(mul_bits(ma, nb), mul_bits(na, mb))
}

impl RowMatrix {
    /// The entry at row-major position `i`.
    pub open spec fn at(self, i: int) -> u32 {
        self.0[i]
    }

    /// The determinant, expanded along the first column.
    pub open spec fn det_spec(self) -> u32 {
        add_bits(
            sub_bits(
                mul_bits(self.at(0), det2(self.at(4), self.at(7), self.at(5), self.at(8))),
                mul_bits(self.at(3), det2(self.at(1), self.at(7), self.at(2), self.at(8))),
            ),
            mul_bits(self.at(6), det2(self.at(1), self.at(4), self.at(2), self.at(5))),
        )
    }

    /// The adjugate, row-major, as computed from the cofactors.
    pub open spec fn adj_at(self, i: int) -> u32 {
        let v = self;
        if i == 0 {
            det2(v.at(4), v.at(7), v.at(5), v.at(8))
        } else if i == 1 {
            neg_bits(det2(v.at(1), v.at(7), v.at(2), v.at(8)))
        } else if i == 2 {
            det2(v.at(1), v.at(4), v.at(2), v.at(5))
        } else if i == 3 {
            neg_bits(det2(v.at(3), v.at(6), v.at(5), v.at(8)))
        } else if i == 4 {
            det2(v.at(0), v.at(6), v.at(2), v.at(8))
        } else if i == 5 {
            neg_bits(det2(v.at(0), v.at(3), v.at(2), v.at(5)))
        } else if i == 6 {
            det2(v.at(3), v.at(6), v.at(4), v.at(7))
        } else if i == 7 {
            neg_bits(det2(v.at(0), v.at(6), v.at(1), v.at(7)))
        } else {
            det2(v.at(0), v.at(3), v.at(1), v.at(4))
        }
    }

    /// The inverse: each adjugate entry divided by the determinant.
    pub open spec fn inv_at(self, i: int) -> u32 {
        div_bits(self.adj_at(i), self.det_spec())
    }

    /// The product entry at row `r`, column `c` of `self` times `other`.
    pub open spec fn product_at(self, other: RowMatrix, r: int, c: int) -> u32 {
        dot3(
            self.at(3 * r),
            self.at(3 * r + 1),
            self.at(3 * r + 2),
            other.at(c),
            other.at(3 + c),
            other.at(6 + c),
        )
    }

    /// The dot product of row `r` with the column `c0 c1 c2`.
    pub open spec fn row_dot(self, r: int, c0: u32, c1: u32, c2: u32) -> u32 {
        dot3(self.at(3 * r), self.at(3 * r + 1), self.at(3 * r + 2), c0, c1, c2)
    }

    /// Wrap nine row-major entries.
    pub fn new(rows: [u32; 9]) -> (r: RowMatrix)
        ensures
            r.0 == rows,
    {
        RowMatrix(rows)
    }

    /// The nine row-major entries.
    pub fn into_inner(self) -> (r: [u32; 9])
        ensures
            r == self.0,
    {
        self.0
    }

    /// A diagonal matrix with the given entries, zero elsewhere.
    pub fn diag(x: u32, y: u32, z: u32) -> (r: RowMatrix)
        ensures
            r.0 == [x, F32_ZERO, F32_ZERO, F32_ZERO, y, F32_ZERO, F32_ZERO, F32_ZERO, z],
    {
        RowMatrix([x, F32_ZERO, F32_ZERO, F32_ZERO, y, F32_ZERO, F32_ZERO, F32_ZERO, z])
    }

    /// The outer product of a column vector and a row vector.
    pub fn with_outer_product(a: [u32; 3], b: [u32; 3]) -> (r: RowMatrix)
        ensures
            r.0 == [
                mul_bits(a[0], b[0]),
                mul_bits(a[0], b[1]),
                mul_bits(a[0], b[2]),
                mul_bits(a[1], b[0]),
                mul_bits(a[1], b[1]),
                mul_bits(a[1], b[2]),
                mul_bits(a[2], b[0]),
                mul_bits(a[2], b[1]),
                mul_bits(a[2], b[2]),
            ],
    {
        RowMatrix(
            [
                f32_mul(a[0], b[0]),
                f32_mul(a[0], b[1]),
                f32_mul(a[0], b[2]),
                f32_mul(a[1], b[0]),
                f32_mul(a[1], b[1]),
                f32_mul(a[1], b[2]),
                f32_mul(a[2], b[0]),
                f32_mul(a[2], b[1]),
                f32_mul(a[2], b[2]),
            ],
        )
    }

    /// Exchange rows and columns.
    pub fn transpose(self) -> (r: RowMatrix)
        ensures
            r.0 == [
                self.at(0),
                self.at(3),
                self.at(6),
                self.at(1),
                self.at(4),
                self.at(7),
                self.at(2),
                self.at(5),
                self.at(8),
            ],
    {
        let v = self.0;
        RowMatrix([v[0], v[3], v[6], v[1], v[4], v[7], v[2], v[5], v[8]])
    }

    /// Reinterpret the rows as columns.
    pub fn to_col(self) -> (r: ColMatrix)
        ensures
            forall|c: int, i: int| 0 <= c < 3 && 0 <= i < 3 ==> r.0[c][i] == self.at(3 * i + c),
    {
        let v = self.0;
        ColMatrix([[v[0], v[3], v[6]], [v[1], v[4], v[7]], [v[2], v[5], v[8]]])
    }

    /// The determinant, expanded along the first column.
    pub fn det(&self) -> (r: u32)
        ensures
            r == self.det_spec(),
    {
        let v = &self.0;
        let d0 = f32_sub(f32_mul(v[4], v[8]), f32_mul(v[5], v[7]));
        let d1 = f32_sub(f32_mul(v[1], v[8]), f32_mul(v[2], v[7]));
        let d2 = f32_sub(f32_mul(v[1], v[5]), f32_mul(v[2], v[4]));
        f32_add(f32_sub(f32_mul(v[0], d0), f32_mul(v[3], d1)), f32_mul(v[6], d2))
    }

    /// Whether the determinant is at least the machine epsilon in magnitude,
    /// the condition under which an affine transform is accepted.
    pub fn det_at_least_epsilon(&self) -> (r: bool)
        ensures
            r == le_bits(F32_EPSILON, abs_bits(self.det_spec())),
    {
        let d = self.det();
        f32_le(F32_EPSILON, f32_abs(d))
    }

    /// The adjugate, from the cofactors of the entries.
    pub fn adj(self) -> (r: RowMatrix)
        ensures
            forall|i: int| 0 <= i < 9 ==> r.at(i) == self.adj_at(i),
    {
        let v = &self.0;
        RowMatrix(
            [
                f32_sub(f32_mul(v[4], v[8]), f32_mul(v[5], v[7])),
                f32_neg(f32_sub(f32_mul(v[1], v[8]), f32_mul(v[2], v[7]))),
                f32_sub(f32_mul(v[1], v[5]), f32_mul(v[2], v[4])),
                f32_neg(f32_sub(f32_mul(v[3], v[8]), f32_mul(v[5], v[6]))),
                f32_sub(f32_mul(v[0], v[8]), f32_mul(v[2], v[6])),
                f32_neg(f32_sub(f32_mul(v[0], v[5]), f32_mul(v[2], v[3]))),
                f32_sub(f32_mul(v[3], v[7]), f32_mul(v[4], v[6])),
                f32_neg(f32_sub(f32_mul(v[0], v[7]), f32_mul(v[1], v[6]))),
                f32_sub(f32_mul(v[0], v[4]), f32_mul(v[1], v[3])),
            ],
        )
    }

    /// The inverse as a whole matrix.
    pub open spec fn inv_spec(self) -> RowMatrix {
        RowMatrix(
            [
                self.inv_at(0),
                self.inv_at(1),
                self.inv_at(2),
                self.inv_at(3),
                self.inv_at(4),
                self.inv_at(5),
                self.inv_at(6),
                self.inv_at(7),
                self.inv_at(8),
            ],
        )
    }

    /// The inverse: adjugate entries divided by the determinant.
    pub fn inv(self) -> (r: RowMatrix)
        ensures
            forall|i: int| 0 <= i < 9 ==> r.at(i) == self.inv_at(i),
            r == self.inv_spec(),
    {
        let adj = self.adj();
        let det = self.det();
        let a = &adj.0;
        let result = RowMatrix(
            [
                f32_div(a[0], det),
                f32_div(a[1], det),
                f32_div(a[2], det),
                f32_div(a[3], det),
                f32_div(a[4], det),
                f32_div(a[5], det),
                f32_div(a[6], det),
                f32_div(a[7], det),
                f32_div(a[8], det),
            ],
        );
        proof {
            assert(result.0 =~= self.inv_spec().0);
        }
        result
    }

    /// Multiply with a column vector: `self` times `col`.
    pub fn multiply_column(&self, col: [u32; 3]) -> (r: [u32; 3])
        ensures
            forall|i: int| 0 <= i < 3 ==> r[i] == self.row_dot(i, col[0], col[1], col[2]),
    {
        let v = &self.0;
        [
            f32_add(f32_add(f32_mul(v[0], col[0]), f32_mul(v[1], col[1])), f32_mul(v[2], col[2])),
            f32_add(f32_add(f32_mul(v[3], col[0]), f32_mul(v[4], col[1])), f32_mul(v[5], col[2])),
            f32_add(f32_add(f32_mul(v[6], col[0]), f32_mul(v[7], col[1])), f32_mul(v[8], col[2])),
        ]
    }

    /// Multiply with a column-major matrix on the right, column by column.
    pub fn multiply_right(&self, other: ColMatrix) -> (r: ColMatrix)
        ensures
            forall|c: int, i: int|
                0 <= c < 3 && 0 <= i < 3 ==> r.0[c][i] == self.row_dot(
                    i,
                    other.0[c][0],
                    other.0[c][1],
                    other.0[c][2],
                ),
    {
        ColMatrix(
            [
                self.multiply_column(other.0[0]),
                self.multiply_column(other.0[1]),
                self.multiply_column(other.0[2]),
            ],
        )
    }

    /// The std140 `mat3x3` packing: an array of the three columns, each
    /// padded to sixteen bytes with a zero component.
    pub open spec fn into_mat3x3_std140_spec(self) -> [u32; 12] {
        [
            self.at(0),
            self.at(3),
            self.at(6),
            F32_ZERO,
            self.at(1),
            self.at(4),
            self.at(7),
            F32_ZERO,
            self.at(2),
            self.at(5),
            self.at(8),
            F32_ZERO,
        ]
    }

    /// Pack as a std140 `mat3x3`: an array of the three columns, each padded
    /// to sixteen bytes with a zero component.
    pub fn into_mat3x3_std140(self) -> (r: [u32; 12])
        ensures
            r == self.into_mat3x3_std140_spec(),
    {
        let v = self.0;
        [
            v[0],
            v[3],
            v[6],
            F32_ZERO,
            v[1],
            v[4],
            v[7],
            F32_ZERO,
            v[2],
            v[5],
            v[8],
            F32_ZERO,
        ]
    }
}

impl ColMatrix {
    /// Reinterpret the columns as rows.
    pub fn to_row(self) -> (r: RowMatrix)
        ensures
            forall|c: int, i: int| 0 <= c < 3 && 0 <= i < 3 ==> r.at(3 * i + c) == self.0[c][i],
    {
        let m = self.0;
        RowMatrix(
            [
                m[0][0],
                m[1][0],
                m[2][0],
                m[0][1],
                m[1][1],
                m[2][1],
                m[0][2],
                m[1][2],
                m[2][2],
            ],
        )
    }

    /// Multiply with a column vector on the right: `self` times `vec`.
    pub fn mul_vec(&self, vec: [u32; 3]) -> (r: [u32; 3])
        ensures
            forall|i: int|
                0 <= i < 3 ==> r[i] == add_bits(
                    add_bits(mul_bits(vec[0], self.0[0][i]), mul_bits(vec[1], self.0[1][i])),
                    mul_bits(vec[2], self.0[2][i]),
                ),
    {
        let m = &self.0;
        let a = vec[0];
        let b = vec[1];
        let c = vec[2];
        [
            f32_add(f32_add(f32_mul(a, m[0][0]), f32_mul(b, m[1][0])), f32_mul(c, m[2][0])),
            f32_add(f32_add(f32_mul(a, m[0][1]), f32_mul(b, m[1][1])), f32_mul(c, m[2][1])),
            f32_add(f32_add(f32_mul(a, m[0][2]), f32_mul(b, m[1][2])), f32_mul(c, m[2][2])),
        ]
    }
}

} // verus!
