//! A compressed-sparse-row matrix: the crate's own sparse-operator storage.
//!
//! The structure is validated once at construction; multiplication is then
//! specified exactly, row by row, as a left fold of rounded products in
//! storage order.

use vstd::prelude::*;
use vstd::pervasive::VecAdditionalExecFns;

use crate::error::{SolveResult, SolverError};
use crate::mat::MatVecMul;
use crate::scalar::{c_add, c_add_of, c_mul, c_mul_of, c_zero, Scalar};
use crate::vecalg::{conj_dot, spec_conj_dot};

verus! {

/// The arrays form a valid compressed-sparse-row structure for an
/// `nrows × ncols` matrix: `indptr` has one entry per row plus one, starts
/// at zero, is nondecreasing and ends at the number of stored entries;
/// every stored column index is in range; and the column indices of each
/// row are strictly increasing.
/// The column indices stored for row `i` are strictly increasing.
pub open spec fn row_sorted(indptr: Seq<usize>, indices: Seq<usize>, i: int) -> bool {
    forall|k: int|
        indptr[i] <= k && k + 1 < indptr[i + 1] ==> #[trigger] indices[k] < indices[k + 1]
}

pub open spec fn csr_wf(
    nrows: usize,
    ncols: usize,
    indptr: Seq<usize>,
    indices: Seq<usize>,
    data: Seq<Scalar>,
) -> bool {
    &&& indptr.len() == nrows + 1
    &&& indptr[0] == 0
    &&& forall|i: int| 0 <= i < nrows ==> #[trigger] indptr[i] <= indptr[i + 1]
    &&& indptr[nrows as int] == indices.len()
    &&& indices.len() == data.len()
    &&& forall|k: int| 0 <= k < indices.len() ==> #[trigger] indices[k] < ncols
    &&& forall|i: int| 0 <= i < nrows ==> #[trigger] row_sorted(indptr, indices, i)
}

/// The left fold, in storage order, of the products of the stored entries
/// `data[lo..k]` with the input entries their column indices select.
pub open spec fn csr_row_fold(
    data: Seq<Scalar>,
    indices: Seq<usize>,
    x: Seq<Scalar>,
    lo: int,
    k: int,
) -> Scalar
    decreases k - lo,
{
    if k <= lo {
        c_zero()
    } else {
        c_add_of(
            csr_row_fold(data, indices, x, lo, k - 1),
            c_mul_of(data[k - 1], x[indices[k - 1] as int]),
        )
    }
}

/// The exact matrix-vector product: entry `i` is the fold of row `i`.
pub open spec fn csr_apply(
    nrows: usize,
    indptr: Seq<usize>,
    indices: Seq<usize>,
    data: Seq<Scalar>,
    x: Seq<Scalar>,
) -> Seq<Scalar> {
    Seq::new(
        nrows as nat,
        |i: int| csr_row_fold(data, indices, x, indptr[i] as int, indptr[i + 1] as int),
    )
}

/// A nondecreasing pointer array is monotone over any index pair.
pub proof fn lemma_indptr_chain(indptr: Seq<usize>, i: int, j: int)
    requires
        forall|t: int| 0 <= t < indptr.len() - 1 ==> #[trigger] indptr[t] <= indptr[t + 1],
        0 <= i <= j < indptr.len(),
    ensures
        indptr[i] <= indptr[j],
    decreases j - i,
{
    if i < j {
        lemma_indptr_chain(indptr, i, j - 1);
    }
}

/// A sparse matrix in compressed-sparse-row form.
pub struct CsrMat {
    indptr: Vec<usize>,
    indices: Vec<usize>,
    data: Vec<Scalar>,
    nrows: usize,
    ncols: usize,
}

impl CsrMat {
    /// The number of rows.
    pub closed spec fn spec_rows(&self) -> usize {
        self.nrows
    }

    /// The number of columns.
    pub closed spec fn spec_cols(&self) -> usize {
        self.ncols
    }

    /// The row pointer array.
    pub closed spec fn spec_indptr(&self) -> Seq<usize> {
        self.indptr@
    }

    /// The column index array.
    pub closed spec fn spec_indices(&self) -> Seq<usize> {
        self.indices@
    }

    /// The stored entries.
    pub closed spec fn spec_data(&self) -> Seq<Scalar> {
        self.data@
    }

    /// The matrix holds a valid compressed-sparse-row structure.
    pub open spec fn structure_wf(&self) -> bool {
        csr_wf(
            self.spec_rows(),
            self.spec_cols(),
            self.spec_indptr(),
            self.spec_indices(),
            self.spec_data(),
        )
    }

    /// The exact product of this matrix with `x`.
    pub open spec fn spec_apply(&self, x: Seq<Scalar>) -> Seq<Scalar> {
        csr_apply(self.spec_rows(), self.spec_indptr(), self.spec_indices(), self.spec_data(), x)
    }

    /// Builds a matrix from raw compressed-sparse-row arrays, validating
    /// the structure; succeeds exactly when the arrays are valid.
    pub fn new(
        nrows: usize,
        ncols: usize,
        indptr: Vec<usize>,
        indices: Vec<usize>,
        data: Vec<Scalar>,
    ) -> (res: SolveResult<CsrMat>)
        ensures
            res is Ok <==> csr_wf(nrows, ncols, indptr@, indices@, data@),
            res matches Ok(m) ==> {
                &&& m.structure_wf()
                &&& m.spec_rows() == nrows
                &&& m.spec_cols() == ncols
                &&& m.spec_indptr() == indptr@
                &&& m.spec_indices() == indices@
                &&& m.spec_data() == data@
            },
            res matches Err(e) ==> e is IncompatibleMatrixFormat,
    {
        if csr_check(nrows, ncols, &indptr, &indices, &data) {
            Ok(CsrMat { indptr, indices, data, nrows, ncols })
        } else {
            Err(
                SolverError::IncompatibleMatrixFormat(
                    "Invalid compressed sparse row structure".to_string(),
                ),
            )
        }
    }

    /// The matrix size (its row count).
    pub fn size(&self) -> (n: usize)
        ensures
            n == self.spec_rows(),
    {
        self.nrows
    }

    /// The number of rows.
    pub fn rows(&self) -> (n: usize)
        ensures
            n == self.spec_rows(),
    {
        self.nrows
    }

    /// The number of columns.
    pub fn cols(&self) -> (n: usize)
        ensures
            n == self.spec_cols(),
    {
        self.ncols
    }

    /// Computes `v_out = A·v_in` after validating both lengths, failing
    /// with a dimension error — and leaving `v_out` untouched — when
    /// either does not match.
    pub fn mul_vec_checked(&self, v_in: &Vec<Scalar>, v_out: &mut Vec<Scalar>) -> (res:
        SolveResult<()>)
        requires
            self.structure_wf(),
        ensures
            res is Ok <==> v_in@.len() == self.spec_cols() && old(v_out)@.len()
                == self.spec_rows(),
            res is Ok ==> final(v_out)@ == self.spec_apply(v_in@),
            res is Err ==> final(v_out)@ == old(v_out)@,
            res matches Err(e) ==> e is IncompatibleMatrixFormat,
    {
        if v_in.len() != self.ncols || v_out.len() != self.nrows {
            return Err(
                SolverError::IncompatibleMatrixFormat(
                    "Vec dimension doesn't match the matrix size".to_string(),
                ),
            );
        }
        self.mul_vec_general(v_in, v_out);
        Ok(())
    }

    /// Computes `v_out = A·v_in` and `conj(v_in)·v_out` after validating
    /// both lengths, failing with a dimension error — and leaving `v_out`
    /// untouched — when either does not match. The fused product-and-dot
    /// only makes sense square, so both lengths are held to the row count.
    pub fn mul_vec_dot_checked(&self, v_in: &Vec<Scalar>, v_out: &mut Vec<Scalar>) -> (res:
        SolveResult<Scalar>)
        requires
            self.structure_wf(),
            self.spec_rows() == self.spec_cols(),
        ensures
            res is Ok <==> v_in@.len() == self.spec_rows() && old(v_out)@.len()
                == self.spec_rows(),
            res matches Ok(r) ==> final(v_out)@ == self.spec_apply(v_in@) && r
                == spec_conj_dot(v_in@, self.spec_apply(v_in@)),
            res is Err ==> final(v_out)@ == old(v_out)@,
            res matches Err(e) ==> e is IncompatibleMatrixFormat,
    {
        if v_in.len() != self.nrows || v_out.len() != self.nrows {
            return Err(
                SolverError::IncompatibleMatrixFormat(
                    "Vec dimension doesn't match the matrix size".to_string(),
                ),
            );
        }
        self.mul_vec_general(v_in, v_out);
        Ok(conj_dot(v_in, v_out))
    }

    /// Computes `v_out = A·v_in` for a matrix of any shape.
    pub fn mul_vec_general(&self, v_in: &Vec<Scalar>, v_out: &mut Vec<Scalar>)
        requires
            self.structure_wf(),
            v_in@.len() == self.spec_cols(),
            old(v_out)@.len() == self.spec_rows(),
        ensures
            final(v_out)@ == self.spec_apply(v_in@),
    {
        let nrows = self.nrows;
        let nnz = self.data.len();
        for i in 0..nrows
            invariant
                self.structure_wf(),
                nrows == self.spec_rows(),
                nnz == self.spec_data().len(),
                v_in@.len() == self.spec_cols(),
                v_out@.len() == self.spec_rows(),
                forall|t: int| 0 <= t < i ==> v_out@[t] == #[trigger] self.spec_apply(v_in@)[t],
        {
            let lo = self.indptr[i];
            let hi = self.indptr[i + 1];
            proof {
                lemma_indptr_chain(self.indptr@, i + 1, nrows as int);
            }
            let mut acc = Scalar::zero();
            let mut k = lo;
            while k < hi
                invariant
                    lo <= k <= hi,
                    hi as int <= nnz,
                    nnz == self.spec_data().len(),
                    self.spec_indices().len() == self.spec_data().len(),
                    forall|t: int|
                        0 <= t < self.spec_indices().len()
                            ==> #[trigger] self.spec_indices()[t] < self.spec_cols(),
                    v_in@.len() == self.spec_cols(),
                    acc == csr_row_fold(
                        self.spec_data(),
                        self.spec_indices(),
                        v_in@,
                        lo as int,
                        k as int,
                    ),
                decreases hi - k,
            {
                acc = c_add(acc, c_mul(self.data[k], v_in[self.indices[k]]));
                k += 1;
            }
            v_out.set(i, acc);
        }
        assert(v_out@ =~= self.spec_apply(v_in@));
    }
}

/// Decides whether raw arrays form a valid compressed-sparse-row
/// structure, exactly mirroring [`csr_wf`].
#[verifier::rlimit(100)]
fn csr_check(
    nrows: usize,
    ncols: usize,
    indptr: &Vec<usize>,
    indices: &Vec<usize>,
    data: &Vec<Scalar>,
) -> (r: bool)
    ensures
        r == csr_wf(nrows, ncols, indptr@, indices@, data@),
{
    let n_ptr = indptr.len();
    if nrows == usize::MAX {
        return false;
    }
    if n_ptr != nrows + 1 {
        return false;
    }
    if indices.len() != data.len() {
        return false;
    }
    if indptr[0] != 0 {
        return false;
    }
    if indptr[nrows] != indices.len() {
        return false;
    }
    for i in 0..nrows
        invariant
            indptr@.len() == nrows + 1,
            forall|t: int| 0 <= t < i ==> #[trigger] indptr@[t] <= indptr@[t + 1],
    {
        if indptr[i] > indptr[i + 1] {
            return false;
        }
    }
    let nnz = indices.len();
    for k in 0..nnz
        invariant
            nnz == indices@.len(),
            forall|t: int| 0 <= t < k ==> #[trigger] indices@[t] < ncols,
    {
        if indices[k] >= ncols {
            return false;
        }
    }
    for i in 0..nrows
        invariant
            indptr@.len() == nrows + 1,
            nnz == indices@.len(),
            indices@.len() == data@.len(),
            indptr@[nrows as int] == nnz,
            forall|t: int| 0 <= t < nrows ==> #[trigger] indptr@[t] <= indptr@[t + 1],
            forall|t: int| 0 <= t < i ==> #[trigger] row_sorted(indptr@, indices@, t),
    {
        let lo = indptr[i];
        let hi = indptr[i + 1];
        proof {
            lemma_indptr_chain(indptr@, i + 1, nrows as int);
        }
        let mut k = lo;
        while hi - k > 1
            invariant
                i < nrows,
                nnz == indices@.len(),
                indptr@.len() == nrows + 1,
                lo == indptr@[i as int],
                hi == indptr@[i as int + 1],
                hi as int <= nnz,
                lo <= k <= hi,
                forall|t: int| lo <= t < k ==> #[trigger] indices@[t] < indices@[t + 1],
            decreases hi - k,
        {
            if indices[k] >= indices[k + 1] {
                proof {
                    assert(!row_sorted(indptr@, indices@, i as int));
                }
                return false;
            }
            k += 1;
        }
        proof {
            assert(row_sorted(indptr@, indices@, i as int));
        }
    }
    true
}

impl MatVecMul for CsrMat {
    /// A usable operator is a valid, square matrix.
    open spec fn wf(&self) -> bool {
        self.structure_wf() && self.spec_rows() == self.spec_cols()
    }

    open spec fn dim(&self) -> nat {
        self.spec_rows() as nat
    }

    open spec fn apply(&self, v: Seq<Scalar>) -> Seq<Scalar> {
        self.spec_apply(v)
    }

    proof fn apply_len(&self, v: Seq<Scalar>) {
    }

    fn mul_vec(&self, v_in: &Vec<Scalar>, v_out: &mut Vec<Scalar>) {
        self.mul_vec_general(v_in, v_out);
    }

    fn mul_vec_dot(&self, v_in: &Vec<Scalar>, v_out: &mut Vec<Scalar>) -> (r: Scalar) {
        self.mul_vec_general(v_in, v_out);
        conj_dot(v_in, v_out)
    }
}

} // verus!
