use vstd::prelude::*;

verus! {

/// Why a kernel cannot make a program.
#[derive(PartialEq, Eq, Structural, Clone, Copy, Debug)]
pub enum KernelError {
    /// The kernel has no rows.
    Empty,
    /// A row's length differs from the number of rows.
    NotSquare,
    /// The side length is even, so the kernel has no center.
    EvenSize,
    /// The horizontal and vertical kernels differ in length.
    LengthMismatch,
}

/// The rows of a kernel, as sequences.
pub open spec fn rows_of<T>(k: Seq<Vec<T>>) -> Seq<Seq<T>> {
    k.map_values(|r: Vec<T>| r@)
}

/// The rows of `k` laid end to end, row after row.
pub open spec fn flat_of<T>(k: Seq<Seq<T>>) -> Seq<T>
    decreases k.len(),
{
    if k.len() == 0 {
        Seq::empty()
    } else {
        flat_of(k.drop_last()) + k.last()
    }
}

pub open spec fn is_square<T>(k: Seq<Seq<T>>) -> bool {
    forall|i: int| 0 <= i < k.len() ==> #[trigger] k[i].len() == k.len()
}

/// The kernel is square, with an odd side, so that it has a center.
pub open spec fn valid_kernel<T>(k: Seq<Seq<T>>) -> bool {
    k.len() > 0 && is_square(k) && k.len() % 2 == 1
}

/// The error that the shape of `k` gives, if any, checked in this order:
/// empty, not square, even side.
pub open spec fn kernel_shape_error<T>(k: Seq<Seq<T>>) -> Option<KernelError> {
    if k.len() == 0 {
        Some(KernelError::Empty)
    } else if !is_square(k) {
        Some(KernelError::NotSquare)
    } else if k.len() % 2 == 0 {
        Some(KernelError::EvenSize)
    } else {
        None
    }
}

/// Entry `(i, j)` of a square kernel of side `n` stands at `i * n + j` of the
/// flattened kernel.
pub proof fn lemma_flat_index<T>(k: Seq<Seq<T>>, n: int, i: int, j: int)
    requires
        forall|r: int| 0 <= r < k.len() ==> #[trigger] k[r].len() == n,
        0 <= i < k.len(),
        0 <= j < n,
    ensures
        flat_of(k).len() == k.len() * n,
        flat_of(k)[i * n + j] == k[i][j],
    decreases k.len(),
{
    lemma_flat_len(k, n);
    if i < k.len() - 1 {
        lemma_flat_index(k.drop_last(), n, i, j);
        assert((i + 1) * n <= (k.len() - 1) * n) by (nonlinear_arith)
            requires i + 1 <= k.len() - 1, n >= 0;
        assert(i * n + j < (i + 1) * n) by (nonlinear_arith)
            requires j < n;
    } else {
        lemma_flat_len(k.drop_last(), n);
        assert((k.len() - 1) * n + j == i * n + j);
    }
}

pub proof fn lemma_flat_len<T>(k: Seq<Seq<T>>, n: int)
    requires
        forall|r: int| 0 <= r < k.len() ==> #[trigger] k[r].len() == n,
    ensures
        flat_of(k).len() == k.len() * n,
    decreases k.len(),
{
    if k.len() > 0 {
        lemma_flat_len(k.drop_last(), n);
        assert(k.len() * n == (k.len() - 1) * n + n) by (nonlinear_arith);
    }
}

/// Checks that `kernel` is square with an odd side and lays its rows end to
/// end into the flat weight buffer that the shader reads.
pub fn flatten_kernel<T: Copy>(kernel: &Vec<Vec<T>>) -> (r: Result<Vec<T>, KernelError>)
    ensures
        match kernel_shape_error(rows_of(kernel@)) {
            Some(e) => r == Err::<Vec<T>, KernelError>(e),
            None => r matches Ok(v) && v@ == flat_of(rows_of(kernel@)),
        },
{
    let n = kernel.len();
    if n == 0 {
        return Err(KernelError::Empty);
    }
    let mut i: usize = 0;
    while i < n
        invariant
            n == kernel@.len(),
            0 <= i <= n,
            forall|r: int| 0 <= r < i ==> #[trigger] kernel@[r]@.len() == n,
        decreases n - i,
    {
        if kernel[i].len() != n {
            proof {
                assert(rows_of(kernel@)[i as int].len() != n);
            }
            return Err(KernelError::NotSquare);
        }
        i = i + 1;
    }
    proof {
        assert(is_square(rows_of(kernel@)));
    }
    if n % 2 == 0 {
        return Err(KernelError::EvenSize);
    }
    let mut out: Vec<T> = Vec::new();
    let mut i: usize = 0;
    while i < n
        invariant
            n == kernel@.len(),
            0 <= i <= n,
            out@ == flat_of(rows_of(kernel@).take(i as int)),
        decreases n - i,
    {
        let row = &kernel[i];
        let mut j: usize = 0;
        let ghost before = out@;
        while j < row.len()
            invariant
                0 <= j <= row@.len(),
                out@ == before + row@.take(j as int),
            decreases row@.len() - j,
        {
            out.push(row[j]);
            proof {
                assert(row@.take(j as int + 1) == row@.take(j as int).push(row@[j as int]));
            }
            j = j + 1;
        }
        proof {
            let k = rows_of(kernel@);
            assert(row@.take(j as int) == row@);
            assert(k.take(i as int + 1).drop_last() == k.take(i as int));
            assert(k.take(i as int + 1).last() == row@);
        }
        i = i + 1;
    }
    proof {
        assert(rows_of(kernel@).take(n as int) == rows_of(kernel@));
    }
    Ok(out)
}

/// Checks that the two one-dimensional kernels of a separable program have
/// equal length, and gives that length.
pub fn separable_kernel_size<T>(kernel_hor: &Vec<T>, kernel_ver: &Vec<T>) -> (r: Result<usize, KernelError>)
    ensures
        kernel_hor@.len() == kernel_ver@.len() ==> r == Ok::<usize, KernelError>(kernel_hor@.len() as usize),
        kernel_hor@.len() != kernel_ver@.len() ==> r == Err::<usize, KernelError>(KernelError::LengthMismatch),
{
    if kernel_hor.len() == kernel_ver.len() {
        Ok(kernel_hor.len())
    } else {
        Err(KernelError::LengthMismatch)
    }
}

} // verus!
