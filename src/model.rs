use vstd::prelude::*;
use vstd::arithmetic::div_mod::lemma_fundamental_div_mod_converse;

use crate::edge::{clamp_coord, in_grid, sample_source, EdgeSolution, SampleSource};

verus! {

/// One channel of a grid: the value at column `x`, row `y`.
pub type Channel = spec_fn(int, int) -> int;

/// What the shader's sampling routine returns at `(x, y)`: the cell that the
/// edge policy picks, or the fill value.
pub open spec fn read(policy: EdgeSolution<int>, chan: Channel, x: int, y: int, w: int, h: int) -> int {
    match sample_source(policy, x, y, w, h) {
        SampleSource::Cell(cx, cy) => chan(cx as int, cy as int),
        SampleSource::Fill => match policy {
            EdgeSolution::Value(v) => v,
            _ => 0,
        },
    }
}

/// The convolution sum over the first `count` entries of a flat kernel of
/// side `n`, entry `k` weighting the sample at offset
/// `(k % n - n / 2, k / n - n / 2)` from `(x, y)`.
pub open spec fn conv_sum(
    kernel: Seq<int>,
    n: int,
    count: nat,
    policy: EdgeSolution<int>,
    chan: Channel,
    x: int,
    y: int,
    w: int,
    h: int,
) -> int
    decreases count,
{
    if count == 0 {
        0
    } else {
        let k = count - 1;
        conv_sum(kernel, n, (count - 1) as nat, policy, chan, x, y, w, h)
            + kernel[k] * read(policy, chan, x + k % n - n / 2, y + k / n - n / 2, w, h)
    }
}

/// The new value of cell `(x, y)`: the user function applied to the full
/// convolution sum and the cell's previous value, reading generation `chan`
/// only.
pub open spec fn next_value(
    kernel: Seq<int>,
    n: int,
    policy: EdgeSolution<int>,
    fun: spec_fn(int, int) -> int,
    chan: Channel,
    x: int,
    y: int,
    w: int,
    h: int,
) -> int {
    fun(conv_sum(kernel, n, (n * n) as nat, policy, chan, x, y, w, h), chan(x, y))
}

/// The kernel of side `n` that is 1 at its center and 0 elsewhere.
pub open spec fn is_identity_kernel(kernel: Seq<int>, n: int) -> bool {
    &&& n > 0
    &&& n % 2 == 1
    &&& kernel.len() == n * n
    &&& forall|k: int| 0 <= k < n * n ==> #[trigger] kernel[k] == if k == (n / 2) * n + n / 2 { 1int } else { 0int }
}

proof fn lemma_identity_partial(kernel: Seq<int>, n: int, count: nat, policy: EdgeSolution<int>, chan: Channel, x: int, y: int, w: int, h: int)
    requires
        is_identity_kernel(kernel, n),
        count <= n * n,
    ensures
        conv_sum(kernel, n, count, policy, chan, x, y, w, h)
            == if count > (n / 2) * n + n / 2 { read(policy, chan, x, y, w, h) } else { 0 },
    decreases count,
{
    let c = (n / 2) * n + n / 2;
    if count > 0 {
        lemma_identity_partial(kernel, n, (count - 1) as nat, policy, chan, x, y, w, h);
        let k = count - 1;
        if k == c {
            lemma_fundamental_div_mod_converse(c, n, n / 2, n / 2);
        }
    }
}

/// A sample inside the grid reads that very cell, under every edge policy.
pub proof fn lemma_read_inside(policy: EdgeSolution<int>, chan: Channel, x: int, y: int, w: int, h: int)
    requires
        in_grid(x, y, w, h),
        w <= u32::MAX,
        h <= u32::MAX,
    ensures
        read(policy, chan, x, y, w, h) == chan(x, y),
{
    lemma_fundamental_div_mod_converse(x, w, 0, x);
    lemma_fundamental_div_mod_converse(y, h, 0, y);
}

/// With the identity kernel and the identity user function, a step leaves
/// every cell of the grid as it was, under every edge policy.
pub proof fn lemma_identity_step(kernel: Seq<int>, n: int, policy: EdgeSolution<int>, chan: Channel, x: int, y: int, w: int, h: int)
    requires
        is_identity_kernel(kernel, n),
        in_grid(x, y, w, h),
        w <= u32::MAX,
        h <= u32::MAX,
    ensures
        next_value(kernel, n, policy, |s: int, prev: int| s, chan, x, y, w, h) == chan(x, y),
{
    assert(n * n > (n / 2) * n + n / 2) by (nonlinear_arith)
        requires n > 0;
    lemma_identity_partial(kernel, n, (n * n) as nat, policy, chan, x, y, w, h);
    lemma_read_inside(policy, chan, x, y, w, h);
}

/// A cell of the value program's grid: the current value in the first
/// channel, the spare channel in the second.
pub type ValueGrid = spec_fn(int, int) -> (int, int);

pub open spec fn first(g: ValueGrid) -> Channel {
    |x: int, y: int| g(x, y).0
}

/// The grid part-way through the convolution pass, once the cells of `done`
/// have been processed: each of them holds its new value in the spare
/// channel; the first channel is untouched everywhere.
pub open spec fn convolve_pass_partial(
    kernel: Seq<int>,
    n: int,
    policy: EdgeSolution<int>,
    fun: spec_fn(int, int) -> int,
    g: ValueGrid,
    done: Set<(int, int)>,
    w: int,
    h: int,
) -> ValueGrid {
    |x: int, y: int|
        if done.contains((x, y)) {
            (g(x, y).0, next_value(kernel, n, policy, fun, first(g), x, y, w, h))
        } else {
            g(x, y)
        }
}

/// The swap pass: exchanges the first two channels of every cell.
pub open spec fn swap_pass(g: ValueGrid) -> ValueGrid {
    |x: int, y: int| (g(x, y).1, g(x, y).0)
}

/// The value program's in-place step reads no value written in the same
/// step: whatever cells were processed before, processing a cell computes
/// the value it computes on the previous generation; and after the swap pass
/// every cell holds that value, the previous one parked in the spare channel,
/// just as if all cells had been replaced at once.
pub proof fn lemma_channel_swap_step(
    kernel: Seq<int>,
    n: int,
    policy: EdgeSolution<int>,
    fun: spec_fn(int, int) -> int,
    g: ValueGrid,
    done: Set<(int, int)>,
    x: int,
    y: int,
    w: int,
    h: int,
)
    ensures
        next_value(kernel, n, policy, fun, first(convolve_pass_partial(kernel, n, policy, fun, g, done, w, h)), x, y, w, h)
            == next_value(kernel, n, policy, fun, first(g), x, y, w, h),
        swap_pass(convolve_pass_partial(kernel, n, policy, fun, g, Set::full(), w, h))(x, y)
            == (next_value(kernel, n, policy, fun, first(g), x, y, w, h), g(x, y).0),
{
    let p = convolve_pass_partial(kernel, n, policy, fun, g, done, w, h);
    assert(first(p) == first(g)) by {
        assert forall|a: int, b: int| #[trigger] first(p)(a, b) == first(g)(a, b) by {}
    }
}

/// Weighted sum of the samples along one line through `(x, y)`, over the
/// first `count` weights: weight `i` reads the sample `i - len / 2` cells
/// away, along a column if `vertical`, else along a row.
pub open spec fn line_sum(
    weights: Seq<int>,
    count: nat,
    policy: EdgeSolution<int>,
    chan: Channel,
    x: int,
    y: int,
    vertical: bool,
    w: int,
    h: int,
) -> int
    decreases count,
{
    if count == 0 {
        0
    } else {
        let i = count - 1;
        let d = i - weights.len() / 2;
        line_sum(weights, (count - 1) as nat, policy, chan, x, y, vertical, w, h)
            + weights[i] * if vertical {
                read(policy, chan, x, y + d, w, h)
            } else {
                read(policy, chan, x + d, y, w, h)
            }
    }
}

/// The separable program's horizontal pass: the bare row sums.
pub open spec fn horizontal_pass(hor: Seq<int>, policy: EdgeSolution<int>, chan: Channel, w: int, h: int) -> Channel {
    |a: int, b: int| line_sum(hor, hor.len(), policy, chan, a, b, false, w, h)
}

/// The new value of cell `(x, y)` after the separable program's two passes:
/// the user function applied to the column sum of the row sums and to the
/// cell's value before the step.
pub open spec fn separable_next_value(
    hor: Seq<int>,
    ver: Seq<int>,
    policy: EdgeSolution<int>,
    fun: spec_fn(int, int) -> int,
    chan: Channel,
    x: int,
    y: int,
    w: int,
    h: int,
) -> int {
    fun(line_sum(ver, ver.len(), policy, horizontal_pass(hor, policy, chan, w, h), x, y, true, w, h), chan(x, y))
}

/// `kernel` is the outer product of the column kernel `ver` and the row
/// kernel `hor`, laid out row after row.
pub open spec fn is_outer_product(kernel: Seq<int>, hor: Seq<int>, ver: Seq<int>) -> bool {
    let n = hor.len() as int;
    &&& ver.len() == n
    &&& kernel.len() == n * n
    &&& forall|k: int| 0 <= k < n * n ==> #[trigger] kernel[k] == ver[k / n] * hor[k % n]
}

pub open spec fn is_clamp_or_wrap(policy: EdgeSolution<int>) -> bool {
    policy matches EdgeSolution::Clamp || policy matches EdgeSolution::Wrap
}

/// The row that a sample on row `yy` reads from, under clamping or wrapping.
pub open spec fn source_row(policy: EdgeSolution<int>, yy: int, h: int) -> int {
    if (policy matches EdgeSolution::Clamp) {
        clamp_coord(yy, h)
    } else {
        yy % h
    }
}

proof fn lemma_read_source_row(policy: EdgeSolution<int>, chan: Channel, a: int, yy: int, w: int, h: int)
    requires
        is_clamp_or_wrap(policy),
        w > 0,
        h > 0,
    ensures
        0 <= source_row(policy, yy, h) < h,
        read(policy, chan, a, source_row(policy, yy, h), w, h) == read(policy, chan, a, yy, w, h),
{
    if (policy matches EdgeSolution::Wrap) {
        let r = yy % h;
        lemma_fundamental_div_mod_converse(r, h, 0, r);
    }
}

proof fn lemma_row_sum_source_row(hor: Seq<int>, count: nat, policy: EdgeSolution<int>, chan: Channel, x: int, yy: int, w: int, h: int)
    requires
        is_clamp_or_wrap(policy),
        w > 0,
        h > 0,
        count <= hor.len(),
    ensures
        line_sum(hor, count, policy, chan, x, source_row(policy, yy, h), false, w, h)
            == line_sum(hor, count, policy, chan, x, yy, false, w, h),
    decreases count,
{
    if count > 0 {
        lemma_row_sum_source_row(hor, (count - 1) as nat, policy, chan, x, yy, w, h);
        lemma_read_source_row(policy, chan, x + (count - 1) - hor.len() / 2, yy, w, h);
    }
}

proof fn lemma_read_horizontal_pass(hor: Seq<int>, policy: EdgeSolution<int>, chan: Channel, x: int, yy: int, w: int, h: int)
    requires
        is_clamp_or_wrap(policy),
        0 <= x < w,
        h > 0,
        w <= u32::MAX,
        h <= u32::MAX,
    ensures
        read(policy, horizontal_pass(hor, policy, chan, w, h), x, yy, w, h)
            == line_sum(hor, hor.len(), policy, chan, x, yy, false, w, h),
{
    lemma_fundamental_div_mod_converse(x, w, 0, x);
    lemma_read_source_row(policy, chan, x, yy, w, h);
    lemma_row_sum_source_row(hor, hor.len(), policy, chan, x, yy, w, h);
}

proof fn lemma_full_row_block(kernel: Seq<int>, hor: Seq<int>, ver: Seq<int>, j: int, i: nat, policy: EdgeSolution<int>, chan: Channel, x: int, y: int, w: int, h: int)
    requires
        is_outer_product(kernel, hor, ver),
        0 <= j < hor.len(),
        i <= hor.len(),
    ensures
        conv_sum(kernel, hor.len() as int, (j * hor.len() + i) as nat, policy, chan, x, y, w, h)
            == conv_sum(kernel, hor.len() as int, (j * hor.len()) as nat, policy, chan, x, y, w, h)
            + ver[j] * line_sum(hor, i, policy, chan, x, y + j - hor.len() / 2, false, w, h),
    decreases i,
{
    let n = hor.len() as int;
    assert(j * n >= 0 && j * n + n <= n * n) by (nonlinear_arith)
        requires 0 <= j < n;
    if i > 0 {
        lemma_full_row_block(kernel, hor, ver, j, (i - 1) as nat, policy, chan, x, y, w, h);
        let k = j * n + (i - 1);
        lemma_fundamental_div_mod_converse(k, n, j, i - 1);
        assert(kernel[k] == ver[j] * hor[i - 1]);
        let r = read(policy, chan, x + (i - 1) - n / 2, y + j - n / 2, w, h);
        let l = line_sum(hor, (i - 1) as nat, policy, chan, x, y + j - n / 2, false, w, h);
        assert(ver[j] * (l + hor[i - 1] * r) == ver[j] * l + (ver[j] * hor[i - 1]) * r) by (nonlinear_arith);
    }
}

proof fn lemma_full_rows(kernel: Seq<int>, hor: Seq<int>, ver: Seq<int>, j: nat, policy: EdgeSolution<int>, chan: Channel, x: int, y: int, w: int, h: int)
    requires
        is_outer_product(kernel, hor, ver),
        is_clamp_or_wrap(policy),
        j <= hor.len(),
        0 <= x < w,
        h > 0,
        w <= u32::MAX,
        h <= u32::MAX,
    ensures
        conv_sum(kernel, hor.len() as int, (j * hor.len()) as nat, policy, chan, x, y, w, h)
            == line_sum(ver, j, policy, horizontal_pass(hor, policy, chan, w, h), x, y, true, w, h),
    decreases j,
{
    let n = hor.len() as int;
    if j > 0 {
        let jj = j - 1;
        lemma_full_rows(kernel, hor, ver, jj as nat, policy, chan, x, y, w, h);
        assert(j * n == jj * n + n && jj * n >= 0) by (nonlinear_arith)
            requires jj == j - 1, jj >= 0, n >= 0;
        lemma_full_row_block(kernel, hor, ver, jj, n as nat, policy, chan, x, y, w, h);
        lemma_read_horizontal_pass(hor, policy, chan, x, y + jj - n / 2, w, h);
        let hp = horizontal_pass(hor, policy, chan, w, h);
        assert(line_sum(ver, j, policy, hp, x, y, true, w, h)
            == line_sum(ver, jj as nat, policy, hp, x, y, true, w, h)
            + ver[jj] * read(policy, hp, x, y + jj - n / 2, w, h));
        assert((j * hor.len()) as nat == (jj * n + n) as nat);
    } else {
        assert(j * hor.len() == 0) by (nonlinear_arith)
            requires j == 0;
    }
}

/// For clamping and wrapping edges, the separable program with a row kernel
/// and a column kernel computes what the full-kernel program computes with
/// their outer product, for every user function (in exact arithmetic: the
/// GPU's float sums may differ by rounding).
pub proof fn lemma_separable_matches_full(
    kernel: Seq<int>,
    hor: Seq<int>,
    ver: Seq<int>,
    policy: EdgeSolution<int>,
    fun: spec_fn(int, int) -> int,
    chan: Channel,
    x: int,
    y: int,
    w: int,
    h: int,
)
    requires
        is_outer_product(kernel, hor, ver),
        is_clamp_or_wrap(policy),
        in_grid(x, y, w, h),
        w <= u32::MAX,
        h <= u32::MAX,
    ensures
        separable_next_value(hor, ver, policy, fun, chan, x, y, w, h)
            == next_value(kernel, hor.len() as int, policy, fun, chan, x, y, w, h),
{
    lemma_full_rows(kernel, hor, ver, hor.len(), policy, chan, x, y, w, h);
}

} // verus!
