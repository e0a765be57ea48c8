//! Matrices whose entries are matrices.
//!
//! A matrix of `M` by `K` blocks of `P` by `Q` entries each holds the same
//! entries as one grid of `M * P` rows and `K * Q` columns. Adding and
//! multiplying by blocks gives the entries that adding and multiplying
//! those grids entry by entry gives.

use crate::element::{AdditiveLaws, Plus, Times};
use crate::grid::{dot, dot_ok, lemma_dot_ok_prefix, product_grid, product_ok, sum_grid, sum_ok};
use crate::laws::{lemma_plus_view, lemma_times_view, lemma_zero_view};
use crate::matrix::Matrix;
use vstd::arithmetic::div_mod::lemma_fundamental_div_mod_converse;
use vstd::prelude::*;

verus! {

/// The entries of a matrix of blocks as one grid: the entry in row `i` and
/// column `j` of the block in row `bi` and column `bj` stands in row
/// `bi * P + i` and column `bj * Q + j`.
pub open spec fn flatten<R, const P: usize, const Q: usize, const M: usize, const K: usize>(
    m: Matrix<Matrix<R, P, Q>, M, K>,
) -> Seq<Seq<R>> {
    Seq::new(
        (M * P) as nat,
        |x: int|
            Seq::new(
                (K * Q) as nat,
                |y: int| m@[x / (P as int)][y / (Q as int)]@[x % (P as int)][y % (Q as int)],
            ),
    )
}

/// The position `q * d + r`, for an offset `r` below the block size `d` and
/// a block `q` of `n`, is a position below `n * d`, in block `q`, at
/// offset `r`.
pub proof fn lemma_block_position(q: int, r: int, d: int, n: int)
    requires
        0 <= q < n,
        0 <= r < d,
    ensures
        0 <= q * d + r < n * d,
        (q * d + r) / d == q,
        (q * d + r) % d == r,
{
    lemma_fundamental_div_mod_converse(q * d + r, d, q, r);
    assert(0 <= q * d && q * d + d <= n * d) by (nonlinear_arith)
        requires
            0 <= q < n,
            0 < d,
    ;
}

/// Where an entry of a block stands in the flattened grid.
pub proof fn lemma_flatten_entry<R, const P: usize, const Q: usize, const M: usize, const K: usize>(
    m: Matrix<Matrix<R, P, Q>, M, K>,
    bi: int,
    bj: int,
    i: int,
    j: int,
)
    requires
        0 <= bi < M,
        0 <= bj < K,
        0 <= i < P,
        0 <= j < Q,
    ensures
        0 <= bi * P + i < M * P,
        0 <= bj * Q + j < K * Q,
        flatten(m)[bi * P + i][bj * Q + j] == m@[bi][bj]@[i][j],
{
    lemma_block_position(bi, i, P as int, M as int);
    lemma_block_position(bj, j, Q as int, K as int);
}

/// Adding by blocks is adding entry by entry: the sum of two matrices of
/// blocks can be computed exactly where the entrywise sum of their
/// flattened grids can, and flattened it is that sum.
pub proof fn lemma_block_sum<R: Plus, const P: usize, const Q: usize, const M: usize, const K: usize>(
    a: Matrix<Matrix<R, P, Q>, M, K>,
    b: Matrix<Matrix<R, P, Q>, M, K>,
)
    ensures
        a.plus_ok(&b) == sum_ok(flatten(a), flatten(b)),
        flatten(a.plus_spec(&b)) == sum_grid(flatten(a), flatten(b)),
{
    let fa = flatten(a);
    let fb = flatten(b);
    let sum = a.plus_spec(&b);
    lemma_plus_view(a, b);
    if a.plus_ok(&b) {
        assert forall|x: int, y: int| 0 <= x < fa.len() && 0 <= y < fa[x].len() implies #[trigger] fa[x][y].plus_ok(
            &fb[x][y],
        ) by {
            lemma_flat_position(x, P as int, M as int);
            lemma_flat_position(y, Q as int, K as int);
            let (bi, i) = (x / (P as int), x % (P as int));
            let (bj, j) = (y / (Q as int), y % (Q as int));
            assert(a@[bi][bj].plus_ok(&b@[bi][bj]));
            assert(a@[bi][bj]@[i][j].plus_ok(&b@[bi][bj]@[i][j]));
        }
    }
    if sum_ok(fa, fb) {
        assert forall|bi: int, bj: int| 0 <= bi < a@.len() && 0 <= bj < a@[bi].len() implies #[trigger] a@[bi][bj].plus_ok(
            &b@[bi][bj],
        ) by {
            let (p, q) = (a@[bi][bj], b@[bi][bj]);
            assert forall|i: int, j: int| 0 <= i < p@.len() && 0 <= j < p@[i].len() implies #[trigger] p@[i][j].plus_ok(
                &q@[i][j],
            ) by {
                lemma_flatten_entry(a, bi, bj, i, j);
                lemma_flatten_entry(b, bi, bj, i, j);
                assert(fa[bi * P + i][bj * Q + j].plus_ok(&fb[bi * P + i][bj * Q + j]));
            }
        }
    }
    assert forall|x: int, y: int| 0 <= x < M * P && 0 <= y < K * Q implies #[trigger] flatten(sum)[x][y]
        == fa[x][y].plus_spec(&fb[x][y]) by {
        lemma_flat_position(x, P as int, M as int);
        lemma_flat_position(y, Q as int, K as int);
        let (bi, bj) = (x / (P as int), y / (Q as int));
        lemma_plus_view(a@[bi][bj], b@[bi][bj]);
    }
    assert(flatten(sum) =~~= sum_grid(fa, fb));
}

/// The sum of the first `l_block * Q + l` products of the flattened grids
/// is the entry of the sum of the first `l_block` products of blocks, plus
/// the sum of the first `l` products within the next pair of blocks.
proof fn lemma_block_dot<
    R1,
    R2,
    R3,
    const P: usize,
    const Q: usize,
    const S: usize,
    const M: usize,
    const K: usize,
    const N: usize,
>(
    a: Matrix<Matrix<R1, P, Q>, M, K>,
    b: Matrix<Matrix<R2, Q, S>, K, N>,
    bi: int,
    bj: int,
    i: int,
    j: int,
    l_block: nat,
    l: nat,
) where R1: Times<R2, Output = R3>, R3: AdditiveLaws
    requires
        a.times_ok(&b),
        product_ok::<R1, R2, R3>(flatten(a), flatten(b), (M * P) as nat, (K * Q) as nat, (N * S) as nat),
        0 <= bi < M,
        0 <= bj < N,
        0 <= i < P,
        0 <= j < S,
        l_block <= K,
        l <= Q,
        l_block < K || l == 0,
    ensures
        ({
            let blocks = dot::<Matrix<R1, P, Q>, Matrix<R2, Q, S>, Matrix<R3, P, S>>(
                a@,
                b@,
                bi,
                bj,
                l_block,
            );
            let within = if l_block < K {
                dot::<R1, R2, R3>(a@[bi][l_block as int]@, b@[l_block as int][bj]@, i, j, l)
            } else {
                R3::zero_spec()
            };
            &&& blocks@[i][j].plus_ok(&within)
            &&& dot::<R1, R2, R3>(
                flatten(a),
                flatten(b),
                bi * P + i,
                bj * S + j,
                (l_block * Q + l) as nat,
            ) == blocks@[i][j].plus_spec(&within)
        }),
    decreases l_block, l,
{
    let fa = flatten(a);
    let fb = flatten(b);
    let x = bi * P + i;
    let y = bj * S + j;
    let blocks = dot::<Matrix<R1, P, Q>, Matrix<R2, Q, S>, Matrix<R3, P, S>>(a@, b@, bi, bj, l_block);
    lemma_block_position(bi, i, P as int, M as int);
    lemma_block_position(bj, j, S as int, N as int);
    if l > 0 {
        let lb = l_block as int;
        let (p, q) = (a@[bi][lb], b@[lb][bj]);
        let before = dot::<R1, R2, R3>(p@, q@, i, j, (l - 1) as nat);
        let term = p@[i][l - 1].times_spec(&q@[l - 1][j]);
        let n = (l_block * Q + l) as nat;
        lemma_block_dot(a, b, bi, bj, i, j, l_block, (l - 1) as nat);
        // the term of the flattened sum is the term of the sum within the blocks
        lemma_flatten_entry(a, bi, lb, i, l - 1);
        lemma_flatten_entry(b, lb, bj, l - 1, j);
        assert(fa[x][n - 1].times_spec(&fb[n - 1][y]) == term);
        // the flattened sum can be computed this far
        assert(n <= K * Q) by (nonlinear_arith)
            requires
                n == l_block * Q + l,
                l_block < K,
                l <= Q,
        ;
        assert(dot_ok::<R1, R2, R3>(fa, fb, x, y, (K * Q) as nat));
        lemma_dot_ok_prefix::<R1, R2, R3>(fa, fb, x, y, (K * Q) as nat, n);
        // and so can the sum within the blocks
        lemma_dot_ok_prefix::<Matrix<R1, P, Q>, Matrix<R2, Q, S>, Matrix<R3, P, S>>(
            a@,
            b@,
            bi,
            bj,
            K as nat,
            (l_block + 1) as nat,
        );
        assert(p.times_ok(&q));
        assert(dot_ok::<R1, R2, R3>(p@, q@, i, j, Q as nat));
        lemma_dot_ok_prefix::<R1, R2, R3>(p@, q@, i, j, Q as nat, l);
        R3::lemma_plus_regroup(&blocks@[i][j], &before, &term);
    } else if l_block == 0 {
        lemma_zero_view::<R3, P, S>();
        R3::lemma_plus_zero(&R3::zero_spec());
    } else {
        let lb = l_block - 1;
        let (p, q) = (a@[bi][lb], b@[lb][bj]);
        let earlier = dot::<Matrix<R1, P, Q>, Matrix<R2, Q, S>, Matrix<R3, P, S>>(
            a@,
            b@,
            bi,
            bj,
            lb as nat,
        );
        lemma_block_dot(a, b, bi, bj, i, j, lb as nat, Q as nat);
        assert(lb * Q + Q == l_block * Q) by (nonlinear_arith)
            requires
                lb == l_block - 1,
        ;
        lemma_times_view::<R1, R2, R3, P, Q, S>(p, q);
        lemma_plus_view(earlier, p.times_spec(&q));
        assert(blocks@[i][j] == earlier@[i][j].plus_spec(
            &dot::<R1, R2, R3>(p@, q@, i, j, Q as nat),
        ));
        R3::lemma_plus_zero(&blocks@[i][j]);
        if l_block < K {
            assert(dot::<R1, R2, R3>(a@[bi][l_block as int]@, b@[l_block as int][bj]@, i, j, 0)
                == R3::zero_spec());
        }
    }
}

/// Multiplying by blocks is multiplying entry by entry: where the product
/// of two matrices of blocks and the product of their flattened grids can
/// both be computed, the first, flattened, is the second.
pub proof fn lemma_block_product<
    R1,
    R2,
    R3,
    const P: usize,
    const Q: usize,
    const S: usize,
    const M: usize,
    const K: usize,
    const N: usize,
>(a: Matrix<Matrix<R1, P, Q>, M, K>, b: Matrix<Matrix<R2, Q, S>, K, N>) where
    R1: Times<R2, Output = R3>,
    R3: AdditiveLaws,

    requires
        a.times_ok(&b),
        product_ok::<R1, R2, R3>(flatten(a), flatten(b), (M * P) as nat, (K * Q) as nat, (N * S) as nat),
    ensures
        flatten(a.times_spec(&b)) == product_grid::<R1, R2, R3>(
            flatten(a),
            flatten(b),
            (M * P) as nat,
            (K * Q) as nat,
            (N * S) as nat,
        ),
{
    let fa = flatten(a);
    let fb = flatten(b);
    let product = a.times_spec(&b);
    lemma_times_view::<Matrix<R1, P, Q>, Matrix<R2, Q, S>, Matrix<R3, P, S>, M, K, N>(a, b);
    assert forall|x: int, y: int| 0 <= x < M * P && 0 <= y < N * S implies #[trigger] flatten(
        product,
    )[x][y] == dot::<R1, R2, R3>(fa, fb, x, y, (K * Q) as nat) by {
        lemma_flat_position(x, P as int, M as int);
        lemma_flat_position(y, S as int, N as int);
        let (bi, i) = (x / (P as int), x % (P as int));
        let (bj, j) = (y / (S as int), y % (S as int));
        vstd::arithmetic::div_mod::lemma_fundamental_div_mod(x, P as int);
        vstd::arithmetic::div_mod::lemma_fundamental_div_mod(y, S as int);
        assert(x == bi * P + i && y == bj * S + j) by (nonlinear_arith)
            requires
                x == (P as int) * (x / (P as int)) + x % (P as int),
                y == (S as int) * (y / (S as int)) + y % (S as int),
                bi == x / (P as int),
                i == x % (P as int),
                bj == y / (S as int),
                j == y % (S as int),
        ;
        lemma_block_dot(a, b, bi, bj, i, j, K as nat, 0);
        R3::lemma_plus_zero(&product@[bi][bj]@[i][j]);
    }
    assert(flatten(product) =~~= product_grid::<R1, R2, R3>(
        fa,
        fb,
        (M * P) as nat,
        (K * Q) as nat,
        (N * S) as nat,
    ));
}

/// A position `x` below `n * d` lies in a block below `n`, at an offset
/// below `d`.
proof fn lemma_flat_position(x: int, d: int, n: int)
    requires
        0 <= x < n * d,
        0 <= d,
        0 <= n,
    ensures
        0 < d,
        0 <= x / d < n,
        0 <= x % d < d,
{
    assert(0 < d) by (nonlinear_arith)
        requires
            0 <= x < n * d,
            0 <= d,
            0 <= n,
    ;
    vstd::arithmetic::div_mod::lemma_fundamental_div_mod(x, d);
    vstd::arithmetic::div_mod::lemma_mod_bound(x, d);
    assert(0 <= x / d < n) by (nonlinear_arith)
        requires
            0 <= x < n * d,
            0 < d,
            x == d * (x / d) + x % d,
            0 <= x % d < d,
    ;
}

} // verus!
