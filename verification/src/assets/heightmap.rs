//! Flipping image data upside down.
//!
//! The data is a sequence of rows of `row_length` elements. Row `r` of `h` full
//! rows trades places with row `h - 1 - r`; with an odd number of rows the middle
//! row stays. Elements after the last full row stay where they are.
use vstd::arithmetic::div_mod::{lemma_fundamental_div_mod, lemma_fundamental_div_mod_converse};
use vstd::prelude::*;

verus! {

/// The element whose value element `i` holds once the `n / w` full rows of `n`
/// elements are in reverse order.
pub open spec fn row_source(n: int, w: int, i: int) -> int {
    let rows = n / w;
    if i < rows * w {
        (rows - 1 - i / w) * w + i % w
    } else {
        i
    }
}

/// The data with its full rows of `w` elements in reverse order.
pub open spec fn rows_reversed<T>(data: Seq<T>, w: int) -> Seq<T> {
    Seq::new(data.len(), |i: int| data[row_source(data.len() as int, w, i)])
}

/// Column `col` of row `row` has row `row` and column `col`.
proof fn lemma_position(w: int, row: int, col: int)
    requires
        w > 0,
        row >= 0,
        0 <= col < w,
    ensures
        (row * w + col) / w == row,
        (row * w + col) % w == col,
{
    lemma_fundamental_div_mod_converse(row * w + col, w, row, col);
}

/// An element lies in column `i % w` of row `i / w`, and the full rows of `n`
/// elements end at or before `n`.
proof fn lemma_row_col(n: int, w: int, i: int)
    requires
        w > 0,
        0 <= i,
        n >= 0,
    ensures
        i == (i / w) * w + i % w,
        0 <= i % w < w,
        0 <= i / w,
        (n / w) * w <= n,
        i < (n / w) * w ==> i / w < n / w,
{
    lemma_fundamental_div_mod(i, w);
    lemma_fundamental_div_mod(n, w);
    assert(w * (i / w) == (i / w) * w) by (nonlinear_arith);
    assert(w * (n / w) == (n / w) * w) by (nonlinear_arith);
    assert(0 <= i / w) by (nonlinear_arith)
        requires
            i >= 0,
            w > 0,
    ;
    assert(i < (n / w) * w ==> i / w < n / w) by (nonlinear_arith)
        requires
            i == (i / w) * w + i % w,
            0 <= i % w,
            w > 0,
    ;
}

/// Row `row` of `rows` full rows is taken from row `rows - 1 - row`.
proof fn lemma_row_source(n: int, w: int, row: int, col: int)
    requires
        w > 0,
        n >= 0,
        0 <= row < n / w,
        0 <= col < w,
    ensures
        row * w + col < (n / w) * w,
        row_source(n, w, row * w + col) == (n / w - 1 - row) * w + col,
        (n / w - 1 - row) * w + col < (n / w) * w,
{
    lemma_position(w, row, col);
    assert(row * w + col < (n / w) * w) by (nonlinear_arith)
        requires
            row < n / w,
            col < w,
            w > 0,
    ;
    assert((n / w - 1 - row) * w + col < (n / w) * w) by (nonlinear_arith)
        requires
            row >= 0,
            col < w,
            w > 0,
    ;
}

/// `<[T]>::swap`: exchanges the elements at `a` and `b` (it panics if either is
/// out of bounds, so those inputs are excluded).
#[verifier::external_body]
fn swap_elements<T>(data: &mut [T], a: usize, b: usize)
    requires
        a < old(data)@.len(),
        b < old(data)@.len(),
    ensures
        final(data)@ == old(data)@.update(a as int, old(data)@[b as int]).update(
            b as int,
            old(data)@[a as int],
        ),
{
    data.swap(a, b);
}

/// Element `i` holds its flipped value once the rows before `r` and after
/// `rows - 1 - r`, and the first `c` columns of rows `r` and `rows - 1 - r`,
/// have traded places.
pub open spec fn partly_flipped<T>(data: Seq<T>, start: Seq<T>, w: int, r: int, c: int) -> bool {
    let n = start.len() as int;
    let rows = n / w;
    &&& data.len() == n
    &&& forall|i: int|
        0 <= i < n ==> #[trigger] data[i] == if i < rows * w && (i / w < r || rows - 1 - i / w < r
            || (i / w == r || i / w == rows - 1 - r) && i % w < c) {
            start[row_source(n, w, i)]
        } else {
            start[i]
        }
}

/// Flip image data vertically: the full rows of `row_length` elements come in
/// reverse order.
pub fn flip_image_vertical<T>(data: &mut [T], row_length: usize)
    requires
        row_length > 0,
    ensures
        final(data)@ == rows_reversed(old(data)@, row_length as int),
{
    let ghost start = data@;
    let ghost ni: int = data@.len() as int;
    let ghost wi: int = row_length as int;
    let n: usize = data.len();
    let w: usize = row_length;
    let rows: usize = n / w;
    proof {
        lemma_row_col(ni, wi, 0);
        assert forall|i: int| 0 <= i < ni implies #[trigger] data@[i] == start[i] && !(i < rows
            * w && (i / wi < 0 || rows - 1 - i / wi < 0 || (i / wi == 0 || i / wi == rows - 1) && i
            % wi < 0)) by {
            lemma_row_col(ni, wi, i);
        }
    }
    let mut r: usize = 0;
    while r < rows / 2
        invariant
            ni == n,
            ni == start.len(),
            wi == w,
            w > 0,
            rows == ni / wi,
            rows * w <= n,
            r <= rows / 2,
            partly_flipped(data@, start, wi, r as int, 0),
        decreases rows / 2 - r,
    {
        let mut c: usize = 0;
        while c < w
            invariant
                ni == n,
                ni == start.len(),
                wi == w,
                w > 0,
                rows == ni / wi,
                rows * w <= n,
                r < rows / 2,
                c <= w,
                partly_flipped(data@, start, wi, r as int, c as int),
            decreases w - c,
        {
            let ghost before = data@;
            let other: usize = rows - 1 - r;
            proof {
                lemma_row_source(ni, wi, r as int, c as int);
                lemma_row_source(ni, wi, other as int, c as int);
                lemma_position(wi, r as int, c as int);
                lemma_position(wi, other as int, c as int);
            }
            let a: usize = r * w + c;
            let b: usize = other * w + c;
            swap_elements(data, a, b);
            assert forall|i: int| 0 <= i < ni implies #[trigger] data@[i] == if i < rows * w && (i
                / wi < r || rows - 1 - i / wi < r || (i / wi == r || i / wi == rows - 1 - r) && i
                % wi < c + 1) {
                start[row_source(ni, wi, i)]
            } else {
                start[i]
            } by {
                lemma_row_col(ni, wi, i);
                assert(before[i] == if i < rows * w && (i / wi < r || rows - 1 - i / wi < r || (i
                    / wi == r || i / wi == rows - 1 - r) && i % wi < c) {
                    start[row_source(ni, wi, i)]
                } else {
                    start[i]
                });
                if i != a && i != b && i < rows * w && (i / wi == r || i / wi == rows - 1 - r) && i
                    % wi == c {
                    assert(i == (i / wi) * wi + i % wi);
                }
            }
            c = c + 1;
        }
        assert forall|i: int| 0 <= i < ni implies #[trigger] data@[i] == if i < rows * w && (i / wi
            < r + 1 || rows - 1 - i / wi < r + 1) {
            start[row_source(ni, wi, i)]
        } else {
            start[i]
        } by {
            lemma_row_col(ni, wi, i);
        }
        r = r + 1;
    }
    assert forall|i: int| 0 <= i < ni implies #[trigger] data@[i] == rows_reversed(start, wi)[i] by {
        lemma_row_col(ni, wi, i);
        if i < rows * w && !(i / wi < r || rows - 1 - i / wi < r) {
            // The middle row of an odd number of rows takes its value from itself.
            assert(i / wi == rows - 1 - i / wi);
            assert(row_source(ni, wi, i) == i);
        }
    }
    assert(data@ =~= rows_reversed(start, wi));
}

/// Each element takes its value from an element that takes its value from it.
pub proof fn lemma_row_source_involution(n: int, w: int, i: int)
    requires
        n >= 0,
        w > 0,
        0 <= i < n,
    ensures
        0 <= row_source(n, w, i) < n,
        row_source(n, w, row_source(n, w, i)) == i,
{
    lemma_row_col(n, w, i);
    if i < (n / w) * w {
        let row: int = i / w;
        let col: int = i % w;
        lemma_row_source(n, w, row, col);
        lemma_row_source(n, w, n / w - 1 - row, col);
    }
}

/// Flipping twice gives back the data it started from.
pub proof fn law_flip_twice_is_identity<T>(data: Seq<T>, w: int)
    requires
        w > 0,
    ensures
        rows_reversed(rows_reversed(data, w), w) == data,
{
    let n: int = data.len() as int;
    assert forall|i: int| 0 <= i < n implies #[trigger] rows_reversed(rows_reversed(data, w), w)[i]
        == data[i] by {
        lemma_row_source_involution(n, w, i);
    }
    assert(rows_reversed(rows_reversed(data, w), w) =~= data);
}

/// For an image of `h` full rows, column `c` of row `r` after the flip holds
/// column `c` of row `h - 1 - r` before it.
pub proof fn law_flip_swaps_rows(h: int, w: int, r: int, c: int)
    requires
        w > 0,
        0 <= r < h,
        0 <= c < w,
    ensures
        row_source(h * w, w, r * w + c) == (h - 1 - r) * w + c,
{
    lemma_fundamental_div_mod_converse(h * w, w, h, 0);
    lemma_row_source(h * w, w, r, c);
}

} // verus!
