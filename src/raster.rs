use vstd::prelude::*;

verus! {

/// Column of the pixel that the `k`-th slot of the image holds.
pub open spec fn slot_column(width: int, k: int) -> int {
    k % width
}

/// Row of the pixel that the `k`-th slot of the image holds. Rows are
/// numbered from the bottom of the image and stored from the top.
pub open spec fn slot_row(width: int, height: int, k: int) -> int {
    height - 1 - k / width
}

/// Slot of the image that holds pixel `(i, j)`.
pub open spec fn slot_of(width: int, height: int, i: int, j: int) -> int {
    (height - 1 - j) * width + i
}

/// The pixel coordinates `(i, j)` of a `width` by `height` image, in the
/// order in which the pixels are stored: rows from the top (`j = height - 1`)
/// down to the bottom (`j = 0`), each row from left to right.
pub fn pixel_order(width: usize, height: usize) -> (r: Vec<(usize, usize)>)
    requires
        width * height <= usize::MAX,
    ensures
        r@.len() == width * height,
        forall|k: int|
            0 <= k < r@.len() ==> (#[trigger] r@[k]).0 == slot_column(width as int, k)
                && r@[k].1 == slot_row(width as int, height as int, k),
{
    let mut r: Vec<(usize, usize)> = Vec::new();
    let mut row: usize = 0;
    while row < height
        invariant
            width * height <= usize::MAX,
            row <= height,
            r@.len() == row * width,
            forall|k: int|
                0 <= k < r@.len() ==> (#[trigger] r@[k]).0 == slot_column(width as int, k)
                    && r@[k].1 == slot_row(width as int, height as int, k),
        decreases height - row,
    {
        let j: usize = height - 1 - row;
        let mut i: usize = 0;
        while i < width
            invariant
                width * height <= usize::MAX,
                row < height,
                j == height - 1 - row,
                i <= width,
                r@.len() == row * width + i,
                forall|k: int|
                    0 <= k < r@.len() ==> (#[trigger] r@[k]).0 == slot_column(width as int, k)
                        && r@[k].1 == slot_row(width as int, height as int, k),
            decreases width - i,
        {
            proof {
                let k = row * width + i;
                assert(k / (width as int) == row && k % (width as int) == i) by {
                    vstd::arithmetic::div_mod::lemma_fundamental_div_mod_converse(
                        k,
                        width as int,
                        row as int,
                        i as int,
                    );
                }
            }
            r.push((i, j));
            i = i + 1;
        }
        proof {
            assert((row + 1) * width == row * width + width) by (nonlinear_arith);
        }
        row = row + 1;
    }
    proof {
        vstd::arithmetic::mul::lemma_mul_is_commutative(height as int, width as int);
    }
    r
}

/// Index of the slot that holds pixel `(i, j)` in the storage order of
/// `pixel_order`.
pub fn pixel_slot(width: usize, height: usize, i: usize, j: usize) -> (r: usize)
    requires
        i < width,
        j < height,
        width * height <= usize::MAX,
    ensures
        r == slot_of(width as int, height as int, i as int, j as int),
{
    proof {
        let a = (height - 1 - j) as int;
        assert(a * width + i < width * height) by (nonlinear_arith)
            requires
                0 <= a < height,
                i < width,
        ;
    }
    (height - 1 - j) * width + i
}

/// Each slot holds one pixel of the image and each pixel has one slot: the
/// slot of the pixel stored at slot `k` is `k`, and the pixel stored at the
/// slot of `(i, j)` is `(i, j)`.
pub proof fn lemma_slots_are_a_bijection(width: int, height: int)
    requires
        width > 0,
        height > 0,
    ensures
        forall|k: int|
            0 <= k < width * height ==> 0 <= #[trigger] slot_column(width, k) < width && 0
                <= slot_row(width, height, k) < height && slot_of(
                width,
                height,
                slot_column(width, k),
                slot_row(width, height, k),
            ) == k,
        forall|i: int, j: int|
            0 <= i < width && 0 <= j < height ==> {
                let k = #[trigger] slot_of(width, height, i, j);
                0 <= k < width * height && slot_column(width, k) == i && slot_row(width, height, k)
                    == j
            },
{
    assert forall|k: int| 0 <= k < width * height implies 0 <= #[trigger] slot_column(width, k)
        < width && 0 <= slot_row(width, height, k) < height && slot_of(
        width,
        height,
        slot_column(width, k),
        slot_row(width, height, k),
    ) == k by {
        let q = k / width;
        let m = k % width;
        vstd::arithmetic::div_mod::lemma_fundamental_div_mod(k, width);
        vstd::arithmetic::div_mod::lemma_mod_bound(k, width);
        vstd::arithmetic::div_mod::lemma_div_pos_is_pos(k, width);
        assert(q < height) by (nonlinear_arith)
            requires
                k == width * q + m,
                0 <= m < width,
                k < width * height,
                width > 0,
        ;
        assert((height - 1 - (height - 1 - q)) * width + m == k) by (nonlinear_arith)
            requires
                k == width * q + m,
        ;
    }
    assert forall|i: int, j: int| 0 <= i < width && 0 <= j < height implies {
        let k = #[trigger] slot_of(width, height, i, j);
        0 <= k < width * height && slot_column(width, k) == i && slot_row(width, height, k) == j
    } by {
        let a = height - 1 - j;
        let k = a * width + i;
        assert(0 <= k < width * height) by (nonlinear_arith)
            requires
                0 <= a < height,
                0 <= i < width,
                k == a * width + i,
        ;
        vstd::arithmetic::div_mod::lemma_fundamental_div_mod_converse(k, width, a, i);
    }
}

} // verus!
