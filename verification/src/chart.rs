use vstd::prelude::*;

verus! {

/// Left edge of the progress sparkline, in pixels.
pub const SPARK_X: i32 = 12;

/// Width of the progress sparkline, in pixels.
pub const SPARK_W: i32 = 150;

/// Horizontal position of point `i` of an `n`-point sparkline: the points are
/// spread over the width, the first at the left edge, the last at the right.
pub open spec fn spec_sparkline_x(i: int, n: int) -> int {
    SPARK_X + (SPARK_W * i) / (n - 1)
}

/// Horizontal pixel of point `i` of an `n`-point sparkline.
pub fn sparkline_x(i: usize, n: usize) -> (x: i32)
    requires
        2 <= n,
        i < n,
        SPARK_W * (n - 1) <= i32::MAX,
    ensures
        x == spec_sparkline_x(i as int, n as int),
        SPARK_X <= x <= SPARK_X + SPARK_W,
{
    let ii = i as i32;
    let nn = n as i32;
    assert(0 <= SPARK_W * ii <= SPARK_W * (nn - 1)) by (nonlinear_arith)
        requires
            0 <= ii < nn,
    ;
    assert((SPARK_W * ii) / (nn - 1) <= SPARK_W) by (nonlinear_arith)
        requires
            0 <= SPARK_W * ii <= SPARK_W * (nn - 1),
            nn >= 2,
    ;
    SPARK_X + (SPARK_W * ii) / (nn - 1)
}

/// Law: the sparkline starts at its left edge, ends at its right edge, and
/// never runs backwards.
pub proof fn lemma_sparkline_span(n: int, i: int, j: int)
    requires
        2 <= n,
        0 <= i <= j < n,
    ensures
        spec_sparkline_x(0, n) == SPARK_X,
        spec_sparkline_x(n - 1, n) == SPARK_X + SPARK_W,
        spec_sparkline_x(i, n) <= spec_sparkline_x(j, n),
{
    assert((SPARK_W * (n - 1)) / (n - 1) == SPARK_W) by (nonlinear_arith)
        requires
            n >= 2,
    ;
    assert((SPARK_W * i) / (n - 1) <= (SPARK_W * j) / (n - 1)) by (nonlinear_arith)
        requires
            0 <= i <= j,
            n >= 2,
    ;
}

} // verus!
