//! The brightness field: converts a rectangular RGBA pixel buffer into a
//! same-sized grid of brightness values in milli-units.
//!
//! A pixel's brightness is `sqrt(0.229 r^2 + 0.587 g^2 + 0.114 b^2) / 100`,
//! a perceptual-luma-weighted magnitude. The grid stores that value in
//! thousandths, rounded down, which is exactly
//! `isqrt((229 r^2 + 587 g^2 + 114 b^2) / 10)` in integer arithmetic.

use vstd::arithmetic::div_mod::lemma_div_is_ordered;
use vstd::prelude::*;

verus! {

/// The largest brightness in milli-units: the value of a pure white pixel,
/// `isqrt((229 + 587 + 114) * 255 * 255 / 10)`.
pub const BRIGHTNESS_MAX_MIL: u64 = 2459;

/// The integer square root: the largest `r` with `r * r <= x`.
pub open spec fn isqrt_spec(x: nat) -> nat
    decreases x,
{
    if x == 0 {
        0
    } else {
        let r = isqrt_spec((x - 1) as nat);
        if (r + 1) * (r + 1) <= x {
            r + 1
        } else {
            r
        }
    }
}

pub proof fn lemma_isqrt_bounds(x: nat)
    ensures
        isqrt_spec(x) * isqrt_spec(x) <= x,
        x < (isqrt_spec(x) + 1) * (isqrt_spec(x) + 1),
    decreases x,
{
    if x > 0 {
        lemma_isqrt_bounds((x - 1) as nat);
        let r = isqrt_spec((x - 1) as nat);
        assert(r * r <= x - 1);
        assert(x - 1 < (r + 1) * (r + 1));
        if (r + 1) * (r + 1) <= x {
            assert(isqrt_spec(x) == r + 1);
            assert((r + 1) * (r + 1) < (r + 2) * (r + 2)) by (nonlinear_arith);
            assert(x < (isqrt_spec(x) + 1) * (isqrt_spec(x) + 1));
        } else {
            assert(isqrt_spec(x) == r);
        }
    } else {
        let s = isqrt_spec(x);
        assert(s == 0);
        assert(s * s <= x);
        assert(x < (s + 1) * (s + 1)) by (nonlinear_arith)
            requires s == 0, x == 0;
    }
}

pub proof fn lemma_isqrt_unique(x: nat, r: nat)
    requires
        r * r <= x,
        x < (r + 1) * (r + 1),
    ensures
        r == isqrt_spec(x),
{
    lemma_isqrt_bounds(x);
    let s = isqrt_spec(x);
    if r < s {
        assert((r + 1) * (r + 1) <= s * s) by (nonlinear_arith)
            requires r + 1 <= s;
    }
    if s < r {
        assert((s + 1) * (s + 1) <= r * r) by (nonlinear_arith)
            requires s + 1 <= r;
    }
}

pub proof fn lemma_isqrt_monotone(x: nat, y: nat)
    requires
        x <= y,
    ensures
        isqrt_spec(x) <= isqrt_spec(y),
{
    lemma_isqrt_bounds(x);
    lemma_isqrt_bounds(y);
    let rx = isqrt_spec(x);
    let ry = isqrt_spec(y);
    if ry < rx {
        assert((ry + 1) * (ry + 1) <= rx * rx) by (nonlinear_arith)
            requires ry + 1 <= rx;
    }
}

/// The integer square root, by bisection.
pub fn isqrt(x: u64) -> (r: u64)
    requires
        x < 0x1_0000_0000,
    ensures
        r == isqrt_spec(x as nat),
{
    let mut lo: u64 = 0;
    let mut hi: u64 = 0x1_0000;
    assert(x < hi * hi) by (nonlinear_arith)
        requires x < 0x1_0000_0000, hi == 0x1_0000;
    while lo + 1 < hi
        invariant
            lo < hi <= 0x1_0000,
            lo * lo <= x,
            x < hi * hi,
        decreases hi - lo,
    {
        let mid = lo + (hi - lo) / 2;
        proof {
            assert(mid * mid <= 0x1_0000 * 0x1_0000) by (nonlinear_arith)
                requires mid <= 0x1_0000;
        }
        if mid * mid <= x {
            lo = mid;
        } else {
            hi = mid;
        }
    }
    proof {
        lemma_isqrt_unique(x as nat, lo as nat);
    }
    lo
}

/// The channel-weighted sum of squares `229 r^2 + 587 g^2 + 114 b^2`,
/// i.e. `1000 * (0.229 r^2 + 0.587 g^2 + 0.114 b^2)`.
pub open spec fn weighted_square_sum(r: u8, g: u8, b: u8) -> nat {
    229 * (r as nat) * (r as nat) + 587 * (g as nat) * (g as nat) + 114 * (b as nat) * (b as nat)
}

/// A pixel's brightness in milli-units:
/// `floor(1000 * sqrt(0.229 r^2 + 0.587 g^2 + 0.114 b^2) / 100)`.
pub open spec fn brightness_spec(r: u8, g: u8, b: u8) -> nat {
    isqrt_spec(weighted_square_sum(r, g, b) / 10)
}

proof fn lemma_weighted_square_sum_bound(r: u8, g: u8, b: u8)
    ensures
        weighted_square_sum(r, g, b) <= 60_473_250,
{
    assert(229 * (r as nat) * (r as nat) <= 229 * 255 * 255) by (nonlinear_arith)
        requires r as nat <= 255;
    assert(587 * (g as nat) * (g as nat) <= 587 * 255 * 255) by (nonlinear_arith)
        requires g as nat <= 255;
    assert(114 * (b as nat) * (b as nat) <= 114 * 255 * 255) by (nonlinear_arith)
        requires b as nat <= 255;
}

pub proof fn lemma_brightness_bound(r: u8, g: u8, b: u8)
    ensures
        brightness_spec(r, g, b) <= BRIGHTNESS_MAX_MIL,
{
    lemma_weighted_square_sum_bound(r, g, b);
    let q = weighted_square_sum(r, g, b) / 10;
    lemma_isqrt_bounds(q);
    let v = isqrt_spec(q);
    if v > BRIGHTNESS_MAX_MIL {
        assert(2460 * 2460 <= v * v) by (nonlinear_arith)
            requires 2460 <= v;
    }
}

/// Brightness is monotonically non-decreasing in each colour channel.
pub proof fn lemma_brightness_monotone(r1: u8, g1: u8, b1: u8, r2: u8, g2: u8, b2: u8)
    requires
        r1 <= r2,
        g1 <= g2,
        b1 <= b2,
    ensures
        brightness_spec(r1, g1, b1) <= brightness_spec(r2, g2, b2),
{
    assert(229 * (r1 as nat) * (r1 as nat) <= 229 * (r2 as nat) * (r2 as nat)) by (nonlinear_arith)
        requires r1 as nat <= r2 as nat;
    assert(587 * (g1 as nat) * (g1 as nat) <= 587 * (g2 as nat) * (g2 as nat)) by (nonlinear_arith)
        requires g1 as nat <= g2 as nat;
    assert(114 * (b1 as nat) * (b1 as nat) <= 114 * (b2 as nat) * (b2 as nat)) by (nonlinear_arith)
        requires b1 as nat <= b2 as nat;
    lemma_div_is_ordered(
        weighted_square_sum(r1, g1, b1) as int,
        weighted_square_sum(r2, g2, b2) as int,
        10,
    );
    lemma_isqrt_monotone(
        weighted_square_sum(r1, g1, b1) / 10,
        weighted_square_sum(r2, g2, b2) / 10,
    );
}

/// A pixel's brightness in milli-units, computed exactly.
pub fn brightness_milli(r: u8, g: u8, b: u8) -> (v: u64)
    ensures
        v == brightness_spec(r, g, b),
        v <= BRIGHTNESS_MAX_MIL,
{
    proof {
        lemma_weighted_square_sum_bound(r, g, b);
        lemma_brightness_bound(r, g, b);
        assert(229 * (r as u64) * (r as u64) == 229 * (r as nat) * (r as nat)) by (nonlinear_arith);
        assert(587 * (g as u64) * (g as u64) == 587 * (g as nat) * (g as nat)) by (nonlinear_arith);
        assert(114 * (b as u64) * (b as u64) == 114 * (b as nat) * (b as nat)) by (nonlinear_arith);
    }
    let q: u64 = 229 * (r as u64) * (r as u64) + 587 * (g as u64) * (g as u64)
        + 114 * (b as u64) * (b as u64);
    isqrt(q / 10)
}

/// Byte offset of a pixel's red channel in a row-major RGBA buffer.
pub open spec fn pixel_offset(width: nat, x: nat, y: nat) -> nat {
    4 * (y * width + x)
}

/// The brightness grid a buffer determines: `height` rows of `width`
/// brightness values in milli-units, one per pixel (alpha ignored).
pub open spec fn grid_of(buf: Seq<u8>, width: nat, height: nat) -> Seq<Seq<u64>> {
    Seq::new(
        height,
        |y: int|
            Seq::new(
                width,
                |x: int|
                    brightness_spec(
                        buf[pixel_offset(width, x as nat, y as nat) as int],
                        buf[pixel_offset(width, x as nat, y as nat) as int + 1],
                        buf[pixel_offset(width, x as nat, y as nat) as int + 2],
                    ) as u64,
            ),
    )
}

/// Well-formedness of a grid view: `height` rows of `width` cells, every
/// cell at most the brightness of pure white.
pub open spec fn grid_wf(g: Seq<Seq<u64>>, width: nat, height: nat) -> bool {
    &&& g.len() == height
    &&& forall|y: int| 0 <= y < height ==> (#[trigger] g[y]).len() == width
    &&& forall|y: int, x: int|
        0 <= y < height && 0 <= x < width ==> #[trigger] g[y][x] <= BRIGHTNESS_MAX_MIL
}

/// A grid of brightness values in milli-units, row-major.
pub struct BrightnessGrid {
    rows: Vec<Vec<u64>>,
}

impl View for BrightnessGrid {
    type V = Seq<Seq<u64>>;

    closed spec fn view(&self) -> Seq<Seq<u64>> {
        self.rows@.map_values(|row: Vec<u64>| row@)
    }
}

impl BrightnessGrid {
    pub open spec fn wf(&self, width: nat, height: nat) -> bool {
        grid_wf(self@, width, height)
    }

    /// Converts an RGBA pixel buffer of the given dimensions into its
    /// brightness grid, cell by cell.
    pub fn compute(buffer: &Vec<u8>, width: usize, height: usize) -> (grid: BrightnessGrid)
        requires
            buffer@.len() == 4 * width * height,
        ensures
            grid@ == grid_of(buffer@, width as nat, height as nat),
            grid.wf(width as nat, height as nat),
    {
        let mut rows: Vec<Vec<u64>> = Vec::new();
        let ghost target = grid_of(buffer@, width as nat, height as nat);
        let n: usize = buffer.len();
        let mut y: usize = 0;
        while y < height
            invariant
                y <= height,
                buffer@.len() == 4 * width * height,
                buffer@.len() <= usize::MAX,
                target == grid_of(buffer@, width as nat, height as nat),
                rows@.len() == y,
                forall|i: int| 0 <= i < y ==> (#[trigger] rows@[i])@ == target[i],
            decreases height - y,
        {
            let mut row: Vec<u64> = Vec::new();
            let mut x: usize = 0;
            while x < width
                invariant
                    x <= width,
                    y < height,
                    buffer@.len() == 4 * width * height,
                    buffer@.len() <= usize::MAX,
                    target == grid_of(buffer@, width as nat, height as nat),
                    row@.len() == x,
                    forall|j: int| 0 <= j < x ==> #[trigger] row@[j] == target[y as int][j],
                decreases width - x,
            {
                proof {
                    assert(y * width + x < width * height) by (nonlinear_arith)
                        requires y < height, x < width;
                    assert(4 * (width * height) == 4 * width * height) by (nonlinear_arith);
                    assert(4 * (y * width + x) < 4 * (width * height));
                }
                let base: usize = 4 * (y * width + x);
                let v = brightness_milli(buffer[base], buffer[base + 1], buffer[base + 2]);
                row.push(v);
                x = x + 1;
            }
            proof {
                assert(row@ =~= target[y as int]);
            }
            rows.push(row);
            y = y + 1;
        }
        let grid = BrightnessGrid { rows };
        proof {
            assert(grid@ =~~= target);
            assert forall|yy: int, xx: int|
                0 <= yy < height && 0 <= xx < width implies #[trigger] grid@[yy][xx]
                <= BRIGHTNESS_MAX_MIL by {
                lemma_brightness_bound(
                    buffer@[pixel_offset(width as nat, xx as nat, yy as nat) as int],
                    buffer@[pixel_offset(width as nat, xx as nat, yy as nat) as int + 1],
                    buffer@[pixel_offset(width as nat, xx as nat, yy as nat) as int + 2],
                );
            }
        }
        grid
    }

    /// Reads the brightness of the cell at column `x`, row `y`.
    pub fn sample(&self, x: usize, y: usize, width: usize, height: usize) -> (s: u64)
        requires
            self.wf(width as nat, height as nat),
            x < width,
            y < height,
        ensures
            s == self@[y as int][x as int],
            s <= BRIGHTNESS_MAX_MIL,
    {
        proof {
            assert(self@.len() == self.rows@.len());
            assert(self@[y as int] == self.rows@[y as int]@);
        }
        self.rows[y][x]
    }
}

/// Computing the brightness grid is idempotent: any two grids whose cells
/// come from the same buffer are identical.
pub proof fn lemma_compute_deterministic(
    g1: BrightnessGrid,
    g2: BrightnessGrid,
    buf: Seq<u8>,
    width: nat,
    height: nat,
)
    requires
        g1@ == grid_of(buf, width, height),
        g2@ == grid_of(buf, width, height),
    ensures
        g1@ == g2@,
{
}

} // verus!
