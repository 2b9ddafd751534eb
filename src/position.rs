use vstd::prelude::*;

verus! {

/// `n / d` rounded to the nearest integer, halfway cases away from zero.
pub open spec fn round_half_away(n: int, d: int) -> int
    recommends
        d > 0,
{
    if n >= 0 {
        (2 * n + d) / (2 * d)
    } else {
        -((-2 * n + d) / (2 * d))
    }
}

/// Where a pointer coordinate lands on a grid of `cell`-wide cells whose origin
/// sits at `offset`: `round((coord - offset - cell / 2) / cell) * cell`.
pub open spec fn snap(coord: int, offset: int, cell: int) -> int
    recommends
        cell > 0,
{
    round_half_away(2 * (coord - offset) - cell, 2 * cell) * cell
}

/// Snaps one pointer coordinate to the grid; the result is always a multiple of
/// the cell size.
pub fn snap_coordinate(coord: i32, offset: i32, cell: u32) -> (r: i64)
    requires
        cell > 0,
    ensures
        r == snap(coord as int, offset as int, cell as int),
        (r as int) % (cell as int) == 0,
{
    let c: i64 = cell as i64;
    let n: i64 = 2 * (coord as i64 - offset as i64) - c;
    let d: u64 = 2 * (cell as u64);
    if n >= 0 {
        let q: u64 = (2 * (n as u64) + d) / (2 * d);
        proof {
            lemma_quotient_times_cell(2 * n + d, c as int);
            vstd::arithmetic::div_mod::lemma_mod_multiples_basic(q as int, c as int);
            assert(q as int == round_half_away(n as int, 2 * (cell as int)));
        }
        let r: i64 = (q as i64) * c;
        assert(r as int == (q as int) * (cell as int));
        r
    } else {
        let m: u64 = (2 * ((-n) as u64) + d) / (2 * d);
        proof {
            lemma_quotient_times_cell(-2 * n + d, c as int);
            vstd::arithmetic::div_mod::lemma_mod_multiples_basic(-(m as int), c as int);
            assert(-(m as int) == round_half_away(n as int, 2 * (cell as int)));
        }
        let r: i64 = -((m as i64) * c);
        assert(r as int == (-(m as int)) * (cell as int)) by (nonlinear_arith)
            requires
                r as int == -((m as int) * (c as int)),
                c as int == cell as int,
        ;
        r
    }
}

proof fn lemma_quotient_times_cell(num: int, cell: int)
    requires
        num >= 0,
        cell > 0,
    ensures
        0 <= (num / (4 * cell)) * cell <= num,
{
    let q = num / (4 * cell);
    vstd::arithmetic::div_mod::lemma_fundamental_div_mod(num, 4 * cell);
    vstd::arithmetic::div_mod::lemma_mod_pos_bound(num, 4 * cell);
    vstd::arithmetic::div_mod::lemma_div_pos_is_pos(num, 4 * cell);
    assert(0 <= q * cell <= num) by (nonlinear_arith)
        requires
            num == (4 * cell) * q + num % (4 * cell),
            num % (4 * cell) >= 0,
            q >= 0,
            cell > 0,
    ;
}

/// A position on the canvas, in pixels, snapped to the active cell size.
#[derive(Clone, Copy, Debug, PartialEq, Eq, Structural)]
pub struct Position {
    pub x: i64,
    pub y: i64,
}

impl Default for Position {
    fn default() -> (r: Self)
        ensures
            r.x == 0 && r.y == 0,
    {
        Position { x: 0, y: 0 }
    }
}

impl Position {
    /// Moves to the cell under the pointer at (`client_x`, `client_y`), for a
    /// canvas whose top-left corner is at (`left`, `top`) and whose cells are
    /// `pixel_width` by `pixel_height`.
    pub fn update(
        &mut self,
        client_x: i32,
        client_y: i32,
        left: i32,
        top: i32,
        pixel_width: u32,
        pixel_height: u32,
    )
        requires
            pixel_width > 0,
            pixel_height > 0,
        ensures
            final(self).x == snap(client_x as int, left as int, pixel_width as int),
            final(self).y == snap(client_y as int, top as int, pixel_height as int),
            (final(self).x as int) % (pixel_width as int) == 0,
            (final(self).y as int) % (pixel_height as int) == 0,
    {
        self.x = snap_coordinate(client_x, left, pixel_width);
        self.y = snap_coordinate(client_y, top, pixel_height);
    }
}

} // verus!
