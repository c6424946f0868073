//! Laws about classic Game of Life patterns: a 2x2 block is a fixed point of
//! the update rule, and a 3-cell blinker oscillates with period 2.

use vstd::prelude::*;
use crate::grid::HEIGHT;
use crate::grid::WIDTH;
use crate::grid::cell_at;
use crate::grid::cell_index;
use crate::grid::grid_wf;
use crate::grid::in_bounds;
use crate::grid::next_alive;
use crate::grid::next_gen;

verus! {

/// The grid holds exactly a 2x2 block of alive cells whose lowest corner is
/// (bx, by): those four cells are alive and every other cell is dead.
pub open spec fn block_pattern(g: Seq<bool>, bx: int, by: int) -> bool {
    grid_wf(g) && forall|x: int, y: int|
        in_bounds(x, y) ==> (#[trigger] cell_at(g, x, y) <==> (bx <= x <= bx + 1 && by <= y <= by
            + 1))
}

/// The grid holds exactly three alive cells in a line through (cx, cy) along
/// the second coordinate: (cx, cy - 1), (cx, cy), (cx, cy + 1).
pub open spec fn blinker_col_pattern(g: Seq<bool>, cx: int, cy: int) -> bool {
    grid_wf(g) && forall|x: int, y: int|
        in_bounds(x, y) ==> (#[trigger] cell_at(g, x, y) <==> (x == cx && cy - 1 <= y <= cy + 1))
}

/// The grid holds exactly three alive cells in a line through (cx, cy) along
/// the first coordinate: (cx - 1, cy), (cx, cy), (cx + 1, cy).
pub open spec fn blinker_row_pattern(g: Seq<bool>, cx: int, cy: int) -> bool {
    grid_wf(g) && forall|x: int, y: int|
        in_bounds(x, y) ==> (#[trigger] cell_at(g, x, y) <==> (y == cy && cx - 1 <= x <= cx + 1))
}

/// Law: a 2x2 block of alive cells, fully surrounded by dead cells, maps to
/// itself under one application of the update rule.
pub proof fn lemma_block_fixed_point(g: Seq<bool>, bx: int, by: int)
    requires
        block_pattern(g, bx, by),
        1 <= bx,
        bx + 1 <= WIDTH as int - 2,
        1 <= by,
        by + 1 <= HEIGHT as int - 2,
    ensures
        next_gen(g) == g,
{
    assert forall|k: int| 0 <= k < g.len() implies next_gen(g)[k] == g[k] by {
        let h = HEIGHT as int;
        vstd::arithmetic::div_mod::lemma_fundamental_div_mod(k, h);
        vstd::arithmetic::div_mod::lemma_mod_pos_bound(k, h);
        vstd::arithmetic::div_mod::lemma_multiply_divide_lt(k, h, WIDTH as int);
        let x = k / h;
        let y = k % h;
        assert(cell_index(x, y) == k);
        assert(in_bounds(x, y));
        assert(next_gen(g)[k] == next_alive(g, x, y));
        assert(next_alive(g, x, y) == g[k]);
    };
    assert(next_gen(g) =~= g);
}

/// Law: one update turns a column blinker centered at (cx, cy), away from
/// the edges, into a row blinker with the same center.
pub proof fn lemma_blinker_col_to_row(g: Seq<bool>, cx: int, cy: int)
    requires
        blinker_col_pattern(g, cx, cy),
        1 <= cx <= WIDTH as int - 2,
        1 <= cy <= HEIGHT as int - 2,
    ensures
        blinker_row_pattern(next_gen(g), cx, cy),
{
    assert(grid_wf(next_gen(g)));
    assert forall|x: int, y: int| in_bounds(x, y) implies (#[trigger] cell_at(next_gen(g), x, y)
        <==> (y == cy && cx - 1 <= x <= cx + 1)) by {
        crate::grid::lemma_next_gen_cell(g, x, y);
        assert(next_alive(g, x, y) <==> (y == cy && cx - 1 <= x <= cx + 1));
    };
}

/// Law: one update turns a row blinker centered at (cx, cy), away from the
/// edges, into a column blinker with the same center.
pub proof fn lemma_blinker_row_to_col(g: Seq<bool>, cx: int, cy: int)
    requires
        blinker_row_pattern(g, cx, cy),
        1 <= cx <= WIDTH as int - 2,
        1 <= cy <= HEIGHT as int - 2,
    ensures
        blinker_col_pattern(next_gen(g), cx, cy),
{
    assert(grid_wf(next_gen(g)));
    assert forall|x: int, y: int| in_bounds(x, y) implies (#[trigger] cell_at(next_gen(g), x, y)
        <==> (x == cx && cy - 1 <= y <= cy + 1)) by {
        crate::grid::lemma_next_gen_cell(g, x, y);
        assert(next_alive(g, x, y) <==> (x == cx && cy - 1 <= y <= cy + 1));
    };
}

/// Law: two grids that both hold exactly the column blinker centered at
/// (cx, cy) are equal.
proof fn lemma_blinker_col_unique(g1: Seq<bool>, g2: Seq<bool>, cx: int, cy: int)
    requires
        blinker_col_pattern(g1, cx, cy),
        blinker_col_pattern(g2, cx, cy),
    ensures
        g1 == g2,
{
    assert forall|k: int| 0 <= k < g1.len() implies g1[k] == g2[k] by {
        let h = HEIGHT as int;
        vstd::arithmetic::div_mod::lemma_fundamental_div_mod(k, h);
        vstd::arithmetic::div_mod::lemma_mod_pos_bound(k, h);
        vstd::arithmetic::div_mod::lemma_multiply_divide_lt(k, h, WIDTH as int);
        let x = k / h;
        let y = k % h;
        assert(cell_index(x, y) == k);
        assert(in_bounds(x, y));
        assert(cell_at(g1, x, y) == g1[k]);
        assert(cell_at(g2, x, y) == g2[k]);
    };
    assert(g1 =~= g2);
}

/// Law: a column blinker centered at (cx, cy), away from the edges, becomes
/// a row blinker after one update and returns to itself after two (period 2).
pub proof fn lemma_blinker_period_two(g: Seq<bool>, cx: int, cy: int)
    requires
        blinker_col_pattern(g, cx, cy),
        1 <= cx <= WIDTH as int - 2,
        1 <= cy <= HEIGHT as int - 2,
    ensures
        blinker_row_pattern(next_gen(g), cx, cy),
        next_gen(next_gen(g)) == g,
{
    lemma_blinker_col_to_row(g, cx, cy);
    lemma_blinker_row_to_col(next_gen(g), cx, cy);
    lemma_blinker_col_unique(next_gen(next_gen(g)), g, cx, cy);
}

} // verus!
