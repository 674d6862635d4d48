//! Layout of the fallback ground: a square track with a grid of lines.

use vstd::prelude::*;

verus! {

/// Side length of the square track, in metres.
pub const TRACK_SIZE_M: u32 = 300;

/// Distance between neighbouring grid lines, in metres.
pub const GRID_SPACING_M: u32 = 20;

/// How many grid lines fit on each side of the centre line.
pub open spec fn half_lines(track_size: u32, spacing: u32) -> int
    recommends
        spacing > 0,
{
    (track_size / 2 / spacing) as int
}

/// The grid line indices `-h ..= h` for `h` lines on each side of the centre.
pub open spec fn grid_line_seq(track_size: u32, spacing: u32) -> Seq<i32>
    recommends
        spacing > 0,
{
    let h = half_lines(track_size, spacing);
    Seq::new((2 * h + 1) as nat, |k: int| (k - h) as i32)
}

/// Indices of the grid lines across the track, from the most negative to the
/// most positive, centre line included: line `i` lies `i * spacing` metres
/// from the centre, and lines are drawn only where they fit on the track.
pub fn grid_line_indices(track_size: u32, spacing: u32) -> (lines: Vec<i32>)
    requires
        spacing > 0,
    ensures
        lines@ == grid_line_seq(track_size, spacing),
{
    let half: u32 = track_size / 2 / spacing;
    assert(half <= 0x7fff_ffff) by (nonlinear_arith)
        requires
            half == track_size / 2 / spacing,
            spacing > 0,
    ;
    let half_i: i64 = half as i64;
    let mut lines: Vec<i32> = Vec::new();
    let mut i: i64 = -half_i;
    while i <= half_i
        invariant
            spacing > 0,
            0 <= half_i <= 0x7fff_ffff,
            -half_i <= i <= half_i + 1,
            half_i == half_lines(track_size, spacing),
            lines@.len() == i + half_i,
            forall|k: int| 0 <= k < lines@.len() ==> #[trigger] lines@[k] == k - half_i,
        decreases half_i + 1 - i,
    {
        lines.push(i as i32);
        i = i + 1;
    }
    assert(lines@ =~= grid_line_seq(track_size, spacing));
    lines
}

/// The grid is symmetric about the centre line: it holds an odd number of
/// lines, the middle one is the centre line itself, and each line has its
/// mirror image on the other side.
pub proof fn lemma_grid_symmetric(track_size: u32, spacing: u32)
    requires
        spacing > 0,
    ensures
        ({
            let g = grid_line_seq(track_size, spacing);
            let h = half_lines(track_size, spacing);
            &&& g.len() % 2 == 1
            &&& g[h] == 0
            &&& forall|k: int| 0 <= k < g.len() ==> #[trigger] g[k] == -g[g.len() - 1 - k]
        }),
{
    let h = half_lines(track_size, spacing);
    assert(h <= 0x7fff_ffff) by (nonlinear_arith)
        requires
            h == track_size / 2 / spacing,
            spacing > 0,
    ;
}

/// The grid holds one line per whole spacing that fits in half the track on
/// each side, plus the centre line: with `h = track_size / 2 / spacing`
/// lines per side, line `k` of the result has index `k - h`, running from
/// `-h` to `h` in steps of one.
pub proof fn lemma_grid_lines(track_size: u32, spacing: u32)
    requires
        spacing > 0,
    ensures
        ({
            let g = grid_line_seq(track_size, spacing);
            let h: int = (track_size / 2 / spacing) as int;
            &&& g.len() == 2 * h + 1
            &&& forall|k: int| 0 <= k < g.len() ==> #[trigger] g[k] == k - h
            &&& g[0] == -h
            &&& g[g.len() - 1] == h
        }),
{
    let h: int = (track_size / 2 / spacing) as int;
    assert(h <= 0x7fff_ffff) by (nonlinear_arith)
        requires
            h == track_size / 2 / spacing,
            spacing > 0,
    ;
}

} // verus!
