use vstd::prelude::*;

use crate::coord;
use crate::coord::{cell_of, column_of, region_of, row_of};

verus! {

/// A point in the board's pixel frame, with the origin at the board's
/// top-left corner.
#[derive(Clone, Copy, Debug, PartialEq, Eq, Structural)]
pub struct Point {
    pub x: i64,
    pub y: i64,
}

/// An axis-aligned rectangle: its top-left corner, width and height. It
/// holds the points `x <= px < x + w`, `y <= py < y + h`: closed on the low
/// edges, open on the high ones.
#[derive(Clone, Copy, Debug, PartialEq, Eq, Structural)]
pub struct Rect {
    pub x: i64,
    pub y: i64,
    pub w: i64,
    pub h: i64,
}

/// The sizes of one `#`-shaped grid: three blocks per side with two lines
/// between them. `total_size` is `3 * block_size + 2 * line_width`, and
/// `inner_padding` is the margin kept inside each block.
#[derive(Clone, Copy, Debug, PartialEq, Eq, Structural)]
pub struct HashtagMeasure {
    pub block_size: u32,
    pub line_width: u32,
    pub total_size: u32,
    pub inner_padding: u32,
}

/// The layout of the board: the outer grid of sub-boards, and the inner grid
/// of cells drawn inside each padded block of the outer one.
#[derive(Clone, Copy, Debug, PartialEq, Eq, Structural)]
pub struct Measure {
    pub inner: HashtagMeasure,
    pub outer: HashtagMeasure,
}

/// What a point on the screen designates.
#[derive(Clone, Copy, Debug, PartialEq, Eq, Structural)]
pub enum MousePosition {
    /// A cell of an undecided sub-board.
    Local(coord::Global),
    /// A sub-board, but none of its cells: the point is on its grid lines or
    /// in its padding.
    Region(coord::Local),
    /// The board, but none of its sub-boards: the point is on the outer
    /// grid lines.
    BigHashtag,
    /// Not the board.
    Outside,
}

/// `(px, py)` lies in the `w` by `h` rectangle whose top-left corner is
/// `(x, y)`, low edges included and high edges excluded.
pub open spec fn in_rect(px: int, py: int, x: int, y: int, w: int, h: int) -> bool {
    x <= px < x + w && y <= py < y + h
}

/// The distance from one block of a grid to the next.
pub open spec fn step_of(m: HashtagMeasure) -> int {
    m.block_size + m.line_width
}

/// `(px, py)` lies in block `i` (indexed `3 * y + x`) of grid `m` placed with
/// its top-left corner at `(ox, oy)`.
pub open spec fn in_block(m: HashtagMeasure, i: nat, ox: int, oy: int, px: int, py: int) -> bool {
    in_rect(
        px,
        py,
        ox + column_of(i) * step_of(m),
        oy + row_of(i) * step_of(m),
        m.block_size as int,
        m.block_size as int,
    )
}

/// The first block, in row-major order from block `i` on, of grid `m`
/// placed at `(ox, oy)` that holds `(px, py)`.
pub open spec fn first_block(
    m: HashtagMeasure,
    ox: int,
    oy: int,
    px: int,
    py: int,
    i: nat,
) -> Option<nat>
    decreases 9 - i,
{
    if i >= 9 {
        None
    } else if in_block(m, i, ox, oy, px, py) {
        Some(i)
    } else {
        first_block(m, ox, oy, px, py, i + 1)
    }
}

/// The x offset of the padded inside of outer block `r`.
pub open spec fn padded_x(m: HashtagMeasure, r: nat) -> int {
    column_of(r) * step_of(m) + m.inner_padding
}

/// The y offset of the padded inside of outer block `r`.
pub open spec fn padded_y(m: HashtagMeasure, r: nat) -> int {
    row_of(r) * step_of(m) + m.inner_padding
}

/// The sub-board whose block holds `p`, if any.
pub open spec fn region_hit(ms: Measure, p: Point) -> Option<nat> {
    first_block(ms.outer, 0, 0, p.x as int, p.y as int, 0)
}

/// The cell of sub-board `r` whose block holds `p`, if any.
pub open spec fn cell_hit(ms: Measure, r: nat, p: Point) -> Option<nat> {
    first_block(ms.inner, padded_x(ms.outer, r), padded_y(ms.outer, r), p.x as int, p.y as int, 0)
}

/// `p` lies in the square of the whole board.
pub open spec fn on_board(ms: Measure, p: Point) -> bool {
    in_rect(
        p.x as int,
        p.y as int,
        0,
        0,
        ms.outer.total_size as int,
        ms.outer.total_size as int,
    )
}

impl Rect {
    /// The rectangle with top-left corner `(x, y)`, width `w` and height `h`.
    pub fn new(x: i64, y: i64, w: i64, h: i64) -> (r: Rect)
        ensures
            r == (Rect { x, y, w, h }),
    {
        Rect { x, y, w, h }
    }

    /// The rectangle holds `p`.
    pub open spec fn holds(self, p: Point) -> bool {
        in_rect(p.x as int, p.y as int, self.x as int, self.y as int, self.w as int, self.h as int)
    }

    /// Whether the rectangle holds `p`, low edges included, high edges
    /// excluded.
    pub fn contains(&self, p: Point) -> (r: bool)
        ensures
            r == self.holds(p),
    {
        let px = p.x as i128;
        let py = p.y as i128;
        let x = self.x as i128;
        let y = self.y as i128;
        x <= px && px < x + self.w as i128 && y <= py && py < y + self.h as i128
    }

    /// Moves the rectangle by `offset`.
    pub fn translate(&mut self, offset: Point)
        requires
            i64::MIN <= old(self).x + offset.x <= i64::MAX,
            i64::MIN <= old(self).y + offset.y <= i64::MAX,
        ensures
            *final(self) == (Rect {
                x: (old(self).x + offset.x) as i64,
                y: (old(self).y + offset.y) as i64,
                ..*old(self)
            }),
    {
        self.x = self.x + offset.x;
        self.y = self.y + offset.y;
    }
}

impl HashtagMeasure {
    /// The sizes hold together: `total_size` is three blocks and two lines.
    pub open spec fn wf(self) -> bool {
        self.total_size == 3 * self.block_size + 2 * self.line_width
    }

    /// The grid of three `block_size` blocks per side with `line_width`
    /// lines between them and `inner_padding` kept inside each block.
    pub fn new(block_size: u32, line_width: u32, inner_padding: u32) -> (r: HashtagMeasure)
        requires
            3 * block_size + 2 * line_width <= u32::MAX,
        ensures
            r.wf(),
            r.block_size == block_size,
            r.line_width == line_width,
            r.inner_padding == inner_padding,
    {
        let total_size = 3 * block_size + 2 * line_width;
        HashtagMeasure { block_size, line_width, total_size, inner_padding }
    }

    fn step(&self) -> (r: i64)
        ensures
            r == step_of(*self),
            0 <= r <= 2 * u32::MAX,
    {
        self.block_size as i64 + self.line_width as i64
    }

    /// The block at `coord`.
    pub fn get_cell_rect(&self, coord: coord::Local) -> (r: Rect)
        ensures
            r.x == column_of(coord@) * step_of(*self),
            r.y == row_of(coord@) * step_of(*self),
            r.w == self.block_size,
            r.h == self.block_size,
            0 <= r.x <= 4 * u32::MAX,
            0 <= r.y <= 4 * u32::MAX,
    {
        let step_size = self.step();
        let x = coord.get_x() as i64;
        let y = coord.get_y() as i64;
        proof {
            assert(0 <= x * step_size <= 2 * (2 * u32::MAX)) by (nonlinear_arith)
                requires
                    0 <= x <= 2,
                    0 <= step_size <= 2 * u32::MAX,
            ;
            assert(0 <= y * step_size <= 2 * (2 * u32::MAX)) by (nonlinear_arith)
                requires
                    0 <= y <= 2,
                    0 <= step_size <= 2 * u32::MAX,
            ;
        }
        Rect::new(x * step_size, y * step_size, self.block_size as i64, self.block_size as i64)
    }

    /// The top-left corner of the block at `coord`.
    pub fn get_offset(&self, coord: coord::Local) -> (r: Point)
        ensures
            r.x == column_of(coord@) * step_of(*self),
            r.y == row_of(coord@) * step_of(*self),
            0 <= r.x <= 4 * u32::MAX,
            0 <= r.y <= 4 * u32::MAX,
    {
        let rect = self.get_cell_rect(coord);
        Point { x: rect.x, y: rect.y }
    }

    /// The top-left corner of the padded inside of the block at `coord`.
    pub fn get_offset_with_padding(&self, coord: coord::Local) -> (r: Point)
        ensures
            r.x == padded_x(*self, coord@),
            r.y == padded_y(*self, coord@),
            0 <= r.x <= 5 * u32::MAX,
            0 <= r.y <= 5 * u32::MAX,
    {
        let offset = self.get_offset(coord);
        Point {
            x: offset.x + self.inner_padding as i64,
            y: offset.y + self.inner_padding as i64,
        }
    }

    /// The side of a block once the padding is taken off both sides.
    pub fn get_block_size_without_padding(&self) -> (r: i64)
        ensures
            r == self.block_size - 2 * self.inner_padding,
    {
        self.block_size as i64 - 2 * self.inner_padding as i64
    }
}

impl Measure {
    /// The layout built from the inner grid's sizes: each block of the outer
    /// grid holds one inner grid with `big_padding` around it.
    pub fn from_inner_measures(
        small_block: u32,
        small_line: u32,
        small_padding: u32,
        big_line: u32,
        big_padding: u32,
    ) -> (r: Measure)
        requires
            3 * (3 * small_block + 2 * small_line + 2 * big_padding) + 2 * big_line <= u32::MAX,
        ensures
            r.inner.wf(),
            r.inner.block_size == small_block,
            r.inner.line_width == small_line,
            r.inner.inner_padding == small_padding,
            r.outer.wf(),
            r.outer.block_size == r.inner.total_size + 2 * big_padding,
            r.outer.line_width == big_line,
            r.outer.inner_padding == big_padding,
    {
        let inner = HashtagMeasure::new(small_block, small_line, small_padding);
        let outer = HashtagMeasure::new(inner.total_size + 2 * big_padding, big_line, big_padding);
        Measure { inner, outer }
    }

    /// What the point `pos` designates. Outside the board's square it is
    /// `Outside`. Otherwise the outer blocks are searched in row-major order:
    /// if none holds `pos` it is on the outer grid lines (`BigHashtag`); if
    /// block `r` does, the cells of the inner grid drawn in `r`'s padded
    /// inside are searched the same way, giving the cell found
    /// (`Local`) or, if none, the sub-board alone (`Region`).
    pub fn resolve_mouse_position(&self, pos: Point) -> (r: MousePosition)
        ensures
            !on_board(*self, pos) ==> r == MousePosition::Outside,
            on_board(*self, pos) && region_hit(*self, pos) is None ==> r
                == MousePosition::BigHashtag,
            on_board(*self, pos) && region_hit(*self, pos) is Some ==> match r {
                MousePosition::Region(region) => {
                    &&& region_hit(*self, pos) == Some(region@)
                    &&& cell_hit(*self, region@, pos) is None
                },
                MousePosition::Local(g) => {
                    &&& region_hit(*self, pos) == Some(region_of(g@))
                    &&& cell_hit(*self, region_of(g@), pos) == Some(cell_of(g@))
                },
                _ => false,
            },
    {
        let size = self.outer.total_size as i64;
        let square = Rect::new(0, 0, size, size);
        if !square.contains(pos) {
            return MousePosition::Outside;
        }
        let grid = coord::Local::iter();
        let mut i: usize = 0;
        while i < 9
            invariant
                i <= 9,
                on_board(*self, pos),
                coord::is_row_major(grid@),
                region_hit(*self, pos) == first_block(
                    self.outer,
                    0,
                    0,
                    pos.x as int,
                    pos.y as int,
                    i as nat,
                ),
            decreases 9 - i,
        {
            let region = grid[i];
            if self.outer.get_cell_rect(region).contains(pos) {
                let offset = self.outer.get_offset_with_padding(region);
                let mut j: usize = 0;
                while j < 9
                    invariant
                        i < 9,
                        j <= 9,
                        on_board(*self, pos),
                        coord::is_row_major(grid@),
                        region == grid@[i as int],
                        region_hit(*self, pos) == Some(region@),
                        offset.x == padded_x(self.outer, region@),
                        offset.y == padded_y(self.outer, region@),
                        0 <= offset.x <= 5 * u32::MAX,
                        0 <= offset.y <= 5 * u32::MAX,
                        cell_hit(*self, region@, pos) == first_block(
                            self.inner,
                            offset.x as int,
                            offset.y as int,
                            pos.x as int,
                            pos.y as int,
                            j as nat,
                        ),
                    decreases 9 - j,
                {
                    let local = grid[j];
                    let mut rect = self.inner.get_cell_rect(local);
                    rect.translate(offset);
                    if rect.contains(pos) {
                        proof {
                            coord::lemma_global_round_trip(region@, local@);
                        }
                        return MousePosition::Local(coord::Global::new(region, local));
                    }
                    j = j + 1;
                }
                return MousePosition::Region(region);
            }
            i = i + 1;
        }
        MousePosition::BigHashtag
    }
}

impl Default for Measure {
    /// Cells of 50 with lines of 5 and a padding of 5; sub-boards padded by
    /// 10 and separated by lines of 10.
    fn default() -> (r: Measure)
        ensures
            r.inner == (HashtagMeasure {
                block_size: 50,
                line_width: 5,
                total_size: 160,
                inner_padding: 5,
            }),
            r.outer == (HashtagMeasure {
                block_size: 180,
                line_width: 10,
                total_size: 560,
                inner_padding: 10,
            }),
    {
        Measure::from_inner_measures(50, 5, 5, 10, 10)
    }
}

/// A multiple of `s` by a block column or row, spelled out.
proof fn lemma_small_multiple(k: nat, s: int)
    requires
        k < 3,
    ensures
        k * s == if k == 0 {
            0
        } else if k == 1 {
            s
        } else {
            2 * s
        },
{
    if k == 2 {
        assert(2 * s == s + s);
    }
}

/// Two different blocks of a grid never hold the same point: blocks are no
/// wider than the step between them.
proof fn lemma_blocks_disjoint(m: HashtagMeasure, i: nat, j: nat, ox: int, oy: int, px: int, py: int)
    requires
        i < 9,
        j < 9,
        i != j,
        in_block(m, i, ox, oy, px, py),
    ensures
        !in_block(m, j, ox, oy, px, py),
{
    let s = step_of(m);
    lemma_small_multiple(column_of(i), s);
    lemma_small_multiple(column_of(j), s);
    lemma_small_multiple(row_of(i), s);
    lemma_small_multiple(row_of(j), s);
    assert(column_of(i) != column_of(j) || row_of(i) != row_of(j));
}

/// The scan from block `j` on finds block `i` when no block before `i`
/// holds the point and `i` does.
proof fn lemma_scan_finds(m: HashtagMeasure, ox: int, oy: int, px: int, py: int, j: nat, i: nat)
    requires
        j <= i < 9,
        in_block(m, i, ox, oy, px, py),
    ensures
        first_block(m, ox, oy, px, py, j) == Some(i),
    decreases i - j,
{
    if j < i {
        lemma_blocks_disjoint(m, i, j, ox, oy, px, py);
        lemma_scan_finds(m, ox, oy, px, py, j + 1, i);
    }
}

/// A point in the board's square that lies in the block of sub-board `r`
/// and in the block of its cell `c` designates that cell, whatever the order
/// of the search: blocks do not overlap.
pub proof fn lemma_point_in_cell_resolves(ms: Measure, p: Point, r: nat, c: nat)
    requires
        r < 9,
        c < 9,
        in_block(ms.outer, r, 0, 0, p.x as int, p.y as int),
        in_block(ms.inner, c, padded_x(ms.outer, r), padded_y(ms.outer, r), p.x as int, p.y as int),
    ensures
        region_hit(ms, p) == Some(r),
        cell_hit(ms, r, p) == Some(c),
{
    lemma_scan_finds(ms.outer, 0, 0, p.x as int, p.y as int, 0, r);
    lemma_scan_finds(
        ms.inner,
        padded_x(ms.outer, r),
        padded_y(ms.outer, r),
        p.x as int,
        p.y as int,
        0,
        c,
    );
}

} // verus!
