use vstd::prelude::*;

use crate::clamp;
use crate::notebuf::NoteBuf;
use crate::scale::{
    scale_degree_at, scale_len, scale_note_count, scale_octave_note_count, spec_degree,
    spec_octave_len, Degree, ScaleKind, ScaleSpec,
};
use crate::INITIAL_STEPS;
use crate::MAX_STEPS;

verus! {

/// Width of the physical viewport, in columns.
pub const VIEW_COLS: usize = 16;

/// Height of the physical viewport's musical part, in rows.
pub const VIEW_ROWS: usize = 7;

/// `v` restricted to `[lo, hi]`.
pub open spec fn spec_clamp(v: int, lo: int, hi: int) -> int {
    if v < lo {
        lo
    } else if v > hi {
        hi
    } else {
        v
    }
}

/// The column's note after a tick at logical column `x`, logical row `y`:
/// a note at the same row is cleared, anything else becomes a note at `y`.
pub open spec fn spec_tick(s: Seq<Option<u8>>, x: int, y: u8) -> Seq<Option<u8>> {
    if s[x] == Some(y) {
        s.update(x, None)
    } else {
        s.update(x, Some(y))
    }
}

/// Baseline brightness of a viewport row from its degree classification:
/// tonic rows brightest, dominant rows medium, leading-tone rows dim,
/// others off.
pub open spec fn spec_baseline(d: Option<Degree>) -> u8 {
    match d {
        Some(Degree::Tonic) => 10,
        Some(Degree::Dominant) => 6,
        Some(Degree::Leading) => 4,
        _ => 0,
    }
}

/// Owns the logical sequence grid and projects the fixed physical viewport
/// onto it. The grid is a vector with the logical row of the note each
/// column holds, or nothing for an empty column; each column holds at most
/// one note. (0, 0) is the top left; rows are indexed from the top, so
/// logical row `r` stands for scale table entry `height - 1 - r`.
pub struct VirtualGrid {
    pub width: usize,
    pub height: usize,
    pub offset_x: usize,
    pub offset_y: usize,
    pub scale: ScaleSpec,
    pub octave_len: usize,
    pub grid: NoteBuf,
}

impl VirtualGrid {
    /// The viewport always lies within the logical grid, the grid's width
    /// is a whole number of bars within the step bound, and the height
    /// mirrors the scale table.
    pub open spec fn wf(&self) -> bool {
        &&& VIEW_COLS <= self.width <= MAX_STEPS
        &&& self.width % 16 == 0
        &&& self.grid@.len() == self.width
        &&& self.height == scale_len(self.scale.root, self.scale.kind)
        &&& self.octave_len == spec_octave_len(self.scale.kind)
        &&& 3 * self.octave_len + 7 <= self.height <= 127
        &&& self.offset_x + VIEW_COLS <= self.width
        &&& self.offset_y + VIEW_ROWS <= self.height
    }

    /// A grid over the B minor pentatonic scale, one viewport high above
    /// the bottom three octaves, with no note anywhere.
    pub fn new() -> (r: VirtualGrid)
        ensures
            r.wf(),
            r.width == INITIAL_STEPS,
            r.offset_x == 0,
            r.scale == (ScaleSpec { root: 11, kind: ScaleKind::MinorPentatonic }),
            r.offset_y == r.height - (3 * r.octave_len + 7),
            r.grid@ == Seq::new(INITIAL_STEPS as nat, |i: int| None::<u8>),
    {
        let scale = ScaleSpec { root: 11, kind: ScaleKind::MinorPentatonic };
        let note_count = scale_note_count(scale.root, scale.kind);
        let octave_len = scale_octave_note_count(scale.root, scale.kind);
        let start_offset = note_count - octave_len * 3 - 7;
        VirtualGrid {
            width: INITIAL_STEPS,
            height: note_count,
            offset_x: 0,
            offset_y: start_offset,
            scale,
            octave_len,
            grid: NoteBuf::new(INITIAL_STEPS),
        }
    }

    pub fn steps_count(&self) -> (r: usize)
        ensures
            r == self.width,
    {
        self.width
    }

    /// Grow or shrink the grid to `count` steps: kept columns are
    /// unchanged, new columns are empty, columns beyond `count` are
    /// dropped, and the horizontal offset is clamped back into the new
    /// bound.
    pub fn change_steps_count(&mut self, count: usize)
        requires
            old(self).wf(),
            count % 16 == 0,
            VIEW_COLS <= count <= MAX_STEPS,
        ensures
            final(self).wf(),
            final(self).width == count,
            final(self).offset_x == spec_clamp(
                old(self).offset_x as int,
                0,
                count - VIEW_COLS,
            ),
            final(self).offset_y == old(self).offset_y,
            final(self).scale == old(self).scale,
            final(self).height == old(self).height,
            final(self).octave_len == old(self).octave_len,
            final(self).grid@.len() == count,
            forall|i: int|
                0 <= i < count ==> final(self).grid@[i] == if i < old(self).grid@.len() {
                    old(self).grid@[i]
                } else {
                    None::<u8>
                },
    {
        self.width = count;
        self.offset_x = clamp(self.offset_x as isize, 0, (self.width - VIEW_COLS) as isize)
            as usize;
        self.grid.resize(count);
    }

    /// Pan the viewport by (x, y), clamped so it stays on the grid; the
    /// grid itself never changes.
    pub fn mouve(&mut self, x: isize, y: isize)
        requires
            old(self).wf(),
        ensures
            final(self).wf(),
            final(self).offset_x == spec_clamp(
                old(self).offset_x + x,
                0,
                old(self).width - VIEW_COLS,
            ),
            final(self).offset_y == spec_clamp(
                old(self).offset_y + y,
                0,
                old(self).height - VIEW_ROWS,
            ),
            final(self).width == old(self).width,
            final(self).height == old(self).height,
            final(self).scale == old(self).scale,
            final(self).octave_len == old(self).octave_len,
            final(self).grid@ == old(self).grid@,
    {
        let nx: i128 = self.offset_x as i128 + x as i128;
        let hix: i128 = (self.width - VIEW_COLS) as i128;
        self.offset_x = if nx < 0 {
            0
        } else if nx > hix {
            self.width - VIEW_COLS
        } else {
            nx as usize
        };
        let ny: i128 = self.offset_y as i128 + y as i128;
        let hiy: i128 = (self.height - VIEW_ROWS) as i128;
        self.offset_y = if ny < 0 {
            0
        } else if ny > hiy {
            self.height - VIEW_ROWS
        } else {
            ny as usize
        };
    }

    /// Translate viewport coordinates to logical grid coordinates.
    pub fn vaddress(&self, vx: usize, vy: usize) -> (r: (usize, usize))
        requires
            self.wf(),
            vx + self.offset_x < self.width,
            vy + self.offset_y < self.height,
        ensures
            r.0 == vx + self.offset_x,
            r.1 == vy + self.offset_y,
    {
        (vx + self.offset_x, vy + self.offset_y)
    }

    /// The octave band the viewport is centered on, between 0 and 8.
    pub open spec fn spec_current_octave(&self) -> int {
        spec_clamp((self.height - (self.offset_y + 7)) / self.octave_len as int, 0, 8)
    }

    pub fn current_octave(&self) -> (r: usize)
        requires
            self.wf(),
        ensures
            r == self.spec_current_octave(),
            r <= 8,
    {
        clamp(((self.height - (self.offset_y + 7)) / self.octave_len) as isize, 0, 8) as usize
    }

    /// Whether logical coordinates fall inside the viewport.
    pub fn in_view(&self, x: usize, y: usize) -> (r: bool)
        requires
            self.wf(),
        ensures
            r == (self.offset_y <= y < self.offset_y + VIEW_ROWS && self.offset_x <= x
                < self.offset_x + VIEW_COLS),
    {
        y >= self.offset_y && y < self.offset_y + VIEW_ROWS && x >= self.offset_x && x
            < self.offset_x + VIEW_COLS
    }

    /// Whether a logical column falls inside the viewport.
    pub fn x_in_view(&self, x: usize) -> (r: bool)
        requires
            self.wf(),
        ensures
            r == (self.offset_x <= x < self.offset_x + VIEW_COLS),
    {
        x >= self.offset_x && x < self.offset_x + VIEW_COLS
    }

    /// Toggle or move the note of the logical column under viewport cell
    /// (vx, vy), keeping each column monophonic.
    pub fn tick(&mut self, vx: usize, vy: usize)
        requires
            old(self).wf(),
            vx < VIEW_COLS,
            vy < VIEW_ROWS,
        ensures
            final(self).wf(),
            final(self).grid@ == spec_tick(
                old(self).grid@,
                old(self).offset_x + vx,
                (old(self).offset_y + vy) as u8,
            ),
            final(self).width == old(self).width,
            final(self).height == old(self).height,
            final(self).offset_x == old(self).offset_x,
            final(self).offset_y == old(self).offset_y,
            final(self).scale == old(self).scale,
            final(self).octave_len == old(self).octave_len,
    {
        let (x, y) = self.vaddress(vx, vy);
        let row = y as u8;
        match self.grid.get(x) {
            Some(r) => {
                if r == row {
                    self.grid.set(x, None);
                } else {
                    self.grid.set(x, Some(row));
                }
            },
            None => {
                self.grid.set(x, Some(row));
            },
        }
    }

    /// What viewport cell (i, j) shows: a cell over the column's note is
    /// at maximum brightness, any other cell shows the baseline brightness
    /// of its row's degree classification. Rows are flipped so that lower
    /// notes are at the bottom.
    pub open spec fn spec_viewport_cell(&self, i: int, j: int) -> u8 {
        if self.grid@[self.offset_x + j] == Some((self.offset_y + i) as u8) {
            15
        } else {
            spec_baseline(
                spec_degree(self.scale.kind, self.height - 1 - (self.offset_y + i)),
            )
        }
    }

    /// Fill the 16-column, 7-row brightness buffer with the viewport's
    /// projection of the grid.
    pub fn viewport(&self, buffer: &mut Vec<u8>)
        requires
            self.wf(),
            old(buffer)@.len() == VIEW_ROWS * VIEW_COLS,
        ensures
            final(buffer)@.len() == VIEW_ROWS * VIEW_COLS,
            forall|i: int, j: int|
                0 <= i < VIEW_ROWS && 0 <= j < VIEW_COLS ==> final(buffer)@[i * VIEW_COLS + j]
                    == self.spec_viewport_cell(i, j),
    {
        let mut i: usize = 0;
        while i < VIEW_ROWS
            invariant
                self.wf(),
                buffer@.len() == VIEW_ROWS * VIEW_COLS,
                i <= VIEW_ROWS,
                forall|a: int, b: int|
                    0 <= a < i && 0 <= b < VIEW_COLS ==> buffer@[a * VIEW_COLS + b]
                        == self.spec_viewport_cell(a, b),
            decreases VIEW_ROWS - i,
        {
            let degree_idx = self.height - 1 - (self.offset_y + i);
            let base = match scale_degree_at(self.scale.root, self.scale.kind, degree_idx) {
                Some(Degree::Tonic) => 10,
                Some(Degree::Dominant) => 6,
                Some(Degree::Leading) => 4,
                _ => 0,
            };
            let row = (self.offset_y + i) as u8;
            let mut j: usize = 0;
            while j < VIEW_COLS
                invariant
                    self.wf(),
                    buffer@.len() == VIEW_ROWS * VIEW_COLS,
                    i < VIEW_ROWS,
                    j <= VIEW_COLS,
                    row == (self.offset_y + i) as u8,
                    base == spec_baseline(
                        spec_degree(self.scale.kind, self.height - 1 - (self.offset_y + i)),
                    ),
                    forall|a: int, b: int|
                        0 <= a < i && 0 <= b < VIEW_COLS ==> buffer@[a * VIEW_COLS + b]
                            == self.spec_viewport_cell(a, b),
                    forall|b: int|
                        0 <= b < j ==> buffer@[i * VIEW_COLS + b] == self.spec_viewport_cell(
                            i as int,
                            b,
                        ),
                decreases VIEW_COLS - j,
            {
                let local_idx = i * VIEW_COLS + j;
                let active = match self.grid.get(self.offset_x + j) {
                    Some(r) => r == row,
                    None => false,
                };
                buffer[local_idx] = if active {
                    15
                } else {
                    base
                };
                j = j + 1;
            }
            i = i + 1;
        }
    }
}

/// Ticking a column at one row and then at another leaves exactly one
/// note in that column, at the second row; no other column changes.
pub proof fn lemma_tick_monophony(s: Seq<Option<u8>>, x: int, y1: u8, y2: u8)
    requires
        0 <= x < s.len(),
        y1 != y2,
    ensures
        spec_tick(spec_tick(s, x, y1), x, y2)[x] == Some(y2),
        forall|j: int|
            0 <= j < s.len() && j != x ==> spec_tick(spec_tick(s, x, y1), x, y2)[j] == s[j],
{
}

/// Ticking the same cell twice returns the column to empty, provided the
/// column did not already hold that very note.
pub proof fn lemma_tick_toggle(s: Seq<Option<u8>>, x: int, y: u8)
    requires
        0 <= x < s.len(),
        s[x] != Some(y),
    ensures
        spec_tick(spec_tick(s, x, y), x, y)[x] is None,
        forall|j: int|
            0 <= j < s.len() && j != x ==> spec_tick(spec_tick(s, x, y), x, y)[j] == s[j],
{
}

/// One pan step keeps the horizontal offset within its bound, however
/// large the request.
pub proof fn lemma_pan_clamps(off: int, delta: int, width: int)
    requires
        VIEW_COLS <= width,
        0 <= off <= width - VIEW_COLS,
    ensures
        0 <= spec_clamp(off + delta, 0, width - VIEW_COLS) <= width - VIEW_COLS,
{
}

/// The horizontal offset after a sequence of pan requests, applied oldest
/// first, each clamped as `mouve` clamps it.
pub open spec fn spec_pan_fold(off: int, deltas: Seq<int>, width: int) -> int
    decreases deltas.len(),
{
    if deltas.len() == 0 {
        off
    } else {
        spec_pan_fold(
            spec_clamp(off + deltas[0], 0, width - VIEW_COLS),
            deltas.subrange(1, deltas.len() as int),
            width,
        )
    }
}

/// Panning repeatedly, by any amounts in any order, never drives the
/// horizontal offset below zero or past the width less one viewport.
pub proof fn lemma_pan_repeatedly_clamps(off: int, deltas: Seq<int>, width: int)
    requires
        VIEW_COLS <= width,
        0 <= off <= width - VIEW_COLS,
    ensures
        0 <= spec_pan_fold(off, deltas, width) <= width - VIEW_COLS,
    decreases deltas.len(),
{
    if deltas.len() > 0 {
        lemma_pan_repeatedly_clamps(
            spec_clamp(off + deltas[0], 0, width - VIEW_COLS),
            deltas.subrange(1, deltas.len() as int),
            width,
        );
    }
}

} // verus!
