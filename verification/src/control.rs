use vstd::prelude::*;

use crate::clock::{clock_consumer_clone, clock_raw_frames};
use crate::grid::{spec_clamp, spec_tick, VirtualGrid, VIEW_COLS, VIEW_ROWS};
use crate::message::{Message, MessageQueue};
use crate::render::{MMMSRenderer, Port, MAX_BPM, MAX_RATE};
use crate::scale::{ScaleKind, ScaleSpec};
use crate::tracker::{spec_down, spec_shift, spec_up_action, spec_up_buttons, GridStateTracker,
    MMMSAction};
use crate::INITIAL_STEPS;

verus! {

/// Direction of a raw grid key event.
#[derive(Clone, Copy, PartialEq, Eq, Structural, Debug)]
pub enum KeyDir {
    Down,
    Up,
}

/// Columns of the physical control row, counted from its left edge.
pub const INDICATOR_COLUMN: usize = 8;

/// The control plane: owns the button state tracker and the virtual grid,
/// turns tactile actions into grid mutations and outbound messages, and
/// assembles the outbound display buffer each redraw.
pub struct MMMS {
    pub tempo: u32,
    pub clock_rate: u32,
    pub width: usize,
    pub height: usize,
    pub audio_clock: audio_clock::ClockConsumer,
    pub state_tracker: GridStateTracker,
    pub virtual_grid: VirtualGrid,
}

/// The logical playhead column at clock value `c`: the current sixteenth,
/// wrapped around the pattern.
pub open spec fn spec_playhead(c: int, t: int, clock_rate: int, width: int) -> int {
    ((c * t) / (15 * clock_rate)) % width
}

/// What the 16 by 8 display shows at clock value `c`: a zeroed control
/// row over the viewport's projection; then, in the control row, the
/// octave indicator (or, under shift, one lit cell per bar); then the
/// playhead column raised to dim brightness across the musical rows,
/// never lowering a brighter cell, and only if the playhead is inside the
/// viewport.
pub open spec fn spec_display(m: &MMMS, c: int) -> Seq<u8> {
    let g = &m.virtual_grid;
    let base = Seq::new(
        128,
        |k: int|
            if k < 16 {
                0u8
            } else {
                g.spec_viewport_cell(k / 16 - 1, k % 16)
            },
    );
    let ind = if !spec_shift(m.state_tracker.buttons@) {
        base.update(INDICATOR_COLUMN + g.spec_current_octave(), 15u8)
    } else {
        Seq::new(
            128,
            |k: int|
                if INDICATOR_COLUMN <= k < INDICATOR_COLUMN + g.width / 16 {
                    15u8
                } else {
                    base[k]
                },
        )
    };
    let pos = spec_playhead(c, m.tempo as int, m.clock_rate as int, g.width as int);
    if g.offset_x <= pos < g.offset_x + VIEW_COLS {
        Seq::new(
            128,
            |k: int|
                if 16 <= k && k % 16 == pos % 16 && ind[k] < 4 {
                    4u8
                } else {
                    ind[k]
                },
        )
    } else {
        ind
    }
}

impl MMMS {
    pub open spec fn wf(&self) -> bool {
        &&& self.state_tracker.wf()
        &&& self.state_tracker.width == 16
        &&& self.state_tracker.height == 8
        &&& self.virtual_grid.wf()
        &&& 1 <= self.tempo <= MAX_BPM
        &&& 1 <= self.clock_rate <= MAX_RATE
    }

    /// Build the control plane and the render plane it talks to. The
    /// caller supplies the two halves of the shared clock, built with the
    /// same tempo and rate, and the port assignment, whose pitch port
    /// must carry a continuous signal.
    pub fn new(
        ports: (Port, Port),
        width: usize,
        height: usize,
        tempo: u32,
        clock_rate: u32,
        clock_updater: audio_clock::ClockUpdater,
        clock_consumer: audio_clock::ClockConsumer,
    ) -> (r: (MMMS, MMMSRenderer))
        requires
            1 <= tempo <= MAX_BPM,
            1 <= clock_rate <= MAX_RATE,
            ports.1 matches Port::AnalogOut(_),
        ensures
            r.0.wf(),
            r.1.wf(),
            r.0.tempo == tempo,
            r.0.clock_rate == clock_rate,
            r.0.width == width,
            r.0.height == height,
            forall|i: int|
                0 <= i < r.0.state_tracker.buttons@.len() ==> r.0.state_tracker.buttons@[i]
                    == crate::tracker::MMMSIntent::Nothing,
            r.0.virtual_grid.width == INITIAL_STEPS,
            r.0.virtual_grid.offset_x == 0,
            r.0.virtual_grid.scale == (ScaleSpec { root: 11, kind: ScaleKind::MinorPentatonic }),
            r.0.virtual_grid.offset_y == r.0.virtual_grid.height - (3 * r.0.virtual_grid.octave_len
                + 7),
            r.0.virtual_grid.grid@ == Seq::new(INITIAL_STEPS as nat, |i: int| None::<u8>),
            r.1.steps@ == Seq::new(INITIAL_STEPS as nat, |i: int| None::<u8>),
            r.1.scale == (ScaleSpec { root: 11, kind: ScaleKind::MinorPentatonic }),
            r.1.tempo == 0,
            r.1.prev_pitch == 0,
            r.1.clock_tempo == tempo,
            r.1.clock_rate == clock_rate,
            r.1.trigger_port == ports.0,
            r.1.pitch_port == ports.1,
    {
        let (trigger_port, pitch_port) = ports;
        let display_clock = clock_consumer_clone(&clock_consumer);
        let virtual_grid = VirtualGrid::new();
        let renderer = MMMSRenderer::new(
            16,
            8,
            clock_updater,
            clock_consumer,
            tempo,
            clock_rate,
            trigger_port,
            pitch_port,
        );
        let state_tracker = GridStateTracker::new(16, 8);
        (
            MMMS {
                tempo,
                clock_rate,
                width,
                height,
                audio_clock: display_clock,
                state_tracker,
                virtual_grid,
            },
            renderer,
        )
    }

    /// Feed one raw key event through the tracker and dispatch the
    /// resolved action: a tick edits the grid locally and sends the
    /// logical coordinates to the render plane; a pan only moves the
    /// viewport; a resize reshapes the grid and tells the render plane to
    /// keep its step buffer the same length.
    pub fn input(&mut self, q: &mut MessageQueue, x: usize, y: usize, direction: KeyDir)
        requires
            old(self).wf(),
            x < 16,
            y < 8,
        ensures
            final(self).wf(),
            final(self).tempo == old(self).tempo,
            final(self).clock_rate == old(self).clock_rate,
            final(self).width == old(self).width,
            final(self).height == old(self).height,
            final(self).audio_clock == old(self).audio_clock,
            final(self).virtual_grid.scale == old(self).virtual_grid.scale,
            final(self).virtual_grid.height == old(self).virtual_grid.height,
            final(self).virtual_grid.octave_len == old(self).virtual_grid.octave_len,
            direction == KeyDir::Down ==> {
                &&& final(self).state_tracker.buttons@ == spec_down(
                    old(self).state_tracker.buttons@,
                    16,
                    x as int,
                    y as int,
                )
                &&& final(self).virtual_grid == old(self).virtual_grid
                &&& final(q)@ == old(q)@
            },
            direction == KeyDir::Up ==> {
                let a = spec_up_action(old(self).state_tracker.buttons@, 16, x as int, y as int);
                &&& final(self).state_tracker.buttons@ == spec_up_buttons(
                    old(self).state_tracker.buttons@,
                    16,
                    x as int,
                    y as int,
                )
                &&& (a matches MMMSAction::Tick(xy) ==> {
                    &&& final(self).virtual_grid.grid@ == spec_tick(
                        old(self).virtual_grid.grid@,
                        old(self).virtual_grid.offset_x + xy.0,
                        (old(self).virtual_grid.offset_y + xy.1) as u8,
                    )
                    &&& final(self).virtual_grid.width == old(self).virtual_grid.width
                    &&& final(self).virtual_grid.offset_x == old(self).virtual_grid.offset_x
                    &&& final(self).virtual_grid.offset_y == old(self).virtual_grid.offset_y
                    &&& final(q)@ == old(q)@.push(
                        Message::Tick(
                            (
                                (xy.0 + old(self).virtual_grid.offset_x) as usize,
                                (xy.1 + old(self).virtual_grid.offset_y) as usize,
                            ),
                        ),
                    )
                })
                &&& (a matches MMMSAction::Move(d) ==> {
                    &&& final(self).virtual_grid.grid@ == old(self).virtual_grid.grid@
                    &&& final(self).virtual_grid.width == old(self).virtual_grid.width
                    &&& final(self).virtual_grid.offset_x == spec_clamp(
                        old(self).virtual_grid.offset_x + d.0,
                        0,
                        old(self).virtual_grid.width - VIEW_COLS,
                    )
                    &&& final(self).virtual_grid.offset_y == spec_clamp(
                        old(self).virtual_grid.offset_y + d.1,
                        0,
                        old(self).virtual_grid.height - VIEW_ROWS,
                    )
                    &&& final(q)@ == old(q)@
                })
                &&& (a matches MMMSAction::Resize(bars) ==> {
                    &&& final(self).virtual_grid.width == bars * 16
                    &&& final(self).virtual_grid.grid@.len() == bars * 16
                    &&& forall|i: int|
                        0 <= i < bars * 16 ==> final(self).virtual_grid.grid@[i] == if i < old(
                            self,
                        ).virtual_grid.grid@.len() {
                            old(self).virtual_grid.grid@[i]
                        } else {
                            None::<u8>
                        }
                    &&& final(self).virtual_grid.offset_x == spec_clamp(
                        old(self).virtual_grid.offset_x as int,
                        0,
                        bars * 16 - VIEW_COLS,
                    )
                    &&& final(self).virtual_grid.offset_y == old(self).virtual_grid.offset_y
                    &&& final(q)@ == old(q)@.push(Message::Resize((bars * 16) as usize))
                })
                &&& (a == MMMSAction::Nothing ==> {
                    &&& final(self).virtual_grid == old(self).virtual_grid
                    &&& final(q)@ == old(q)@
                })
            },
    {
        match direction {
            KeyDir::Down => {
                self.state_tracker.down(x, y);
            },
            KeyDir::Up => {
                let action = self.state_tracker.up(x, y);
                match action {
                    MMMSAction::Tick((tx, ty)) => {
                        assert(tx == x && ty == y - 1 && y >= 1);
                        self.virtual_grid.tick(tx, ty);
                        let xy = self.virtual_grid.vaddress(tx, ty);
                        q.send(Message::Tick(xy));
                    },
                    MMMSAction::Move((dx, dy)) => {
                        self.virtual_grid.mouve(dx, dy);
                    },
                    MMMSAction::Resize(bars) => {
                        assert(bars == 1 || bars == 2 || bars == 4 || bars == 8);
                        self.virtual_grid.change_steps_count(bars * 16);
                        q.send(Message::Resize(bars * 16));
                    },
                    MMMSAction::Nothing => {},
                }
            },
        }
    }

    /// Reserved for periodic work on the control thread; nothing to do.
    pub fn main_thread_work(&mut self)
        ensures
            *final(self) == *old(self),
    {
    }

    /// Assemble the display for clock value `counter`: zero the buffer,
    /// blit the viewport under the control row, overlay the octave
    /// indicator (or the bar count under shift), then overlay the
    /// playhead column across the musical rows, raising and never
    /// lowering brightness.
    pub fn render_display_at(&self, counter: usize, fb: &mut Vec<u8>)
        requires
            self.wf(),
            old(fb)@.len() == 128,
        ensures
            final(fb)@ == spec_display(self, counter as int),
    {
        let ghost goal = spec_display(self, counter as int);
        // Zero the whole surface.
        let mut k: usize = 0;
        while k < 128
            invariant
                fb@.len() == 128,
                k <= 128,
                forall|j: int| 0 <= j < k ==> fb@[j] == 0u8,
            decreases 128 - k,
        {
            fb[k] = 0;
            k = k + 1;
        }
        // Blit the viewport under the control row.
        let mut vbuf: Vec<u8> = vec![0u8; 112];
        self.virtual_grid.viewport(&mut vbuf);
        let mut k2: usize = 0;
        while k2 < 112
            invariant
                self.wf(),
                fb@.len() == 128,
                vbuf@.len() == 112,
                k2 <= 112,
                forall|i: int, j: int|
                    0 <= i < VIEW_ROWS && 0 <= j < VIEW_COLS ==> vbuf@[i * VIEW_COLS + j]
                        == self.virtual_grid.spec_viewport_cell(i, j),
                forall|j: int| 0 <= j < 16 ==> fb@[j] == 0u8,
                forall|j: int| 0 <= j < k2 ==> fb@[16 + j] == vbuf@[j],
                forall|j: int| 16 + k2 <= j < 128 ==> fb@[j] == 0u8,
            decreases 112 - k2,
        {
            fb[16 + k2] = vbuf[k2];
            k2 = k2 + 1;
        }
        proof {
            assert forall|j: int| 0 <= j < 128 implies fb@[j] == (if j < 16 {
                0u8
            } else {
                self.virtual_grid.spec_viewport_cell(j / 16 - 1, j % 16)
            }) by {
                if j >= 16 {
                    let i = j / 16 - 1;
                    let jj = j % 16;
                    assert(j - 16 == i * VIEW_COLS + jj);
                    assert(fb@[16 + (j - 16)] == vbuf@[j - 16]);
                }
            }
        }
        let ghost base = Seq::new(
            128,
            |k: int|
                if k < 16 {
                    0u8
                } else {
                    self.virtual_grid.spec_viewport_cell(k / 16 - 1, k % 16)
                },
        );
        proof {
            assert(fb@ =~= base);
        }
        // Octave indicator, or the bar count under shift.
        if !self.state_tracker.shift_down() {
            let oct = self.virtual_grid.current_octave();
            fb[INDICATOR_COLUMN + oct] = 15;
        } else {
            let bars = self.virtual_grid.steps_count() / 16;
            let mut b: usize = 0;
            while b < bars
                invariant
                    fb@.len() == 128,
                    bars <= 8,
                    b <= bars,
                    forall|j: int|
                        0 <= j < 128 && !(INDICATOR_COLUMN <= j < INDICATOR_COLUMN + b) ==> fb@[j]
                            == base[j],
                    forall|j: int| INDICATOR_COLUMN <= j < INDICATOR_COLUMN + b ==> fb@[j] == 15u8,
                decreases bars - b,
            {
                fb[INDICATOR_COLUMN + b] = 15;
                b = b + 1;
            }
        }
        let ghost ind = if !spec_shift(self.state_tracker.buttons@) {
            base.update(INDICATOR_COLUMN + self.virtual_grid.spec_current_octave(), 15u8)
        } else {
            Seq::new(
                128,
                |k: int|
                    if INDICATOR_COLUMN <= k < INDICATOR_COLUMN + self.virtual_grid.width / 16 {
                        15u8
                    } else {
                        base[k]
                    },
            )
        };
        proof {
            assert(fb@ =~= ind);
        }
        // Playhead overlay across the musical rows.
        proof {
            assert(0 <= (counter as int) * (self.tempo as int) <= (usize::MAX as int) * (
            MAX_BPM as int)) by (nonlinear_arith)
                requires
                    0 <= counter <= usize::MAX,
                    1 <= self.tempo <= MAX_BPM,
            ;
        }
        let num: u128 = counter as u128 * self.tempo as u128;
        let den: u128 = 15u128 * self.clock_rate as u128;
        let width = self.virtual_grid.steps_count();
        let pos128: u128 = (num / den) % (width as u128);
        assert(pos128 < width);
        let pos: usize = pos128 as usize;
        assert(pos == spec_playhead(
            counter as int,
            self.tempo as int,
            self.clock_rate as int,
            self.virtual_grid.width as int,
        ));
        if self.virtual_grid.x_in_view(pos) {
            let col = pos % 16;
            let mut row: usize = 1;
            while row < 8
                invariant
                    fb@.len() == 128,
                    1 <= row <= 8,
                    col < 16,
                    forall|j: int|
                        0 <= j < 128 && !(16 <= j < row * 16 && j % 16 == col) ==> fb@[j] == ind[j],
                    forall|j: int|
                        16 <= j < row * 16 && j % 16 == col ==> fb@[j] == (if ind[j] < 4 {
                            4u8
                        } else {
                            ind[j]
                        }),
                decreases 8 - row,
            {
                let idx = row * 16 + col;
                if fb[idx] < 4 {
                    fb[idx] = 4;
                }
                row = row + 1;
            }
            proof {
                assert(fb@ =~= goal);
            }
        } else {
            proof {
                assert(fb@ =~= goal);
            }
        }
    }

    /// Redraw the display from the shared clock's current position, which
    /// is returned.
    pub fn render(&self, fb: &mut Vec<u8>) -> (c: usize)
        requires
            self.wf(),
            old(fb)@.len() == 128,
        ensures
            final(fb)@ == spec_display(self, c as int),
    {
        let counter = clock_raw_frames(&self.audio_clock);
        self.render_display_at(counter, fb);
        counter
    }
}

} // verus!
