use vstd::prelude::*;

verus! {

/// What a pressed button is remembered as until it is released.
#[derive(Clone, Copy, PartialEq, Eq, Structural, Debug)]
pub enum MMMSIntent {
    Nothing,
    Tick,
}

/// The semantic action a release resolves to.
#[derive(Clone, Copy, PartialEq, Eq, Debug)]
pub enum MMMSAction {
    Nothing,
    Tick((usize, usize)),
    Move((isize, isize)),
    Resize(usize),
}

/// Physical column of the shift modifier in the control row.
pub const SHIFT_COLUMN: usize = 15;

/// Turns raw per-cell press/release events into one semantic action per
/// release, tolerant of spurious events. Cell intents are recorded on
/// press and consumed on release; row 0 is the control row.
pub struct GridStateTracker {
    pub buttons: Vec<MMMSIntent>,
    pub width: usize,
    pub height: usize,
}

/// Cell index of physical coordinates in the row-major intent array.
pub open spec fn spec_idx(width: int, x: int, y: int) -> int {
    y * width + x
}

/// The intent array after a press at (x, y): in the control row only the
/// shift column records a tick intent; a musical row always does.
pub open spec fn spec_down(s: Seq<MMMSIntent>, width: int, x: int, y: int) -> Seq<MMMSIntent> {
    s.update(
        spec_idx(width, x, y),
        if y == 0 {
            if x == SHIFT_COLUMN {
                MMMSIntent::Tick
            } else {
                MMMSIntent::Nothing
            }
        } else {
            MMMSIntent::Tick
        },
    )
}

/// The intent array after a release at (x, y): the cell is always cleared.
pub open spec fn spec_up_buttons(s: Seq<MMMSIntent>, width: int, x: int, y: int) -> Seq<
    MMMSIntent,
> {
    s.update(spec_idx(width, x, y), MMMSIntent::Nothing)
}

/// Whether the shift modifier is held in intent array `s`.
pub open spec fn spec_shift(s: Seq<MMMSIntent>) -> bool {
    s[SHIFT_COLUMN as int] != MMMSIntent::Nothing
}

/// The action a release at (x, y) resolves to, given the intent array as it
/// stood before the release. The cell is cleared first, so a release of the
/// shift column itself sees shift as no longer held. In the control row,
/// four fixed columns pan by one viewport, or, under shift, pick a bar
/// count; in a musical row a remembered tick intent becomes a tick action
/// with the row translated to its 0-based musical row, and a stray release
/// resolves to nothing.
pub open spec fn spec_up_action(s: Seq<MMMSIntent>, width: int, x: int, y: int) -> MMMSAction {
    let cleared = spec_up_buttons(s, width, x, y);
    if y == 0 {
        if !spec_shift(cleared) {
            if x == 8 {
                MMMSAction::Move((-16isize, 0isize))
            } else if x == 9 {
                MMMSAction::Move((16isize, 0isize))
            } else if x == 10 {
                MMMSAction::Move((0isize, -1isize))
            } else if x == 11 {
                MMMSAction::Move((0isize, 1isize))
            } else {
                MMMSAction::Nothing
            }
        } else {
            if x == 8 {
                MMMSAction::Resize(1)
            } else if x == 9 {
                MMMSAction::Resize(2)
            } else if x == 10 {
                MMMSAction::Resize(4)
            } else if x == 11 {
                MMMSAction::Resize(8)
            } else {
                MMMSAction::Nothing
            }
        }
    } else {
        if s[spec_idx(width, x, y)] == MMMSIntent::Tick {
            MMMSAction::Tick((x as usize, (y - 1) as usize))
        } else {
            MMMSAction::Nothing
        }
    }
}

impl GridStateTracker {
    /// The intent array covers the physical surface, whose control row
    /// must reach the shift column.
    pub open spec fn wf(&self) -> bool {
        &&& self.buttons@.len() == self.width * self.height
        &&& self.width > SHIFT_COLUMN
        &&& self.height >= 1
    }

    pub fn new(width: usize, height: usize) -> (r: GridStateTracker)
        requires
            width > SHIFT_COLUMN,
            height >= 1,
            width * height <= usize::MAX,
        ensures
            r.wf(),
            r.width == width,
            r.height == height,
            forall|i: int| 0 <= i < r.buttons@.len() ==> r.buttons@[i] == MMMSIntent::Nothing,
    {
        proof {
            assert(width * height <= usize::MAX) by (nonlinear_arith)
                requires
                    width * height <= usize::MAX,
            ;
        }
        GridStateTracker { width, height, buttons: vec![MMMSIntent::Nothing; width * height] }
    }

    /// Cell index of physical coordinates in the row-major intent array.
    fn idx(width: usize, x: usize, y: usize) -> (r: usize)
        requires
            spec_idx(width as int, x as int, y as int) <= usize::MAX,
        ensures
            r == spec_idx(width as int, x as int, y as int),
    {
        y * width + x
    }

    /// The cell's index is below the array's length whenever the
    /// coordinates are on the surface.
    proof fn lemma_idx_in_range(&self, x: int, y: int)
        requires
            self.wf(),
            0 <= x < self.width,
            0 <= y < self.height,
        ensures
            0 <= spec_idx(self.width as int, x, y) < self.buttons@.len(),
            spec_idx(self.width as int, x, y) <= usize::MAX,
    {
        assert(y * self.width + x < self.width * self.height) by (nonlinear_arith)
            requires
                0 <= x < self.width,
                0 <= y < self.height,
        ;
        assert(self.buttons.len() == self.buttons@.len());
    }

    /// Whether the shift modifier is currently held.
    pub fn shift_down(&self) -> (r: bool)
        requires
            self.wf(),
        ensures
            r == spec_shift(self.buttons@),
    {
        proof {
            self.lemma_idx_in_range(SHIFT_COLUMN as int, 0);
        }
        self.buttons[Self::idx(self.width, SHIFT_COLUMN, 0)] != MMMSIntent::Nothing
    }

    /// Record the intent of a press at (x, y).
    pub fn down(&mut self, x: usize, y: usize)
        requires
            old(self).wf(),
            x < old(self).width,
            y < old(self).height,
        ensures
            final(self).wf(),
            final(self).width == old(self).width,
            final(self).height == old(self).height,
            final(self).buttons@ == spec_down(
                old(self).buttons@,
                old(self).width as int,
                x as int,
                y as int,
            ),
    {
        proof {
            self.lemma_idx_in_range(x as int, y as int);
        }
        let i = Self::idx(self.width, x, y);
        if y == 0 {
            if x == SHIFT_COLUMN {
                self.buttons[i] = MMMSIntent::Tick;
            } else {
                self.buttons[i] = MMMSIntent::Nothing;
            }
        } else {
            self.buttons[i] = MMMSIntent::Tick;
        }
    }

    /// Consume the intent of a release at (x, y) and resolve its action.
    pub fn up(&mut self, x: usize, y: usize) -> (r: MMMSAction)
        requires
            old(self).wf(),
            x < old(self).width,
            y < old(self).height,
        ensures
            final(self).wf(),
            final(self).width == old(self).width,
            final(self).height == old(self).height,
            final(self).buttons@ == spec_up_buttons(
                old(self).buttons@,
                old(self).width as int,
                x as int,
                y as int,
            ),
            r == spec_up_action(old(self).buttons@, old(self).width as int, x as int, y as int),
    {
        proof {
            self.lemma_idx_in_range(x as int, y as int);
        }
        let i = Self::idx(self.width, x, y);
        let prior = self.buttons[i];
        self.buttons[i] = MMMSIntent::Nothing;
        if y == 0 {
            if !self.shift_down() {
                match x {
                    8 => MMMSAction::Move((-16isize, 0isize)),
                    9 => MMMSAction::Move((16isize, 0isize)),
                    10 => MMMSAction::Move((0isize, -1isize)),
                    11 => MMMSAction::Move((0isize, 1isize)),
                    _ => MMMSAction::Nothing,
                }
            } else {
                match x {
                    8 => MMMSAction::Resize(1),
                    9 => MMMSAction::Resize(2),
                    10 => MMMSAction::Resize(4),
                    11 => MMMSAction::Resize(8),
                    _ => MMMSAction::Nothing,
                }
            }
        } else {
            match prior {
                MMMSIntent::Nothing => MMMSAction::Nothing,
                MMMSIntent::Tick => MMMSAction::Tick((x, y - 1)),
            }
        }
    }
}

/// A press on a musical row followed by its release always resolves to a
/// tick at that column and the 0-based musical row.
pub proof fn lemma_press_then_release(s: Seq<MMMSIntent>, width: int, x: int, y: int)
    requires
        s.len() >= width,
        width > SHIFT_COLUMN,
        0 <= x < width,
        0 < y,
        spec_idx(width, x, y) < s.len(),
    ensures
        spec_up_action(spec_down(s, width, x, y), width, x, y) == MMMSAction::Tick(
            (x as usize, (y - 1) as usize),
        ),
{
}

/// A release in the control row outside the four navigation columns
/// resolves to nothing, shift held or not.
pub proof fn lemma_control_row_idle_columns(s: Seq<MMMSIntent>, width: int, x: int)
    requires
        s.len() >= width,
        width > SHIFT_COLUMN,
        0 <= x < width,
        !(8 <= x <= 11),
    ensures
        spec_up_action(s, width, x, 0) == MMMSAction::Nothing,
{
}

/// A release on a musical row with no remembered press resolves to
/// nothing.
pub proof fn lemma_stray_release(s: Seq<MMMSIntent>, width: int, x: int, y: int)
    requires
        0 <= spec_idx(width, x, y) < s.len(),
        0 < y,
        s[spec_idx(width, x, y)] == MMMSIntent::Nothing,
    ensures
        spec_up_action(s, width, x, y) == MMMSAction::Nothing,
{
}

} // verus!
