use vstd::prelude::*;

use crate::clock::{clock_increment, clock_raw_frames};
use crate::grid::VIEW_COLS;
use crate::message::{Message, MessageQueue};
use crate::notebuf::NoteBuf;
use crate::scale::{scale_len, scale_midi, scale_midi_at, scale_note_count, ScaleKind, ScaleSpec};
use crate::INITIAL_STEPS;
use crate::MAX_STEPS;

verus! {

/// Largest tempo, in beats per minute, the timing arithmetic is sized for.
pub const MAX_BPM: u32 = 10000;

/// Largest sample rate, in Hertz, the timing arithmetic is sized for.
pub const MAX_RATE: u32 = 1000000;

/// Largest number of frames per audio block the timing arithmetic is
/// sized for.
pub const MAX_BLOCK: usize = 1000000;

/// A physical output port assignment.
#[derive(Clone, Copy, PartialEq, Eq, Structural, Debug)]
pub enum Port {
    /// An analog output channel.
    AnalogOut(usize),
    /// A digital output pin.
    Digital(usize),
}

/// What the audio host supplies for one block: frame counts and sample
/// rates of the output domains.
#[derive(Clone, Copy, Debug)]
pub struct BlockInfo {
    pub audio_frames: usize,
    pub analog_frames: usize,
    pub digital_frames: usize,
    pub analog_rate: u32,
    pub digital_rate: u32,
}

impl BlockInfo {
    pub open spec fn wf(&self) -> bool {
        &&& 1 <= self.analog_rate <= MAX_RATE
        &&& 1 <= self.digital_rate <= MAX_RATE
        &&& self.audio_frames <= MAX_BLOCK
        &&& self.analog_frames <= MAX_BLOCK
        &&& self.digital_frames <= MAX_BLOCK
    }
}

/// What one render call emits: the clock value it rendered at, one
/// trigger value per frame of the trigger port's domain, and one pitch
/// value per analog frame, in 120ths of a volt.
pub struct RenderOutput {
    pub counter: usize,
    pub triggers: Vec<bool>,
    pub pitches: Vec<i16>,
}

/// Numerator of the step position at frame `i`, over the denominator
/// `pos_den(rate, clock_rate)`. A clock of `clock_rate` frames per second
/// under `t` beats per minute stands at `c * t / (60 * clock_rate)` beats
/// after `c` frames, and a beat is four steps, so the block starts at
/// `c * t / (15 * clock_rate)` steps; each frame of the output domain
/// then advances the position by that domain's period, `1 / rate`.
pub open spec fn pos_num(c: int, t: int, rate: int, clock_rate: int, i: int) -> int {
    c * t * rate + 15 * clock_rate * i
}

/// Denominator of the step position.
pub open spec fn pos_den(rate: int, clock_rate: int) -> int {
    15 * clock_rate * rate
}

/// The step the position at frame `i` falls on, wrapped around the step
/// buffer.
pub open spec fn spec_step_index(
    steps_len: int,
    c: int,
    t: int,
    rate: int,
    clock_rate: int,
    i: int,
) -> int {
    (pos_num(c, t, rate, clock_rate, i) / pos_den(rate, clock_rate)) % steps_len
}

/// Whether the fractional part of the step position at frame `i` is below
/// the pulse window of one hundredth of a step.
pub open spec fn spec_window_open(c: int, t: int, rate: int, clock_rate: int, i: int) -> bool {
    100 * (pos_num(c, t, rate, clock_rate, i) % pos_den(rate, clock_rate)) < pos_den(
        rate,
        clock_rate,
    )
}

/// Whether the trigger output is high at frame `i`: the current step
/// holds a note and the pulse window is open.
pub open spec fn spec_trigger(
    steps: Seq<Option<u8>>,
    c: int,
    t: int,
    rate: int,
    clock_rate: int,
    i: int,
) -> bool {
    &&& steps[spec_step_index(steps.len() as int, c, t, rate, clock_rate, i)] is Some
    &&& spec_window_open(c, t, rate, clock_rate, i)
}

/// Control voltage of a MIDI note, in 120ths of a volt: one volt per
/// octave, zero volts at octave zero, which holds MIDI note 12.
pub open spec fn spec_cv(m: u8) -> int {
    m - 12
}

/// The pitch output at frame `i`: the current step's note if it holds
/// one, otherwise the value remembered from the previous frame, starting
/// from `prev`. The value changes only on a frame whose step holds a
/// note.
pub open spec fn spec_pitch_hold(
    steps: Seq<Option<u8>>,
    c: int,
    t: int,
    rate: int,
    clock_rate: int,
    prev: int,
    i: int,
) -> int
    decreases i,
{
    match steps[spec_step_index(steps.len() as int, c, t, rate, clock_rate, i)] {
        Some(m) => spec_cv(m),
        None => if i <= 0 {
            prev
        } else {
            spec_pitch_hold(steps, c, t, rate, clock_rate, prev, i - 1)
        },
    }
}

/// The step buffer after one drained message: a tick with a logical
/// column on the buffer and a logical row on the scale stores that row's
/// pitch, resolved through the shared scale; a scale change empties every
/// step; a resize to a whole number of bars within bounds keeps the
/// prefix and opens empty steps; anything else leaves the buffer alone.
pub open spec fn steps_after(steps: Seq<Option<u8>>, scale: ScaleSpec, m: Message) -> Seq<
    Option<u8>,
> {
    match m {
        Message::Tick((x, y)) => {
            if x < steps.len() && y < scale_len(scale.root, scale.kind) {
                steps.update(
                    x as int,
                    Some(
                        scale_midi(
                            scale.root,
                            scale.kind,
                            scale_len(scale.root, scale.kind) - 1 - y,
                        ),
                    ),
                )
            } else {
                steps
            }
        },
        Message::Scale(_) => Seq::new(steps.len(), |i: int| None::<u8>),
        Message::Resize(n) => {
            if VIEW_COLS <= n <= MAX_STEPS && n % 16 == 0 {
                Seq::new(
                    n as nat,
                    |i: int|
                        if i < steps.len() {
                            steps[i]
                        } else {
                            None
                        },
                )
            } else {
                steps
            }
        },
        _ => steps,
    }
}

/// The shared scale after one drained message.
pub open spec fn scale_after(scale: ScaleSpec, m: Message) -> ScaleSpec {
    match m {
        Message::Scale(s) => s,
        _ => scale,
    }
}

/// The stored tempo value after one drained message.
pub open spec fn tempo_after(tempo: u32, m: Message) -> u32 {
    match m {
        Message::TempoChange(t) => t,
        _ => tempo,
    }
}

/// The message one non-blocking receive drains from queue `q`.
pub open spec fn first_msg(q: Seq<Message>) -> Option<Message> {
    if q.len() == 0 {
        None
    } else {
        Some(q[0])
    }
}

pub open spec fn steps_after_opt(
    steps: Seq<Option<u8>>,
    scale: ScaleSpec,
    m: Option<Message>,
) -> Seq<Option<u8>> {
    match m {
        None => steps,
        Some(mm) => steps_after(steps, scale, mm),
    }
}

pub open spec fn scale_after_opt(scale: ScaleSpec, m: Option<Message>) -> ScaleSpec {
    match m {
        None => scale,
        Some(mm) => scale_after(scale, mm),
    }
}

pub open spec fn tempo_after_opt(tempo: u32, m: Option<Message>) -> u32 {
    match m {
        None => tempo,
        Some(mm) => tempo_after(tempo, mm),
    }
}

/// The timing arithmetic stays within its integer widths for every frame
/// of a block.
proof fn lemma_num_bounds(c: int, t: int, rate: int, clock_rate: int, i: int)
    requires
        0 <= c <= usize::MAX,
        1 <= t <= MAX_BPM,
        1 <= rate <= MAX_RATE,
        1 <= clock_rate <= MAX_RATE,
        0 <= i <= MAX_BLOCK,
    ensures
        0 <= c * t <= (usize::MAX as int) * (MAX_BPM as int),
        0 <= c * t * rate <= (usize::MAX as int) * (MAX_BPM as int) * (MAX_RATE as int),
        0 <= 15 * clock_rate * i <= 15 * (MAX_RATE as int) * (MAX_BLOCK as int),
        15 <= 15 * clock_rate * rate <= 15 * (MAX_RATE as int) * (MAX_RATE as int),
        pos_num(c, t, rate, clock_rate, i) <= u128::MAX,
        0 < pos_den(rate, clock_rate) <= 15 * (MAX_RATE as int) * (MAX_RATE as int),
{
    assert(0 <= c * t <= (usize::MAX as int) * (MAX_BPM as int)) by (nonlinear_arith)
        requires
            0 <= c <= usize::MAX,
            1 <= t <= MAX_BPM,
    ;
    assert((0 <= c * t * rate <= (usize::MAX as int) * (MAX_BPM as int) * (MAX_RATE as int)))
        by (nonlinear_arith)
        requires
            0 <= c * t <= (usize::MAX as int) * (MAX_BPM as int),
            1 <= rate <= MAX_RATE,
    ;
    assert(0 <= 15 * clock_rate * i <= 15 * (MAX_RATE as int) * (MAX_BLOCK as int))
        by (nonlinear_arith)
        requires
            1 <= clock_rate <= MAX_RATE,
            0 <= i <= MAX_BLOCK,
    ;
    assert(15 <= 15 * clock_rate * rate <= 15 * (MAX_RATE as int) * (MAX_RATE as int))
        by (nonlinear_arith)
        requires
            1 <= clock_rate <= MAX_RATE,
            1 <= rate <= MAX_RATE,
    ;
}

/// The pitch output updates immediately on a frame whose step holds a
/// note.
pub proof fn lemma_pitch_updates_immediately(
    steps: Seq<Option<u8>>,
    c: int,
    t: int,
    rate: int,
    clock_rate: int,
    prev: int,
    i: int,
    m: u8,
)
    requires
        steps[spec_step_index(steps.len() as int, c, t, rate, clock_rate, i)] == Some(m),
    ensures
        spec_pitch_hold(steps, c, t, rate, clock_rate, prev, i) == spec_cv(m),
{
}

/// The pitch output retains its value through frames whose steps hold no
/// note: across any such stretch it still reads what it read at the last
/// frame that lay on a step holding a note.
pub proof fn lemma_pitch_holds(
    steps: Seq<Option<u8>>,
    c: int,
    t: int,
    rate: int,
    clock_rate: int,
    prev: int,
    i: int,
    k: int,
)
    requires
        0 <= i <= k,
        forall|j: int|
            i < j <= k ==> steps[spec_step_index(
                steps.len() as int,
                c,
                t,
                rate,
                clock_rate,
                j,
            )] is None,
    ensures
        spec_pitch_hold(steps, c, t, rate, clock_rate, prev, k) == spec_pitch_hold(
            steps,
            c,
            t,
            rate,
            clock_rate,
            prev,
            i,
        ),
    decreases k - i,
{
    if k > i {
        assert(steps[spec_step_index(steps.len() as int, c, t, rate, clock_rate, k)] is None);
        lemma_pitch_holds(steps, c, t, rate, clock_rate, prev, i, k - 1);
    }
}

/// The step buffer after a sequence of messages, drained one per render
/// call, oldest first.
pub open spec fn run_msgs(steps: Seq<Option<u8>>, scale: ScaleSpec, ms: Seq<Message>) -> Seq<
    Option<u8>,
>
    decreases ms.len(),
{
    if ms.len() == 0 {
        steps
    } else {
        run_msgs(
            steps_after(steps, scale, ms[0]),
            scale_after(scale, ms[0]),
            ms.subrange(1, ms.len() as int),
        )
    }
}

/// Whether every message of `ms` is a tick.
pub open spec fn all_ticks(ms: Seq<Message>) -> bool {
    forall|k: int| 0 <= k < ms.len() ==> (#[trigger] ms[k]) matches Message::Tick(_)
}

/// Whether every tick of `ms` addresses a column of a buffer of length
/// `steps_len` and a row of the scale.
pub open spec fn valid_ticks(ms: Seq<Message>, steps_len: int, scale: ScaleSpec) -> bool {
    forall|k: int|
        0 <= k < ms.len() ==> ((#[trigger] ms[k]) matches Message::Tick(xy) ==> xy.0 < steps_len
            && xy.1 < scale_len(scale.root, scale.kind))
}

/// The last tick of `ms` that addresses column `x`, if any.
pub open spec fn last_tick_at(ms: Seq<Message>, x: usize) -> Option<Message>
    decreases ms.len(),
{
    if ms.len() == 0 {
        None
    } else if ms.last() matches Message::Tick(xy) && xy.0 == x {
        Some(ms.last())
    } else {
        last_tick_at(ms.drop_last(), x)
    }
}

/// Draining messages one per call, oldest first, is a left fold: the
/// message sent last is applied last.
proof fn lemma_run_snoc(steps: Seq<Option<u8>>, scale: ScaleSpec, ms: Seq<Message>, m: Message)
    requires
        all_ticks(ms),
    ensures
        run_msgs(steps, scale, ms.push(m)) == steps_after(run_msgs(steps, scale, ms), scale, m),
    decreases ms.len(),
{
    if ms.len() == 0 {
        assert(ms.push(m).subrange(1, 1) =~= Seq::<Message>::empty());
        assert(ms.push(m)[0] == m);
        assert(run_msgs(steps, scale, ms.push(m)) == run_msgs(
            steps_after(steps, scale, m),
            scale_after(scale, m),
            ms.push(m).subrange(1, 1),
        ));
        assert(run_msgs(steps_after(steps, scale, m), scale_after(scale, m), Seq::<Message>::empty())
            == steps_after(steps, scale, m));
        assert(run_msgs(steps, scale, ms) == steps);
    } else {
        let tail = ms.subrange(1, ms.len() as int);
        assert(ms.push(m).subrange(1, ms.len() as int + 1) =~= tail.push(m));
        assert(ms.push(m)[0] == ms[0]);
        assert(ms[0] matches Message::Tick(_));
        assert(scale_after(scale, ms[0]) == scale);
        assert(run_msgs(steps, scale, ms.push(m)) == run_msgs(
            steps_after(steps, scale, ms[0]),
            scale,
            tail.push(m),
        ));
        assert(run_msgs(steps, scale, ms) == run_msgs(steps_after(steps, scale, ms[0]), scale, tail));
        assert(all_ticks(ms.subrange(1, ms.len() as int))) by {
            assert forall|k: int|
                0 <= k < ms.len() - 1 implies (#[trigger] ms.subrange(1, ms.len() as int)[k])
                matches Message::Tick(_) by {
                assert(ms.subrange(1, ms.len() as int)[k] == ms[k + 1]);
            }
        }
        lemma_run_snoc(steps_after(steps, scale, ms[0]), scale, ms.subrange(1, ms.len() as int), m);
    }
}

/// Message ordering: ticks sent before any render call are drained one
/// per call, in send order, each mutating the step buffer. After all of
/// them, every column holds the pitch of the last tick sent for it, and
/// a column no tick addressed is untouched.
pub proof fn lemma_fifo_ticks(
    steps: Seq<Option<u8>>,
    scale: ScaleSpec,
    ms: Seq<Message>,
    x: usize,
)
    requires
        x < steps.len(),
        all_ticks(ms),
        valid_ticks(ms, steps.len() as int, scale),
    ensures
        run_msgs(steps, scale, ms).len() == steps.len(),
        last_tick_at(ms, x) matches Some(mm) ==> (mm matches Message::Tick(xy) && run_msgs(
            steps,
            scale,
            ms,
        )[x as int] == Some(
            scale_midi(scale.root, scale.kind, scale_len(scale.root, scale.kind) - 1 - xy.1),
        )),
        last_tick_at(ms, x) is None ==> run_msgs(steps, scale, ms)[x as int] == steps[x as int],
    decreases ms.len(),
{
    if ms.len() == 0 {
    } else {
        let ms0 = ms.drop_last();
        let m = ms.last();
        assert(ms =~= ms0.push(m));
        assert(all_ticks(ms0) && valid_ticks(ms0, steps.len() as int, scale)) by {
            assert forall|k: int| 0 <= k < ms0.len() implies (#[trigger] ms0[k]) == ms[k] by {}
        }
        lemma_run_snoc(steps, scale, ms0, m);
        lemma_fifo_ticks(steps, scale, ms0, x);
        assert(m matches Message::Tick(_));
        assert(m == ms[ms.len() - 1]);
    }
}

/// Runs inside the real-time audio callback: drains at most one message
/// per block, converts the shared clock's position into sample-accurate
/// trigger and pitch values, and advances the clock once per call.
pub struct MMMSRenderer {
    pub clock_updater: audio_clock::ClockUpdater,
    pub clock_consumer: audio_clock::ClockConsumer,
    pub clock_tempo: u32,
    pub clock_rate: u32,
    pub tempo: u32,
    pub steps: NoteBuf,
    pub scale: ScaleSpec,
    pub trigger_port: Port,
    pub pitch_port: Port,
    pub prev_pitch: i16,
}

/// The outputs of one rendered block, at clock value `c`, starting from
/// remembered pitch `prev0`, against the renderer's state after the
/// drained message.
pub open spec fn spec_outputs(
    s: &MMMSRenderer,
    info: &BlockInfo,
    prev0: int,
    c: int,
    out: &RenderOutput,
) -> bool {
    let trig_rate = match s.trigger_port {
        Port::AnalogOut(_) => info.analog_rate as int,
        Port::Digital(_) => info.digital_rate as int,
    };
    let trig_frames = match s.trigger_port {
        Port::AnalogOut(_) => info.analog_frames as int,
        Port::Digital(_) => info.digital_frames as int,
    };
    &&& out.triggers@.len() == trig_frames
    &&& forall|i: int|
        0 <= i < trig_frames ==> out.triggers@[i] == spec_trigger(
            s.steps@,
            c,
            s.clock_tempo as int,
            trig_rate,
            s.clock_rate as int,
            i,
        )
    &&& out.pitches@.len() == info.analog_frames
    &&& forall|i: int|
        0 <= i < info.analog_frames ==> out.pitches@[i] == spec_pitch_hold(
            s.steps@,
            c,
            s.clock_tempo as int,
            info.analog_rate as int,
            s.clock_rate as int,
            prev0,
            i,
        )
    &&& s.prev_pitch == if info.analog_frames == 0 {
        prev0
    } else {
        spec_pitch_hold(
            s.steps@,
            c,
            s.clock_tempo as int,
            info.analog_rate as int,
            s.clock_rate as int,
            prev0,
            info.analog_frames - 1,
        )
    }
}

impl MMMSRenderer {
    /// The step buffer always covers a whole viewport within the step
    /// bound and only holds notes in the MIDI range, the clock parameters
    /// fit the timing arithmetic, the pitch port can carry a continuous
    /// signal, and the remembered pitch lies in the representable voltage
    /// range.
    pub open spec fn wf(&self) -> bool {
        &&& VIEW_COLS <= self.steps@.len() <= MAX_STEPS
        &&& forall|i: int|
            0 <= i < self.steps@.len() ==> match #[trigger] self.steps@[i] {
                Some(m) => m <= 127,
                None => true,
            }
        &&& 1 <= self.clock_tempo <= MAX_BPM
        &&& 1 <= self.clock_rate <= MAX_RATE
        &&& self.pitch_port matches Port::AnalogOut(_)
        &&& -12 <= self.prev_pitch <= 115
    }

    pub fn new(
        _width: usize,
        _height: usize,
        clock_updater: audio_clock::ClockUpdater,
        clock_consumer: audio_clock::ClockConsumer,
        clock_tempo: u32,
        clock_rate: u32,
        trigger_port: Port,
        pitch_port: Port,
    ) -> (r: MMMSRenderer)
        requires
            1 <= clock_tempo <= MAX_BPM,
            1 <= clock_rate <= MAX_RATE,
            pitch_port matches Port::AnalogOut(_),
        ensures
            r.wf(),
            r.steps@ == Seq::new(INITIAL_STEPS as nat, |i: int| None::<u8>),
            r.scale == (ScaleSpec { root: 11, kind: ScaleKind::MinorPentatonic }),
            r.tempo == 0,
            r.prev_pitch == 0,
            r.clock_tempo == clock_tempo,
            r.clock_rate == clock_rate,
            r.trigger_port == trigger_port,
            r.pitch_port == pitch_port,
            r.clock_updater == clock_updater,
            r.clock_consumer == clock_consumer,
    {
        let steps = NoteBuf::new(INITIAL_STEPS);
        let scale = ScaleSpec { root: 11, kind: ScaleKind::MinorPentatonic };
        MMMSRenderer {
            clock_updater,
            clock_consumer,
            clock_tempo,
            clock_rate,
            tempo: 0,
            steps,
            scale,
            trigger_port,
            pitch_port,
            prev_pitch: 0,
        }
    }

    /// Store the pitch of logical (column, row) into the step buffer,
    /// resolved through the shared scale; coordinates off the buffer or
    /// the scale leave it alone.
    pub fn press(&mut self, x: usize, y: usize)
        requires
            old(self).wf(),
        ensures
            final(self).wf(),
            final(self).steps@ == steps_after(
                old(self).steps@,
                old(self).scale,
                Message::Tick((x, y)),
            ),
            final(self).scale == old(self).scale,
            final(self).tempo == old(self).tempo,
            final(self).prev_pitch == old(self).prev_pitch,
            final(self).clock_tempo == old(self).clock_tempo,
            final(self).clock_rate == old(self).clock_rate,
            final(self).trigger_port == old(self).trigger_port,
            final(self).pitch_port == old(self).pitch_port,
            final(self).clock_updater == old(self).clock_updater,
            final(self).clock_consumer == old(self).clock_consumer,
    {
        let note_count = scale_note_count(self.scale.root, self.scale.kind);
        if x < self.steps.len() && y < note_count {
            match scale_midi_at(self.scale.root, self.scale.kind, note_count - 1 - y) {
                Some(m) => {
                    self.steps.set(x, Some(m));
                },
                None => {},
            }
        }
    }

    pub fn set_tempo(&mut self, new_tempo: u32)
        ensures
            *final(self) == (MMMSRenderer { tempo: new_tempo, ..*old(self) }),
    {
        self.tempo = new_tempo;
    }

    /// Switch the shared scale, emptying every step: notes of the old
    /// scale would resolve wrongly under the new one.
    pub fn set_scale(&mut self, scale: ScaleSpec)
        requires
            old(self).wf(),
        ensures
            final(self).wf(),
            final(self).steps@ == Seq::new(old(self).steps@.len(), |i: int| None::<u8>),
            *final(self) == (MMMSRenderer { scale, steps: final(self).steps, ..*old(self) }),
    {
        self.steps.clear_all();
        self.scale = scale;
        proof {
            assert(self.steps@ =~= Seq::new(old(self).steps@.len(), |i: int| None::<u8>));
        }
    }

    /// Grow or shrink the step buffer, keeping its prefix; sizes that are
    /// not a whole number of bars within bounds leave it alone.
    pub fn resize(&mut self, new_size: usize)
        requires
            old(self).wf(),
        ensures
            final(self).wf(),
            final(self).steps@ == steps_after(
                old(self).steps@,
                old(self).scale,
                Message::Resize(new_size),
            ),
            *final(self) == (MMMSRenderer { steps: final(self).steps, ..*old(self) }),
    {
        if VIEW_COLS <= new_size && new_size <= MAX_STEPS && new_size % 16 == 0 {
            self.steps.resize(new_size);
            proof {
                assert(self.steps@ =~= steps_after(
                    old(self).steps@,
                    old(self).scale,
                    Message::Resize(new_size),
                ));
            }
        }
    }

    /// Apply one drained message to the render-side state.
    pub fn apply_message(&mut self, m: Message)
        requires
            old(self).wf(),
        ensures
            final(self).wf(),
            final(self).steps@ == steps_after(old(self).steps@, old(self).scale, m),
            final(self).scale == scale_after(old(self).scale, m),
            final(self).tempo == tempo_after(old(self).tempo, m),
            final(self).prev_pitch == old(self).prev_pitch,
            final(self).clock_tempo == old(self).clock_tempo,
            final(self).clock_rate == old(self).clock_rate,
            final(self).trigger_port == old(self).trigger_port,
            final(self).pitch_port == old(self).pitch_port,
            final(self).clock_updater == old(self).clock_updater,
            final(self).clock_consumer == old(self).clock_consumer,
    {
        match m {
            Message::Tick((x, y)) => {
                self.press(x, y);
            },
            Message::Start => {},
            Message::Stop => {},
            Message::Resize(new_size) => {
                self.resize(new_size);
            },
            Message::TempoChange(tempo) => {
                self.set_tempo(tempo);
            },
            Message::Scale(scale) => {
                self.set_scale(scale);
            },
        }
    }

    /// One sweep of the trigger output's domain: a pulse at every frame
    /// whose step holds a note while the pulse window is open.
    pub fn sweep_triggers(&self, counter: usize, rate: u32, frames: usize) -> (v: Vec<bool>)
        requires
            self.wf(),
            1 <= rate <= MAX_RATE,
            frames <= MAX_BLOCK,
        ensures
            v@.len() == frames,
            forall|i: int|
                0 <= i < frames ==> v@[i] == spec_trigger(
                    self.steps@,
                    counter as int,
                    self.clock_tempo as int,
                    rate as int,
                    self.clock_rate as int,
                    i,
                ),
    {
        let len = self.steps.len();
        let c128: u128 = counter as u128;
        let t128: u128 = self.clock_tempo as u128;
        let r128: u128 = rate as u128;
        let rc128: u128 = self.clock_rate as u128;
        proof {
            lemma_num_bounds(
                counter as int,
                self.clock_tempo as int,
                rate as int,
                self.clock_rate as int,
                0,
            );
        }
        let base: u128 = c128 * t128 * r128;
        let den: u128 = 15u128 * rc128 * r128;
        let stride: u128 = 15u128 * rc128;
        let mut v: Vec<bool> = Vec::new();
        let mut i: usize = 0;
        while i < frames
            invariant
                self.wf(),
                1 <= rate <= MAX_RATE,
                frames <= MAX_BLOCK,
                len == self.steps@.len(),
                c128 == counter as u128,
                t128 == self.clock_tempo as u128,
                r128 == rate as u128,
                rc128 == self.clock_rate as u128,
                base == (counter as int) * (self.clock_tempo as int) * (rate as int),
                den == pos_den(rate as int, self.clock_rate as int),
                stride == 15 * (self.clock_rate as int),
                i <= frames,
                v@.len() == i,
                forall|k: int|
                    0 <= k < i ==> v@[k] == spec_trigger(
                        self.steps@,
                        counter as int,
                        self.clock_tempo as int,
                        rate as int,
                        self.clock_rate as int,
                        k,
                    ),
            decreases frames - i,
        {
            proof {
                lemma_num_bounds(
                    counter as int,
                    self.clock_tempo as int,
                    rate as int,
                    self.clock_rate as int,
                    i as int,
                );
            }
            let num: u128 = base + stride * (i as u128);
            let step128: u128 = (num / den) % (len as u128);
            assert(step128 < len);
            let step_index: usize = step128 as usize;
            let window_open = 100u128 * (num % den) < den;
            let on = match self.steps.get(step_index) {
                Some(_) => window_open,
                None => false,
            };
            v.push(on);
            i = i + 1;
        }
        v
    }

    /// One sweep of the analog pitch output: the current step's voltage
    /// where it holds a note, else the value held from the previous
    /// frame, starting from `prev`.
    pub fn sweep_pitches(&self, counter: usize, rate: u32, frames: usize, prev: i16) -> (v: Vec<
        i16,
    >)
        requires
            self.wf(),
            1 <= rate <= MAX_RATE,
            frames <= MAX_BLOCK,
            -12 <= prev <= 115,
        ensures
            v@.len() == frames,
            forall|i: int|
                0 <= i < frames ==> v@[i] == spec_pitch_hold(
                    self.steps@,
                    counter as int,
                    self.clock_tempo as int,
                    rate as int,
                    self.clock_rate as int,
                    prev as int,
                    i,
                ),
            forall|i: int| 0 <= i < frames ==> -12 <= #[trigger] v@[i] <= 115,
    {
        let len = self.steps.len();
        let c128: u128 = counter as u128;
        let t128: u128 = self.clock_tempo as u128;
        let r128: u128 = rate as u128;
        let rc128: u128 = self.clock_rate as u128;
        proof {
            lemma_num_bounds(
                counter as int,
                self.clock_tempo as int,
                rate as int,
                self.clock_rate as int,
                0,
            );
        }
        let base: u128 = c128 * t128 * r128;
        let den: u128 = 15u128 * rc128 * r128;
        let stride: u128 = 15u128 * rc128;
        let mut v: Vec<i16> = Vec::new();
        let mut cur: i16 = prev;
        let mut i: usize = 0;
        while i < frames
            invariant
                self.wf(),
                1 <= rate <= MAX_RATE,
                frames <= MAX_BLOCK,
                -12 <= prev <= 115,
                len == self.steps@.len(),
                c128 == counter as u128,
                t128 == self.clock_tempo as u128,
                r128 == rate as u128,
                rc128 == self.clock_rate as u128,
                base == (counter as int) * (self.clock_tempo as int) * (rate as int),
                den == pos_den(rate as int, self.clock_rate as int),
                stride == 15 * (self.clock_rate as int),
                i <= frames,
                v@.len() == i,
                -12 <= cur <= 115,
                cur == if i == 0 {
                    prev as int
                } else {
                    spec_pitch_hold(
                        self.steps@,
                        counter as int,
                        self.clock_tempo as int,
                        rate as int,
                        self.clock_rate as int,
                        prev as int,
                        i - 1,
                    )
                },
                forall|k: int|
                    0 <= k < i ==> v@[k] == spec_pitch_hold(
                        self.steps@,
                        counter as int,
                        self.clock_tempo as int,
                        rate as int,
                        self.clock_rate as int,
                        prev as int,
                        k,
                    ),
                forall|k: int| 0 <= k < i ==> -12 <= #[trigger] v@[k] <= 115,
            decreases frames - i,
        {
            proof {
                lemma_num_bounds(
                    counter as int,
                    self.clock_tempo as int,
                    rate as int,
                    self.clock_rate as int,
                    i as int,
                );
            }
            let num: u128 = base + stride * (i as u128);
            let step128: u128 = (num / den) % (len as u128);
            assert(step128 < len);
            let step_index: usize = step128 as usize;
            match self.steps.get(step_index) {
                Some(m) => {
                    cur = m as i16 - 12;
                },
                None => {},
            }
            v.push(cur);
            i = i + 1;
        }
        v
    }

    /// Render one block at clock value `counter`: drain at most one
    /// pending message, then sweep the trigger and pitch outputs from the
    /// resulting state.
    pub fn render_at(&mut self, q: &mut MessageQueue, info: &BlockInfo, counter: usize) -> (out:
        RenderOutput)
        requires
            old(self).wf(),
            info.wf(),
        ensures
            final(self).wf(),
            final(q)@ == if old(q)@.len() == 0 {
                old(q)@
            } else {
                old(q)@.subrange(1, old(q)@.len() as int)
            },
            final(self).steps@ == steps_after_opt(
                old(self).steps@,
                old(self).scale,
                first_msg(old(q)@),
            ),
            final(self).scale == scale_after_opt(old(self).scale, first_msg(old(q)@)),
            final(self).tempo == tempo_after_opt(old(self).tempo, first_msg(old(q)@)),
            final(self).clock_tempo == old(self).clock_tempo,
            final(self).clock_rate == old(self).clock_rate,
            final(self).trigger_port == old(self).trigger_port,
            final(self).pitch_port == old(self).pitch_port,
            final(self).clock_updater == old(self).clock_updater,
            final(self).clock_consumer == old(self).clock_consumer,
            out.counter == counter,
            spec_outputs(final(self), info, old(self).prev_pitch as int, counter as int, &out),
    {
        match q.try_recv() {
            Some(m) => self.apply_message(m),
            None => {},
        }
        let (trig_rate, trig_frames) = match self.trigger_port {
            Port::AnalogOut(_) => (info.analog_rate, info.analog_frames),
            Port::Digital(_) => (info.digital_rate, info.digital_frames),
        };
        let triggers = self.sweep_triggers(counter, trig_rate, trig_frames);
        let prev = self.prev_pitch;
        let pitches = self.sweep_pitches(counter, info.analog_rate, info.analog_frames, prev);
        if info.analog_frames > 0 {
            self.prev_pitch = pitches[info.analog_frames - 1];
        }
        RenderOutput { counter, triggers, pitches }
    }

    /// Render one block: read the shared clock, render at that position,
    /// and advance the clock by the block's frame count, exactly once,
    /// after all reads for the block are done. The outputs are exact for
    /// whatever clock value the read returned, which the output carries.
    pub fn render(&mut self, q: &mut MessageQueue, info: &BlockInfo) -> (out: RenderOutput)
        requires
            old(self).wf(),
            info.wf(),
        ensures
            final(self).wf(),
            final(q)@ == if old(q)@.len() == 0 {
                old(q)@
            } else {
                old(q)@.subrange(1, old(q)@.len() as int)
            },
            final(self).steps@ == steps_after_opt(
                old(self).steps@,
                old(self).scale,
                first_msg(old(q)@),
            ),
            final(self).scale == scale_after_opt(old(self).scale, first_msg(old(q)@)),
            final(self).tempo == tempo_after_opt(old(self).tempo, first_msg(old(q)@)),
            final(self).clock_tempo == old(self).clock_tempo,
            final(self).clock_rate == old(self).clock_rate,
            final(self).trigger_port == old(self).trigger_port,
            final(self).pitch_port == old(self).pitch_port,
            spec_outputs(final(self), info, old(self).prev_pitch as int, out.counter as int, &out),
    {
        let counter = clock_raw_frames(&self.clock_consumer);
        let out = self.render_at(q, info, counter);
        clock_increment(&mut self.clock_updater, info.audio_frames);
        out
    }
}

} // verus!
