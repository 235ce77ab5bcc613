use mmms::control::MMMS;
use mmms::message::{Message, MessageQueue};
use mmms::render::{BlockInfo, MMMSRenderer, Port};
use mmms::scale::{ScaleKind, ScaleSpec};

fn midi_of(idx: usize) -> u8 {
    musical_scales::Scale::new(
        musical_scales::PitchClass::B,
        musical_scales::ScaleType::MinorPentatonic,
    )
    .idx_to_pitch(idx)
    .unwrap()
    .to_midi()
}

/// Control voltage of a MIDI note, in 120ths of a volt.
fn cv_of(idx: usize) -> i16 {
    midi_of(idx) as i16 - 12
}

/// A sequencer whose clock runs at 15 beats per minute and 44100 Hz, so
/// that the step position at frame `i` of a block starting at counter `c`
/// is exactly `(c + i) / 44100` sixteenths.
fn new_at_15_bpm(trigger_port: Port) -> (MMMS, MMMSRenderer) {
    let (updater, consumer) = audio_clock::audio_clock(15.0, 44100);
    MMMS::new(
        (trigger_port, Port::AnalogOut(1)),
        16,
        8,
        15,
        44100,
        updater,
        consumer,
    )
}

fn block() -> BlockInfo {
    BlockInfo {
        audio_frames: 1024,
        analog_frames: 1024,
        digital_frames: 1024,
        analog_rate: 44100,
        digital_rate: 44100,
    }
}

#[test]
fn trigger_pulses_only_in_the_pulse_window() {
    let (_m, mut r) = new_at_15_bpm(Port::AnalogOut(0));
    let mut q = MessageQueue::new();
    // One bar of 16 steps with a note only at step 0.
    q.send(Message::Resize(16));
    q.send(Message::Tick((0, 25)));
    let info = block();
    // First render drains only the resize: no note, no pulse anywhere.
    let out = r.render_at(&mut q, &info, 0);
    assert_eq!(out.triggers.len(), 1024);
    assert!(out.triggers.iter().all(|&t| !t));
    // Second render drains the tick. At one step per second, the
    // fractional position at frame i of step 0 is i / 44100: the 10 ms
    // pulse window is open exactly for i < 441.
    let out = r.render_at(&mut q, &info, 0);
    assert_eq!(r.steps.get(0), Some(midi_of(47 - 25)));
    for i in 0..1024 {
        assert_eq!(out.triggers[i], i < 441, "frame {i}");
    }
    // A block inside step 5, which holds no note: low everywhere.
    let out = r.render_at(&mut q, &info, 5 * 44100);
    assert!(out.triggers.iter().all(|&t| !t));
    // A block at the start of step 5: the step holds no note, so the
    // pulse window alone lights nothing.
    let out = r.render_at(&mut q, &info, 5 * 44100 + 100);
    assert!(out.triggers.iter().all(|&t| !t));
    // The position wraps around the 16-step buffer: one bar later the
    // pulse comes back.
    let out = r.render_at(&mut q, &info, 16 * 44100);
    for i in 0..1024 {
        assert_eq!(out.triggers[i], i < 441, "wrapped frame {i}");
    }
}

#[test]
fn trigger_on_a_digital_port_sweeps_digital_frames() {
    let (_m, mut r) = new_at_15_bpm(Port::Digital(2));
    let mut q = MessageQueue::new();
    q.send(Message::Resize(16));
    q.send(Message::Tick((0, 25)));
    let mut info = block();
    info.digital_frames = 512;
    let _ = r.render_at(&mut q, &info, 0);
    let out = r.render_at(&mut q, &info, 0);
    assert_eq!(out.triggers.len(), 512);
    assert_eq!(out.pitches.len(), 1024);
    for i in 0..512 {
        assert_eq!(out.triggers[i], i < 441, "frame {i}");
    }
}

#[test]
fn pitch_holds_through_empty_steps_and_updates_immediately() {
    let (_m, mut r) = new_at_15_bpm(Port::AnalogOut(0));
    let mut q = MessageQueue::new();
    q.send(Message::Resize(16));
    q.send(Message::Tick((0, 25)));
    let info = block();
    let _ = r.render_at(&mut q, &info, 0);
    let _ = r.render_at(&mut q, &info, 0);
    let held = cv_of(47 - 25);
    // A block that crosses from step 0 into empty step 1: the voltage of
    // step 0 is emitted on its last frame and then held.
    let out = r.render_at(&mut q, &info, 44099);
    assert_eq!(out.pitches[0], held);
    for i in 1..1024 {
        assert_eq!(out.pitches[i], held, "held frame {i}");
    }
    assert_eq!(r.prev_pitch, held);
    // A whole later block inside empty step 2 still holds it.
    let out = r.render_at(&mut q, &info, 2 * 44100);
    assert!(out.pitches.iter().all(|&p| p == held));
    // A new note at step 3 takes over on the first frame that lies on it.
    q.send(Message::Tick((3, 30)));
    let out = r.render_at(&mut q, &info, 3 * 44100);
    let new_cv = cv_of(47 - 30);
    assert!(out.pitches.iter().all(|&p| p == new_cv));
    // Every emitted voltage stays within one volt of headroom: at most
    // 115 of 120 twelfths.
    assert!(out.pitches.iter().all(|&p| -12 <= p && p <= 115));
}

#[test]
fn messages_drain_one_per_render_in_send_order() {
    let (_m, mut r) = new_at_15_bpm(Port::AnalogOut(0));
    let mut q = MessageQueue::new();
    q.send(Message::Tick((2, 10)));
    q.send(Message::Tick((2, 20)));
    q.send(Message::Tick((5, 7)));
    let info = block();
    assert_eq!(r.steps.len(), 32);
    let _ = r.render_at(&mut q, &info, 0);
    assert_eq!(q.len(), 2);
    assert_eq!(r.steps.get(2), Some(midi_of(47 - 10)));
    assert_eq!(r.steps.get(5), None);
    let _ = r.render_at(&mut q, &info, 0);
    assert_eq!(q.len(), 1);
    // The later tick for the same column wins once it drains.
    assert_eq!(r.steps.get(2), Some(midi_of(47 - 20)));
    let _ = r.render_at(&mut q, &info, 0);
    assert_eq!(q.len(), 0);
    assert_eq!(r.steps.get(2), Some(midi_of(47 - 20)));
    assert_eq!(r.steps.get(5), Some(midi_of(47 - 7)));
    // A render on an empty queue changes nothing.
    let _ = r.render_at(&mut q, &info, 0);
    assert_eq!(r.steps.get(2), Some(midi_of(47 - 20)));
}

#[test]
fn render_advances_the_shared_clock_once_per_block() {
    let (m, mut r) = new_at_15_bpm(Port::AnalogOut(0));
    let mut q = MessageQueue::new();
    let info = block();
    let out = r.render(&mut q, &info);
    assert_eq!(out.counter, 0);
    let out = r.render(&mut q, &info);
    assert_eq!(out.counter, 1024);
    let out = r.render(&mut q, &info);
    assert_eq!(out.counter, 2048);
    // The control plane reads the same clock through its own handle.
    let mut fb = vec![0u8; 128];
    assert_eq!(m.render(&mut fb), 3 * 1024);
}

#[test]
fn malformed_messages_leave_the_step_buffer_alone() {
    let (_m, mut r) = new_at_15_bpm(Port::AnalogOut(0));
    let mut q = MessageQueue::new();
    let info = block();
    q.send(Message::Resize(0));
    let _ = r.render_at(&mut q, &info, 0);
    assert_eq!(r.steps.len(), 32);
    q.send(Message::Resize(24));
    let _ = r.render_at(&mut q, &info, 0);
    assert_eq!(r.steps.len(), 32);
    q.send(Message::Tick((999, 0)));
    let _ = r.render_at(&mut q, &info, 0);
    for x in 0..32 {
        assert_eq!(r.steps.get(x), None);
    }
    q.send(Message::Tick((0, 999)));
    let _ = r.render_at(&mut q, &info, 0);
    assert_eq!(r.steps.get(0), None);
}

#[test]
fn scale_change_empties_the_buffer_and_tempo_is_stored() {
    let (_m, mut r) = new_at_15_bpm(Port::AnalogOut(0));
    let mut q = MessageQueue::new();
    let info = block();
    q.send(Message::Tick((4, 10)));
    let _ = r.render_at(&mut q, &info, 0);
    assert!(r.steps.get(4).is_some());
    q.send(Message::Scale(ScaleSpec { root: 0, kind: ScaleKind::Major }));
    let _ = r.render_at(&mut q, &info, 0);
    for x in 0..32 {
        assert_eq!(r.steps.get(x), None);
    }
    assert_eq!(r.scale, ScaleSpec { root: 0, kind: ScaleKind::Major });
    // Ticks now resolve through the new scale.
    let c_major = musical_scales::Scale::new(
        musical_scales::PitchClass::C,
        musical_scales::ScaleType::Major,
    );
    q.send(Message::Tick((1, 3)));
    let _ = r.render_at(&mut q, &info, 0);
    let idx = c_major.note_count() - 1 - 3;
    assert_eq!(r.steps.get(1), Some(c_major.idx_to_pitch(idx).unwrap().to_midi()));
    // A tempo message only stores the value; Start and Stop do nothing.
    q.send(Message::TempoChange(90));
    let _ = r.render_at(&mut q, &info, 0);
    assert_eq!(r.tempo, 90);
    q.send(Message::Start);
    q.send(Message::Stop);
    let _ = r.render_at(&mut q, &info, 0);
    let _ = r.render_at(&mut q, &info, 0);
    assert_eq!(r.tempo, 90);
}
