use mmms::clamp;
use mmms::control::{KeyDir, MMMS};
use mmms::grid::VirtualGrid;
use mmms::message::{Message, MessageQueue};
use mmms::render::Port;
use mmms::scale::{scale_degree_at, scale_midi_at, scale_note_count, scale_octave_note_count,
    Degree, ScaleKind};
use mmms::tracker::{GridStateTracker, MMMSAction};

fn b_minor_pentatonic() -> musical_scales::Scale {
    musical_scales::Scale::new(
        musical_scales::PitchClass::B,
        musical_scales::ScaleType::MinorPentatonic,
    )
}

fn baseline_of(scale: &musical_scales::Scale, idx: usize) -> u8 {
    match scale.idx_to_degree(idx) {
        Ok(musical_scales::Degrees::Tonic) => 10,
        Ok(musical_scales::Degrees::Dominant) => 6,
        Ok(musical_scales::Degrees::Leading) => 4,
        _ => 0,
    }
}

fn new_mmms() -> (MMMS, mmms::render::MMMSRenderer) {
    let (updater, consumer) = audio_clock::audio_clock(15.0, 44100);
    MMMS::new(
        (Port::AnalogOut(0), Port::AnalogOut(1)),
        16,
        8,
        15,
        44100,
        updater,
        consumer,
    )
}

#[test]
fn it_works() {}

#[test]
fn clamp_restricts_to_interval() {
    assert_eq!(clamp(-5, 0, 10), 0);
    assert_eq!(clamp(5, 0, 10), 5);
    assert_eq!(clamp(15, 0, 10), 10);
    assert_eq!(clamp(0, 0, 0), 0);
}

#[test]
fn press_then_release_yields_tick() {
    let mut t = GridStateTracker::new(16, 8);
    t.down(0, 3);
    assert_eq!(t.up(0, 3), MMMSAction::Tick((0, 2)));
    t.down(15, 7);
    assert_eq!(t.up(15, 7), MMMSAction::Tick((15, 6)));
}

#[test]
fn stray_release_yields_nothing() {
    let mut t = GridStateTracker::new(16, 8);
    assert_eq!(t.up(4, 5), MMMSAction::Nothing);
    for x in 0..16 {
        for y in 0..8 {
            t.up(x, y);
        }
    }
}

#[test]
fn control_row_actions() {
    let mut t = GridStateTracker::new(16, 8);
    assert_eq!(t.up(8, 0), MMMSAction::Move((-16, 0)));
    assert_eq!(t.up(9, 0), MMMSAction::Move((16, 0)));
    assert_eq!(t.up(10, 0), MMMSAction::Move((0, -1)));
    assert_eq!(t.up(11, 0), MMMSAction::Move((0, 1)));
    assert_eq!(t.up(0, 0), MMMSAction::Nothing);
    assert_eq!(t.up(14, 0), MMMSAction::Nothing);
    // Under shift, the same columns pick bar counts.
    t.down(15, 0);
    assert!(t.shift_down());
    assert_eq!(t.up(8, 0), MMMSAction::Resize(1));
    assert_eq!(t.up(9, 0), MMMSAction::Resize(2));
    assert_eq!(t.up(10, 0), MMMSAction::Resize(4));
    assert_eq!(t.up(11, 0), MMMSAction::Resize(8));
    // Releasing shift itself resolves to nothing and clears it.
    assert_eq!(t.up(15, 0), MMMSAction::Nothing);
    assert!(!t.shift_down());
    assert_eq!(t.up(8, 0), MMMSAction::Move((-16, 0)));
}

#[test]
fn grid_starts_over_b_minor_pentatonic() {
    let g = VirtualGrid::new();
    let scale = b_minor_pentatonic();
    assert_eq!(g.steps_count(), 32);
    assert_eq!(g.height, scale.note_count());
    assert_eq!(g.height, 48);
    assert_eq!(g.octave_len, 5);
    assert_eq!(g.offset_x, 0);
    assert_eq!(g.offset_y, 48 - 22);
    assert_eq!(g.current_octave(), 3);
    for x in 0..32 {
        assert_eq!(g.grid.get(x), None);
    }
}

#[test]
fn tick_is_monophonic() {
    let mut g = VirtualGrid::new();
    g.mouve(0, -1000);
    assert_eq!(g.offset_y, 0);
    assert_eq!(g.vaddress(3, 5), (3, 5));
    g.tick(3, 1);
    g.tick(3, 5);
    assert_eq!(g.grid.get(3), Some(5));
    for x in 0..32 {
        if x != 3 {
            assert_eq!(g.grid.get(x), None);
        }
    }
    // The same cell twice returns the column to empty.
    g.tick(4, 2);
    g.tick(4, 2);
    assert_eq!(g.grid.get(4), None);
}

#[test]
fn pan_clamps_repeatedly() {
    let mut g = VirtualGrid::new();
    assert_eq!(g.steps_count(), 32);
    for _ in 0..4 {
        g.mouve(-1000, 0);
        assert_eq!(g.offset_x, 0);
    }
    for _ in 0..4 {
        g.mouve(1000, 0);
        assert_eq!(g.offset_x, 32 - 16);
    }
    assert!(g.x_in_view(16));
    assert!(g.x_in_view(31));
    assert!(!g.x_in_view(15));
    assert!(g.in_view(16, g.offset_y));
    assert!(!g.in_view(16, g.offset_y + 7));
    g.mouve(0, 1000);
    assert_eq!(g.offset_y, 48 - 7);
    assert_eq!(g.current_octave(), 0);
    g.mouve(0, -1000);
    assert_eq!(g.offset_y, 0);
    assert_eq!(g.current_octave(), 8);
}

#[test]
fn resize_truncates_and_reclamps() {
    let mut g = VirtualGrid::new();
    g.mouve(1000, 0);
    assert_eq!(g.offset_x, 16);
    g.tick(4, 0);
    assert_eq!(g.grid.get(20), Some(g.offset_y as u8));
    g.change_steps_count(16);
    assert_eq!(g.steps_count(), 16);
    assert_eq!(g.offset_x, 0);
    assert_eq!(g.grid.len(), 16);
    g.change_steps_count(32);
    // The note beyond the shrunk width was dropped for good.
    assert_eq!(g.grid.get(20), None);
    g.change_steps_count(128);
    assert_eq!(g.grid.len(), 128);
}

#[test]
fn scale_provider_wrappers_match_the_provider() {
    let scale = b_minor_pentatonic();
    assert_eq!(scale_note_count(11, ScaleKind::MinorPentatonic), scale.note_count());
    assert_eq!(scale_note_count(11, ScaleKind::MinorPentatonic), 48);
    assert_eq!(scale_octave_note_count(11, ScaleKind::MinorPentatonic), 5);
    assert_eq!(scale_midi_at(11, ScaleKind::MinorPentatonic, 0), Some(11));
    for idx in 0..48 {
        let expected = scale.idx_to_pitch(idx).unwrap().to_midi();
        assert_eq!(scale_midi_at(11, ScaleKind::MinorPentatonic, idx), Some(expected));
    }
    assert_eq!(scale_midi_at(11, ScaleKind::MinorPentatonic, 48), None);
    assert_eq!(scale_degree_at(11, ScaleKind::MinorPentatonic, 20), Some(Degree::Tonic));
    assert_eq!(scale_degree_at(11, ScaleKind::MinorPentatonic, 18), Some(Degree::Dominant));
    assert_eq!(scale_degree_at(0, ScaleKind::Chromatic, 3), None);
    assert_eq!(scale_degree_at(0, ScaleKind::Major, 4), Some(Degree::Dominant));
    assert_eq!(scale_degree_at(0, ScaleKind::Major, 6), Some(Degree::Leading));
}

#[test]
fn queue_keeps_send_order() {
    let mut q = MessageQueue::new();
    assert_eq!(q.try_recv(), None);
    q.send(Message::Start);
    q.send(Message::Resize(32));
    q.send(Message::Stop);
    assert_eq!(q.try_recv(), Some(Message::Start));
    assert_eq!(q.try_recv(), Some(Message::Resize(32)));
    assert_eq!(q.try_recv(), Some(Message::Stop));
    assert_eq!(q.try_recv(), None);
}

#[test]
fn input_tick_edits_grid_and_sends_logical_coordinates() {
    let (mut m, _r) = new_mmms();
    let mut q = MessageQueue::new();
    let oy = m.virtual_grid.offset_y;
    m.input(&mut q, 0, 3, KeyDir::Down);
    assert_eq!(q.len(), 0);
    m.input(&mut q, 0, 3, KeyDir::Up);
    assert_eq!(m.virtual_grid.grid.get(0), Some((oy + 2) as u8));
    assert_eq!(q.try_recv(), Some(Message::Tick((0, oy + 2))));
}

#[test]
fn input_pan_and_resize() {
    let (mut m, _r) = new_mmms();
    let mut q = MessageQueue::new();
    // Pan right by one viewport: no message.
    m.input(&mut q, 9, 0, KeyDir::Down);
    m.input(&mut q, 9, 0, KeyDir::Up);
    assert_eq!(m.virtual_grid.offset_x, 16);
    assert_eq!(q.len(), 0);
    // Resize to two bars under shift.
    m.input(&mut q, 15, 0, KeyDir::Down);
    m.input(&mut q, 9, 0, KeyDir::Down);
    m.input(&mut q, 9, 0, KeyDir::Up);
    assert_eq!(m.virtual_grid.steps_count(), 32);
    assert_eq!(q.try_recv(), Some(Message::Resize(32)));
    m.input(&mut q, 15, 0, KeyDir::Up);
    // Resize to one bar: the offset reclamps to zero.
    m.input(&mut q, 15, 0, KeyDir::Down);
    m.input(&mut q, 8, 0, KeyDir::Down);
    m.input(&mut q, 8, 0, KeyDir::Up);
    assert_eq!(m.virtual_grid.steps_count(), 16);
    assert_eq!(m.virtual_grid.offset_x, 0);
    assert_eq!(q.try_recv(), Some(Message::Resize(16)));
}

#[test]
fn end_to_end_viewport_column() {
    let (mut m, _r) = new_mmms();
    let scale = b_minor_pentatonic();
    // Bring the viewport to the top of the grid and put, in column 0, a
    // note at logical row 2, then one at logical row 5: one note stays,
    // at row 5.
    m.virtual_grid.mouve(0, -1000);
    assert_eq!(m.virtual_grid.offset_y, 0);
    m.virtual_grid.tick(0, 2);
    m.virtual_grid.tick(0, 5);
    assert_eq!(m.virtual_grid.grid.get(0), Some(5));
    let mut view = vec![0u8; 112];
    m.virtual_grid.viewport(&mut view);
    // Column 0, top to bottom: scale-degree baselines, except maximum
    // brightness on the note's row.
    let expected = [0u8, 0, 10, 4, 6, 15, 0];
    for row in 0..7 {
        assert_eq!(view[row * 16], expected[row], "row {row}");
        let idx = scale.note_count() - 1 - row;
        if row != 5 {
            assert_eq!(view[row * 16], baseline_of(&scale, idx), "baseline row {row}");
        }
    }
    // An empty column shows baselines everywhere.
    for row in 0..7 {
        let idx = scale.note_count() - 1 - row;
        assert_eq!(view[row * 16 + 7], baseline_of(&scale, idx));
    }
}

#[test]
fn display_shows_octave_indicator_and_playhead() {
    let (m, _r) = new_mmms();
    let mut fb = vec![0u8; 128];
    let c = m.render(&mut fb);
    assert_eq!(c, 0);
    // Octave indicator: third octave, one lit cell in the control row.
    assert_eq!(fb[8 + 3], 15);
    assert_eq!(fb[8], 0);
    assert_eq!(fb[0], 0);
    // Playhead at column 0 raises dark cells of that column to 4 across
    // the musical rows, and never lowers a brighter one.
    let scale = b_minor_pentatonic();
    for row in 0..7 {
        let idx = scale.note_count() - 1 - (26 + row);
        let base = baseline_of(&scale, idx);
        let want = if base < 4 { 4 } else { base };
        assert_eq!(fb[16 + row * 16], want, "playhead row {row}");
        // A column off the playhead keeps its baseline.
        assert_eq!(fb[16 + row * 16 + 5], base, "plain row {row}");
    }
}

#[test]
fn display_shows_bar_count_under_shift() {
    let (mut m, _r) = new_mmms();
    let mut q = MessageQueue::new();
    m.input(&mut q, 15, 0, KeyDir::Down);
    let mut fb = vec![0u8; 128];
    m.render_display_at(0, &mut fb);
    // 32 steps is two bars: two lit cells.
    assert_eq!(fb[8], 15);
    assert_eq!(fb[9], 15);
    assert_eq!(fb[10], 0);
}

#[test]
fn display_hides_playhead_outside_the_viewport() {
    let (mut m, _r) = new_mmms();
    let mut q = MessageQueue::new();
    // Pan one viewport to the right: the playhead at column 0 leaves the
    // view, so no cell is raised for it.
    m.input(&mut q, 9, 0, KeyDir::Down);
    m.input(&mut q, 9, 0, KeyDir::Up);
    assert_eq!(m.virtual_grid.offset_x, 16);
    let mut fb = vec![0u8; 128];
    m.render_display_at(0, &mut fb);
    let scale = b_minor_pentatonic();
    for row in 0..7 {
        let idx = scale.note_count() - 1 - (26 + row);
        assert_eq!(fb[16 + row * 16], baseline_of(&scale, idx), "row {row}");
    }
}
