use vstd::prelude::*;

verus! {

/// The shapes of scale that the scale provider can build.
#[derive(Clone, Copy, PartialEq, Eq, Structural, Debug)]
pub enum ScaleKind {
    Chromatic,
    Major,
    Minor,
    MinorMelodic,
    MinorHarmonic,
    MajorPentatonic,
    MinorPentatonic,
}

/// Classification of a scale degree, used to pick a baseline brightness
/// for each row of the viewport.
#[derive(Clone, Copy, PartialEq, Eq, Structural, Debug)]
pub enum Degree {
    Tonic,
    Supertonic,
    Mediant,
    Subdominant,
    Dominant,
    Submediant,
    Leading,
}

/// A scale selection: the root pitch class as a semitone number (0 is C,
/// 11 is B; values are taken modulo 12 by the provider) and the scale shape.
#[derive(Clone, Copy, PartialEq, Eq, Structural, Debug)]
pub struct ScaleSpec {
    pub root: u8,
    pub kind: ScaleKind,
}

/// Number of notes in the scale provider's full table for this root and
/// shape: one entry per scale note that fits in the MIDI range.
pub uninterp spec fn scale_len(root: u8, kind: ScaleKind) -> usize;

/// MIDI note number of entry `idx` of the scale provider's table for this
/// root and shape (meaningful for `idx < scale_len(root, kind)`).
pub uninterp spec fn scale_midi(root: u8, kind: ScaleKind, idx: int) -> u8;

/// How many notes one octave of this scale shape holds.
pub open spec fn spec_octave_len(kind: ScaleKind) -> usize {
    match kind {
        ScaleKind::Chromatic => 11,
        ScaleKind::Major => 7,
        ScaleKind::Minor => 7,
        ScaleKind::MinorMelodic => 7,
        ScaleKind::MinorHarmonic => 7,
        ScaleKind::MajorPentatonic => 5,
        ScaleKind::MinorPentatonic => 5,
    }
}

/// Degree classification of entry `idx` of the scale table: the shape's
/// degree cycle, indexed by `idx` modulo the cycle's length. A chromatic
/// scale has no degree classification.
pub open spec fn spec_degree(kind: ScaleKind, idx: int) -> Option<Degree> {
    match kind {
        ScaleKind::Chromatic => None,
        ScaleKind::MajorPentatonic => Some(
            if idx % 5 == 0 {
                Degree::Tonic
            } else if idx % 5 == 1 {
                Degree::Supertonic
            } else if idx % 5 == 2 {
                Degree::Mediant
            } else if idx % 5 == 3 {
                Degree::Dominant
            } else {
                Degree::Submediant
            },
        ),
        ScaleKind::MinorPentatonic => Some(
            if idx % 5 == 0 {
                Degree::Tonic
            } else if idx % 5 == 1 {
                Degree::Mediant
            } else if idx % 5 == 2 {
                Degree::Subdominant
            } else if idx % 5 == 3 {
                Degree::Dominant
            } else {
                Degree::Leading
            },
        ),
        _ => Some(
            if idx % 7 == 0 {
                Degree::Tonic
            } else if idx % 7 == 1 {
                Degree::Supertonic
            } else if idx % 7 == 2 {
                Degree::Mediant
            } else if idx % 7 == 3 {
                Degree::Subdominant
            } else if idx % 7 == 4 {
                Degree::Dominant
            } else if idx % 7 == 5 {
                Degree::Submediant
            } else {
                Degree::Leading
            },
        ),
    }
}

#[verifier::external_type_specification]
#[verifier::external_body]
pub struct ExScaleType(musical_scales::ScaleType);

/// Relies on musical_scales::ScaleType: turns the library's scale shape
/// into the provider's, one variant for one variant.
#[verifier::external_body]
fn ms_scale_type(kind: ScaleKind) -> musical_scales::ScaleType {
    match kind {
        ScaleKind::Chromatic => musical_scales::ScaleType::Chromatic,
        ScaleKind::Major => musical_scales::ScaleType::Major,
        ScaleKind::Minor => musical_scales::ScaleType::Minor,
        ScaleKind::MinorMelodic => musical_scales::ScaleType::MinorMelodic,
        ScaleKind::MinorHarmonic => musical_scales::ScaleType::MinorHarmonic,
        ScaleKind::MajorPentatonic => musical_scales::ScaleType::MajorPentatonic,
        ScaleKind::MinorPentatonic => musical_scales::ScaleType::MinorPentatonic,
    }
}

/// Relies on musical_scales: Scale::new (with PitchClass::from_midi_note,
/// which reduces the root modulo 12) fills a note table that is a function
/// of root and shape alone, and Scale::note_count returns its length. The
/// table's capacity bounds the length by 127, and the fill loop always
/// covers at least nine octaves, so at least three octaves plus seven
/// notes remain.
#[verifier::external_body]
pub fn scale_note_count(root: u8, kind: ScaleKind) -> (n: usize)
    ensures
        n == scale_len(root, kind),
        3 * spec_octave_len(kind) + 7 <= n <= 127,
{
    let s = musical_scales::Scale::new(
        musical_scales::PitchClass::from_midi_note(root),
        ms_scale_type(kind),
    );
    s.note_count()
}

/// Relies on musical_scales::Scale::octave_note_count: the number of
/// intervals the shape is built from, 11 for the chromatic scale, 7 for
/// the full scales and 5 for the pentatonic ones.
#[verifier::external_body]
pub fn scale_octave_note_count(root: u8, kind: ScaleKind) -> (n: usize)
    ensures
        n == spec_octave_len(kind),
{
    let s = musical_scales::Scale::new(
        musical_scales::PitchClass::from_midi_note(root),
        ms_scale_type(kind),
    );
    s.octave_note_count()
}

/// Relies on musical_scales::Scale::idx_to_degree: classifies table entry
/// `idx` by the shape's degree cycle, indexed modulo the cycle's length,
/// and refuses the chromatic scale.
#[verifier::external_body]
pub fn scale_degree_at(root: u8, kind: ScaleKind, idx: usize) -> (d: Option<Degree>)
    ensures
        d == spec_degree(kind, idx as int),
{
    let s = musical_scales::Scale::new(
        musical_scales::PitchClass::from_midi_note(root),
        ms_scale_type(kind),
    );
    match s.idx_to_degree(idx) {
        Ok(musical_scales::Degrees::Tonic) => Some(Degree::Tonic),
        Ok(musical_scales::Degrees::Supertonic) => Some(Degree::Supertonic),
        Ok(musical_scales::Degrees::Mediant) => Some(Degree::Mediant),
        Ok(musical_scales::Degrees::Subdominant) => Some(Degree::Subdominant),
        Ok(musical_scales::Degrees::Dominant) => Some(Degree::Dominant),
        Ok(musical_scales::Degrees::Submediant) => Some(Degree::Submediant),
        Ok(musical_scales::Degrees::Leading) => Some(Degree::Leading),
        Err(()) => None,
    }
}

/// Relies on musical_scales::Scale::idx_to_pitch and Pitch::to_midi: entry
/// `idx` of the table as a MIDI note number. The lookup succeeds exactly
/// for indices below the table's length, and every stored note was built
/// by Pitch::transpose, which never passes 127.
#[verifier::external_body]
pub fn scale_midi_at(root: u8, kind: ScaleKind, idx: usize) -> (m: Option<u8>)
    ensures
        m.is_some() <==> idx < scale_len(root, kind),
        m matches Some(v) ==> v == scale_midi(root, kind, idx as int) && v <= 127,
{
    let s = musical_scales::Scale::new(
        musical_scales::PitchClass::from_midi_note(root),
        ms_scale_type(kind),
    );
    match s.idx_to_pitch(idx) {
        Ok(p) => Some(p.to_midi()),
        Err(()) => None,
    }
}

} // verus!
