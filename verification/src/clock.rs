use vstd::prelude::*;

verus! {

#[verifier::external_type_specification]
#[verifier::external_body]
pub struct ExClockUpdater(audio_clock::ClockUpdater);

#[verifier::external_type_specification]
#[verifier::external_body]
pub struct ExClockConsumer(audio_clock::ClockConsumer);

/// Relies on audio_clock::ClockConsumer::raw_frames: the number of frames
/// the shared sample counter has accumulated. The counter is shared
/// between both execution contexts, so nothing is promised of the value;
/// whoever reads it must hold for every outcome.
#[verifier::external_body]
pub fn clock_raw_frames(c: &audio_clock::ClockConsumer) -> usize {
    c.raw_frames()
}

/// Relies on audio_clock::ClockUpdater::increment: advances the shared
/// sample counter by the block's frame count. The counter would wrap only
/// after centuries of audio; its value is not modeled here, so nothing is
/// promised of it.
#[verifier::external_body]
pub fn clock_increment(u: &mut audio_clock::ClockUpdater, frames: usize) {
    u.increment(frames);
}

/// Relies on Clone for audio_clock::ClockConsumer: another read handle
/// onto the same shared counter.
#[verifier::external_body]
pub fn clock_consumer_clone(c: &audio_clock::ClockConsumer) -> audio_clock::ClockConsumer {
    c.clone()
}

} // verus!
