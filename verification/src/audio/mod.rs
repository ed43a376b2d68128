pub mod audio_clock;
pub mod envelope;
pub mod generator;
pub mod sequencer;
pub mod song;
pub mod utils;
