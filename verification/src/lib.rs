//! Compiles a compact textual music notation into performance actions,
//! encodes the actions as a single MIDI track and schedules its playback.

pub mod folding;
pub mod midi_action;
pub mod note;
pub mod play;
pub mod text_to_midi;
mod outside;
pub mod time_state;
pub mod track;
