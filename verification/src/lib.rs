//! Batch MIDI-to-audio render orchestration: render settings, slice timing
//! with fractional-carry accounting, soundfont and render job pools, and
//! codec writer configuration, with machine-checked contracts.

pub mod dsp;
pub mod errors;
pub mod midi;
pub mod midi_list;
pub mod midi_pool;
pub mod render_machine;
pub mod render_manager;
pub mod settings;
pub mod sf_list;
pub mod soundfont_pool;
pub mod state;
pub mod tabs;
pub mod timing;
pub mod ui;
pub mod utils;
pub mod writer;
