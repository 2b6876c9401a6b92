//! Verified core of a minimal gain-effect audio plugin.
//!
//! The library holds the logic that is worth proving: a bounded
//! single-producer/single-consumer MIDI event channel, the shared gain
//! parameter with its indexed get/set/name/text protocol, the MIDI batch
//! handler of the audio path, and the editor's poll and open/close state
//! machine. Host, window and audio-buffer glue lives outside the library.

pub mod channel;
pub mod editor;
pub mod midi;
pub mod params;
pub mod processor;
pub mod text;
