//! Streaming text-to-speech pipeline: the decisions of the generation
//! worker, the playback engine, the cancellation coordinator and the
//! temporary-file registry, as verified state machines.

pub mod audio;
pub mod cancel;
pub mod engine;
pub mod error;
pub mod hotkey;
pub mod json;
pub mod laws;
pub mod model;
pub mod paths;
pub mod pipeline;
pub mod playback;
pub mod preservation;
pub mod processes;
pub mod queue;
pub mod registry;
pub mod request;
pub mod setup;
pub mod text;
pub mod transcription;
pub mod voice;
