//! Verified core of a desktop media player: playback session state, stream
//! bookkeeping, frame queues, media tags, transcode queue and source handling.

pub mod text;
pub mod floatbits;
pub mod paths;
pub mod tags;
pub mod shell;
pub mod updates;
pub mod render;
pub mod perf;
pub mod events;
pub mod system;
pub mod error;
pub mod playback;
pub mod codecs;
pub mod transcode;
