//! The decisions of an audio host on CoreAudio: which properties of the audio system are watched
//! behind a stream, what becomes of each change that is noticed, and how a stream is played,
//! paused and monitored.
//!
//! Calls into the audio system, threads and channels are left to the program around this
//! library. Where such work alternates with decisions, a state machine names the work that is due
//! and takes what came of it: [`system_audio::SystemAudioThread`], [`delivery::Delivery`],
//! [`monitor::ListenerThread`] and [`monitor::MonitorStartup`].

pub mod delivery;
pub mod error;
pub mod host;
pub mod latch;
pub mod listeners;
pub mod monitor;
pub mod plan;
pub mod property;
pub mod registration;
pub mod shutdown;
pub mod stream;
pub mod system_audio;

pub use error::{Error, ErrorKind};
pub use host::{Device, Host};
pub use stream::{FrameCount, Stream};
