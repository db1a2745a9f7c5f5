//! A sound device stream handle that decides, step by step, what the native
//! sound-server calls are to be and what their results mean: opening and
//! configuring a stream, interleaved writes with recovery from underruns,
//! and releasing the stream exactly once.

pub mod params;
pub mod pcm;
pub mod lemmas;
