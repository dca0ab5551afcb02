//! A beat-synchronized drum-fill scheduler.
//!
//! A backing drum loop plays forever, quantized to a shared tempo clock.
//! On request, a drum fill of a suitable length is queued so that it starts
//! on a musical beat boundary and ends exactly on a downbeat, after which
//! the loop resumes. The scheduler decides *what* to schedule and *when* to
//! quantize it; an external audio engine executes the resulting quantized
//! action sequences and reports back through asynchronous markers.

pub mod beat;
pub mod beat_display;
pub mod playback;
pub mod sequence;
