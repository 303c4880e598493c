//! Realtime core of a polyphonic step-sequencer synthesizer: note events,
//! the voice pool with oldest-first stealing, envelope cursors and the
//! sub-block scheduler of the render callback.
//!
//! Sample values, oscillator phases and envelope gains are floating point and
//! are computed by the host program; this library decides *what* is rendered
//! *where*: which voices sound, which envelope samples each one reads, and
//! where each sub-block of an audio buffer begins and ends.
pub mod atomic_ops;
pub mod handler;
pub mod note;
pub mod pool;
pub mod process;
pub mod ui;
pub mod voice;

pub use atomic_ops::AtomicOps;
pub use handler::{VoiceHandler, NUM_VOICES};
pub use note::{NoteEvent, NoteEventData, BUFFER_SIZE};
pub use process::{BlockScheduler, RenderStep, MAX_BLOCK_SIZE};
pub use ui::{str_to_option, UIComponentState};
pub use voice::{EnvelopeSpan, Voice};
