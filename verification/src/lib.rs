//! The session protocol of a frame-by-frame voice activity detector.
//!
//! A session keeps the operating mode and the input sample rate that are in
//! effect, decides which frames may be handed to the detection engine, and
//! turns what the engine answers into results. The engine itself is not part
//! of this crate: a session owns a handle to it, and every function that
//! depends on an answer of the engine takes that answer as an argument.
//!
//! To drive a session:
//!
//! - Create the engine and open the session on the outcome with
//!   [`Fvad::new`].
//! - To configure, hand [`Mode::ordinal`] or [`SampleRate::hz`] to the
//!   engine, read its status code with [`ConfigReply::from_code`], and record
//!   the answer with [`Fvad::set_mode`] or [`Fvad::set_sample_rate`].
//! - For a frame, ask [`Fvad::accepts_frame`]. Hand an accepted frame to the
//!   engine, read its status code with [`FrameReply::from_code`], and get the
//!   result from [`Fvad::is_voice_frame`].
//! - To start over, reset the engine and call [`Fvad::reset`].
//!
//! A status code that the engine does not document is read as `None`: the
//! engine has broken its contract, and the session is not told anything.

pub mod engine;
pub mod mode;
pub mod sample_rate;
pub mod session;

pub use engine::{ConfigReply, FrameReply};
pub use mode::Mode;
pub use sample_rate::SampleRate;
pub use session::{Config, Fvad};
