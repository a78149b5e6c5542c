//! A minimal runtime harness for full-screen terminal applications.
//!
//! The harness owns the terminal's raw-mode and alternate-screen state for
//! the lifetime of a session, drives a render-then-drain-events loop, and
//! restores the terminal on every exit path.  The terminal driver and the
//! input-event source are modelled as plain values so that the lifecycle
//! and the loop's scheduling decisions are verified; a thin unverified
//! shell binds the model to the real terminal device.

pub mod event_loop;
pub mod harness;
pub mod popup;
pub mod term;
pub mod wrap;

pub use event_loop::Action;
pub use event_loop::Answer;
pub use event_loop::Exit;
pub use event_loop::Fetched;
pub use event_loop::LoopInput;
pub use event_loop::LoopState;
pub use event_loop::RunReport;
pub use event_loop::TraceStep;
pub use harness::HarnessError;
pub use harness::Journal;
pub use popup::Buffer;
pub use popup::Cell;
pub use popup::Popup;
pub use popup::Rect;
pub use popup::Style;
pub use term::TermState;
