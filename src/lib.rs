//! One-shot single-producer, single-consumer channel: the coordination protocol on the
//! shared state word, verified step by step.
pub mod channel;
pub mod errors;
pub mod state;

pub use errors::{DroppedSenderError, RecvError, RecvTimeoutError, SendError, TryRecvError};
pub use state::{closed, init};
