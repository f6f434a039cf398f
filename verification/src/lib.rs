//! A one-shot channel: any number of senders race to deposit a single value,
//! and one receiver awaits that value or learns that every sender has gone.
//!
//! The state of the channel is the [`Chan`] cell. Every operation on it is a
//! verified transition with an exact contract, and the handles run one such
//! transition at a time under a lock.

pub mod chan;
pub mod channel;
pub mod history;
pub mod lock;
pub mod task;

pub use chan::{Chan, ChanView, Polled};
pub use channel::{oneshot, Receiver, Recv, Sender};
