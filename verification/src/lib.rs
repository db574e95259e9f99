//! A single-register arithmetic accumulator: the state machine behind a
//! simple calculator.
//!
//! The accumulator consumes one token per key press and keeps the display
//! text, the pending operator with its left operand, and an append-only
//! history of completed computations.
//!
//! It does no arithmetic of its own. Reading a number from text, applying an
//! operator to two operands and rendering a number as text are the host's
//! part: for each token the accumulator says which of these it needs
//! ([`Accumulator::request`]), and it takes the token together with the
//! host's answer ([`Accumulator::submit`]). Numbers cross that border as
//! plain values, a bit pattern and a text ([`Number`]).
//!
//! What the accumulator does is stated against a mathematical model
//! ([`State`]); what holds of every run is proved in [`theorems`].
pub mod accumulator;
pub mod error;
pub mod exchange;
pub mod history;
pub mod number;
pub mod operator;
pub mod state;
pub mod text;
pub mod theorems;
pub mod token;

pub use accumulator::Accumulator;
pub use error::ErrorKind;
pub use exchange::{Reply, Request};
pub use history::HistoryEntry;
pub use number::Number;
pub use operator::Operator;
pub use state::State;
pub use token::Token;
