//! An interactive terminal-prompt builder.
//!
//! A prompt is configured fluently (echo suppression, confirmation loop,
//! colours, a validation predicate, redirected input and output) and then
//! evaluated with `ask`, which prints the message, reads one line of input,
//! validates it and returns it.

pub mod buffer;
pub mod builder;
pub mod colour;
pub mod errors;
pub mod laws;

pub use buffer::InBuffer;
pub use buffer::OutBuffer;
pub use builder::input;
pub use builder::Answer;
pub use builder::Sink;
pub use builder::Source;
pub use builder::StateBuilder;
pub use colour::Colour;
pub use errors::AskError;
