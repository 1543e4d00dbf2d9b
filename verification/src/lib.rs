//! Deep-link handling for a chat bot's start command: the argument of the
//! command is decoded into referral and query parameters, and the parameters
//! are assembled into the link that the bot answers with.
//!
//! - [`payload`] decodes the argument of a command into its parameters.
//! - [`link`] composes the link and the text of the answer.
//! - [`start`] leads from an incoming event to the answer for it.
//! - [`text`] holds what the others need of texts: searching and joining.
//! - [`laws`] states what holds of the decoder and the composer on all inputs.
//! - [`outside`] holds the calls into other crates, whose contracts are
//!   believed and not proved.

pub mod laws;
pub mod link;
pub mod outside;
pub mod payload;
pub mod start;
pub mod text;
