//! Sessions of an Epic wallet with an Epicbox relay: the protocol's requests and
//! responses, the subscriber that answers the relay, the publisher that posts and
//! cancels transactions, and the one-shot and listening sessions made of them.
//!
//! Everything that decides is here and is verified; everything that waits, signs
//! or sends happens outside. A task takes one step at a time: a step receives the
//! reply to the last effect and returns the effects to perform next and, in the
//! end, the outcome of the task.
pub mod broker;
pub mod channel;
pub mod controller;
pub mod effect;
pub mod error;
pub mod laws;
pub mod listener;
pub mod outside;
pub mod protocol;
pub mod subscribe;
pub mod text;
pub mod wallet;
