//! The logic of a Discord bot that plays audio in voice channels and answers a few text commands.
//!
//! The library decides; the program around it talks to the network. Each decision is a function
//! from what was received, and what is known, to what is to be done.

pub mod gateway;
pub mod json;
pub mod text;
