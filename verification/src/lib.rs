//! A client for the external editor API of Tabletop Simulator.
//!
//! The game and an editor exchange JSON objects over two localhost TCP
//! connections: one on which the game listens for messages and one on which
//! the editor listens for answers. Every frame is one flat JSON object whose
//! member `messageID` names its kind, and the end of the connection ends the
//! frame.
//!
//! This crate holds the protocol and leaves the sockets to the program around
//! it, which hands received frames in as strings and takes frames to send out
//! as strings:
//!
//! - [`messages`] and [`answers`] hold what is sent and what is received,
//!   [`Message::encode`](messages::Message::encode) writes a frame and
//!   [`Answer::decode`](answers::Answer::decode) reads one;
//! - [`waiter`] holds the queue of received frames and the wait for an answer
//!   of one kind, which drops what arrives before it;
//! - [`exchange`] pairs each command with the answer that it produces and
//!   says, step by step, what is to be sent and received;
//! - [`scripts`] and [`tags`] hold what tools built on the exchange need: the
//!   Lua scripts that they have the game run, and the tags that tie an object
//!   to the file of its script;
//! - [`json`] and [`text`] state what is taken on trust from `serde_json`,
//!   `regex`, `snailquote` and std.

pub mod answers;
pub mod decode;
pub mod error;
pub mod exchange;
pub mod json;
pub mod messages;
pub mod scripts;
pub mod tags;
pub mod text;
pub mod waiter;

pub use serde_json::Value;
