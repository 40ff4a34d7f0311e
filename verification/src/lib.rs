//! The core of a relay between many subscribers and one admin chat: every message of a
//! subscriber is copied into the admin chat, and every reply written there is copied back
//! to the subscriber, as a reply to the message it answers.
//!
//! - [`services`] holds the two stores: the links between a message and its copy, and the
//!   directory of users with their block state.
//! - [`access`] decides who reaches which handlers.
//! - [`handlers`] decide, step by step, what is done with an update: what to look up, what
//!   to send, what to record.
//! - [`text`] and [`time`] write the numbers and the times that messages show.
//!
//! The library sends nothing and stores nothing outside the process. Its stores are held in
//! memory; they say what a store must do, and the statements for a database are built
//! beside them. The handlers take what has come back from the transport and the store so
//! far, and answer with the next step.

pub mod access;
pub mod handlers;
pub mod services;
pub mod text;
pub mod time;
