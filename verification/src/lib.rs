//! The session logic of an IMAP server.
//!
//! [`Session`] is a state machine: it is told what happened and says what is to
//! be done next. [`model`] is what its contracts speak of.

pub mod action;
pub mod arguments;
pub mod command;
pub mod courses;
pub mod event;
pub mod fetching;
pub mod laws;
pub mod listing;
pub mod message;
pub mod model;
pub mod path;
pub mod pattern;
pub mod purpose;
pub mod replies;
pub mod session;
pub mod text;
pub mod wording;

pub use session::Session;
