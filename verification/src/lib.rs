//! The decisions behind a small link-shortening form: which submissions are
//! accepted, what request they turn into, how a remote answer is classified,
//! and how the outcome travels back to the form.
//!
//! Everything here works on plain values. Whoever embeds the library performs
//! the network call, reads the clipboard and the settings file, and hands the
//! results in.

pub mod bridge;
pub mod form;
pub mod outcome;
pub mod request;
pub mod session;
pub mod settings;
pub mod status;
pub mod text;
