//! Request intake and upstream-call rules of a small token-idea service,
//! kept free of I/O so that every decision is stated and proved.

pub mod client;
pub mod error;
pub mod extract;
pub mod idea;
pub mod intake;
pub mod json;
pub mod multipart;
pub mod submission;
pub mod text;
