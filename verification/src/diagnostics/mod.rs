//! Error values shared by the library.

pub mod error;
