//! Symmetric cipher selection.
pub mod cipher;
