//! What single calls promise: what comes back, or what changes, for what goes in.

pub mod basics;
pub mod dashboard;
pub mod drawing;
pub mod protocol;
pub mod settings;
