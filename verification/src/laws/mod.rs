//! What the library promises, stated of its inputs and results.

pub mod calls;
pub mod keys;
pub mod numbers;
pub mod order;
pub mod polling;
pub mod quoting;
pub mod screen;
pub mod settings;
pub mod state;
pub mod text;
pub mod wire;
