//! The logic of a dashboard for Network UPS Tools.

pub mod app;
pub mod args;
pub mod auth;
pub mod client;
pub mod config;
pub mod geometry;
pub mod history;
pub mod input;
pub mod items;
pub mod laws;
pub mod number;
pub mod nut;
pub mod panels;
pub mod plan;
pub mod popups;
pub mod quote;
pub mod style;
pub mod text;
pub mod trend;
pub mod ui;
pub mod vars;
pub mod worker;
