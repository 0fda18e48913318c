pub mod text;
pub mod api;
pub mod app;
pub mod input;
pub mod ui;
pub mod laws;
pub mod behaviour;
