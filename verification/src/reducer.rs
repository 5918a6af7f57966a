pub mod app;
pub mod engine;
