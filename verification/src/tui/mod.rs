pub mod app;
pub mod events;
pub mod theme;
pub mod state;
