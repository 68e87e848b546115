pub mod resolver;
pub mod spotify;
pub mod youtube;
