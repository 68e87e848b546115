pub mod converter;
pub mod subtitle;
