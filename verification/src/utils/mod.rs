pub mod fs;
pub mod paths;
pub mod unicode;
