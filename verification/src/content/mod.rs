pub mod types;
pub mod checks;
pub mod collection;
pub mod models;
