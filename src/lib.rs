pub mod laws;
pub mod lists;
pub mod models;
pub mod store;
pub mod tasks;
pub mod text;
