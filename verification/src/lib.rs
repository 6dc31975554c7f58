pub mod models;
pub mod store;
pub mod posts;
pub mod laws;
