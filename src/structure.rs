pub mod models;
pub mod response;
