pub mod types;
pub mod prelude;
pub mod laws;
