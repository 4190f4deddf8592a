pub mod contract;
pub mod effects;
pub mod fee;
pub mod laws;
pub mod types;
