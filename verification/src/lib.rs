pub mod errors;
pub mod instructions;
pub mod laws;
pub mod math;
pub mod state;
