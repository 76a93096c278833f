pub mod constants;
pub mod curve;
pub mod errors;
pub mod escrow;
pub mod fees;
pub mod guarantees;
pub mod instructions;
pub mod lifecycle;
pub mod royalty;
pub mod state;
pub mod system;
