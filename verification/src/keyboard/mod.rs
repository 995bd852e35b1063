pub mod codes;
pub mod state;
