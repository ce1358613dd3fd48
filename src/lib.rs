pub mod balances;
pub mod keymap;
pub mod proof_of_existence;
pub mod runtime;
pub mod support;
pub mod system;
pub mod types;
