pub mod cpu;
pub mod fault;
pub mod flags;
pub mod instructions;
pub mod lemmas;
