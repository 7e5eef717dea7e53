//! A cycle-stepped simulator for the RV32I base integer instruction set.

pub mod alu;
pub mod cpu;
pub mod inst;
pub mod laws;
pub mod model;
pub mod reg;
pub mod rom;
