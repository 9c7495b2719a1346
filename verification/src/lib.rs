//! A zero-knowledge demonstration over the BLS12-381 scalar field: the MiMC
//! round function, the arithmetic circuit that mirrors it, and the three
//! phases (setup, prove, verify) of a proof that its output is known.

pub mod circuit;
pub mod error;
pub mod field;
pub mod groth16;
pub mod mimc;
pub mod protocol;
pub mod r1cs;
