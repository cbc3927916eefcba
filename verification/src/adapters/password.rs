//! Parameters of the Argon2 password hasher.

use vstd::prelude::*;

verus! {

/// An Argon2 variant.
#[derive(Debug, Clone, Copy, PartialEq, Eq, Structural)]
pub enum Argon2Algorithm {
    Argon2d,
    Argon2i,
    Argon2id,
}

/// A version of the Argon2 algorithm.
#[derive(Debug, Clone, Copy, PartialEq, Eq, Structural)]
pub enum Argon2Version {
    V0x10,
    V0x13,
}

#[derive(Debug, Clone, Copy, PartialEq, Eq, Structural)]
pub struct Argon2Params {
    pub paralelism_degree: u32,
    pub algorithm: Argon2Algorithm,
    pub version: Argon2Version,
}

} // verus!
