//! Accesses to device registers, as values.

use vstd::prelude::*;

verus! {

/// A byte to store in a device register.
#[derive(Clone, Copy, PartialEq, Eq, Structural, Debug)]
pub struct Write8 {
    /// The register's address.
    pub addr: usize,
    /// The byte.
    pub value: u8,
}

/// A word to store in a device register.
#[derive(Clone, Copy, PartialEq, Eq, Structural, Debug)]
pub struct Write32 {
    /// The register's address.
    pub addr: usize,
    /// The word.
    pub value: u32,
}

} // verus!
