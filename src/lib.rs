//! A counter owned by one authority and stored at an address derived from it.
//!
//! The library holds the program's decisions: deriving the record's address,
//! checking a request's accounts and signatures, and reading and writing the
//! fixed-layout record. Creating the account itself is left to the caller.
use vstd::prelude::*;

pub mod error;
pub mod instruction;
pub mod lifecycle;
pub mod pda;
pub mod processor;
pub mod state;

verus! {

} // verus!
