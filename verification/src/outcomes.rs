//! What the calls come to, said of the calls themselves.
//!
//! A law here speaks of a call by what went in and what came out, and says the rest in terms of
//! the caller's memory, the fields of the caller's records and the operations that the caller
//! supplied: which of them was asked, about what, and what its answer led to.
pub mod aggregating;
pub mod checking;
pub mod demands;
pub mod inputs;
pub mod keys;
pub mod merging;
pub mod recursion;
pub mod upkeep;
