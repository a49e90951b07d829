//! Metadata resolution for a collaborative, token-backed creative work
//! (a "beat"): each call takes the contract identity, the accumulated
//! metadata history and a new transaction (or mint parameters), and
//! deterministically produces the next ordered metadata list, or rejects
//! the call with a reason.

use vstd::prelude::*;

pub mod command;
pub mod contract;
pub mod abi;
pub mod hexcodec;
pub mod payload;
pub mod records;
pub mod types;

verus! {

/// Stateless acknowledgment of a clone request: always succeeds.
pub fn on_clone() -> (r: bool)
    ensures
        r == true,
{
    true
}

} // verus!
