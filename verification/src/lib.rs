//! Verified logic around the liquid-dsp multi-stage resampler: the capacity
//! check that guards every native resampling pass, and the plan by which the
//! native library is configured and compiled.

use vstd::prelude::*;
use crate::text::{decimal, push_decimal};

pub mod config;
pub mod filter;
pub mod kernel;
pub mod plan;
pub mod rate;
pub mod rules;
pub mod table;
pub mod text;

verus! {

/// The one recoverable failure of the wrapper: the destination buffer handed
/// to a resampling pass is too small.
#[derive(Debug, PartialEq, Eq, Structural)]
pub enum Error {
    /// `CapacityError(needed, found)`: the pass needs room for `needed`
    /// samples and the destination holds only `found`.
    CapacityError(usize, usize),
}

impl Error {
    /// The message of the error: it states the needed and the found
    /// capacity.
    pub open spec fn message_text(self) -> Seq<char> {
        match self {
            Error::CapacityError(needed, found) => {
                "Capacity for output buffer is too small. Need at least "@ + decimal(
                    needed as nat,
                ) + " bytes. Only have "@ + decimal(found as nat) + " bytes."@
            },
        }
    }

    /// The message of the error.
    pub fn message(&self) -> (text: String)
        ensures
            text@ == self.message_text(),
    {
        match self {
            Error::CapacityError(needed, found) => {
                let mut text = String::from_str(
                    "Capacity for output buffer is too small. Need at least ",
                );
                push_decimal(&mut text, *needed);
                text.append(" bytes. Only have ");
                push_decimal(&mut text, *found);
                text.append(" bytes.");
                text
            },
        }
    }
}

} // verus!
