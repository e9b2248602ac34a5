//! What can be wrong between the two lists of frequencies.
use vstd::prelude::*;

verus! {

#[derive(Debug, Clone, Copy)]
pub enum Error {
    MismatchedFrequencyIds { global_frequency_id: usize, relative_frequency_id: usize },
    InvalidGlobalFrequencyId(usize),
}

} // verus!
