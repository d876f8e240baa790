//! Effect subsystems, each with its own population or animation state.
pub mod airplanes;
pub mod clouds;
pub mod drift;
pub mod lightning;
pub mod precipitation;
pub mod sun;

use vstd::prelude::*;

verus! {

/// Relies on rand::random: a value drawn from the thread-local generator;
/// nothing is promised of it.
pub assume_specification<T>[ rand::random::<T> ]() -> (r: T)
    where
        rand::distr::StandardUniform: rand::distr::Distribution<T>,
;

} // verus!
