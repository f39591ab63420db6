//! A verified gate between caller-supplied addresses and typed overlays of
//! physical memory, and the realm-service handlers built on top of it.
use vstd::prelude::*;

pub mod error;
pub mod granule;
pub mod hostcall;
pub mod raw_ptr;
pub mod rec;
pub mod ripas;

verus! {

} // verus!
