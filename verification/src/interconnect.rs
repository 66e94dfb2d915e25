//! The interconnect reports where in the address map a write lands, for
//! diagnostics and tracing of memory-mapped I/O. It owns no bytes of its
//! own: the memory unit is the sole owner of the backing store.

use vstd::prelude::*;
use crate::mem::{classify, region_of, Region};

verus! {

/// Classification hook consulted by the execution engine on writes.
#[derive(Clone, Copy, Debug, PartialEq, Eq, Structural)]
pub struct Interconnect {}

impl Interconnect {
    pub fn new() -> (r: Interconnect)
        ensures
            r == (Interconnect {  }),
    {
        Interconnect {  }
    }

    /// There is no bus-level word source; reads report zero.
    pub fn read_word(&mut self) -> (r: u16)
        ensures
            r == 0u16,
            *final(self) == *old(self),
    {
        0
    }

    /// Report the region that a write of `value` to `location` lands in.
    /// The value itself does not influence the classification.
    pub fn write_word(&mut self, value: u8, location: u16) -> (r: Region)
        ensures
            r == region_of(location),
            *final(self) == *old(self),
    {
        let _ = value;
        classify(location)
    }

    /// Per-iteration hook of the outer run loop; the interconnect keeps
    /// no state, so there is nothing to advance.
    pub fn step(&mut self)
        ensures
            *final(self) == *old(self),
    {
    }
}

} // verus!
