use vstd::prelude::*;

verus! {

/// A small linear-congruential pseudo-random source, used only to pick
/// ephemeral ports at socket construction and at automatic binds.
#[derive(Clone, Copy, Debug)]
pub struct Lcg {
    pub state: u32,
}

impl Lcg {
    pub fn new(seed: u32) -> (g: Lcg)
        ensures
            g.state == seed,
    {
        Lcg { state: seed }
    }

    /// Advance the generator and return the next raw value.
    pub fn next_u32(&mut self) -> (x: u32) {
        let wide: u64 = (self.state as u64) * 1664525 + 1013904223;
        let nv: u32 = (wide % 0x1_0000_0000) as u32;
        self.state = nv;
        nv
    }

    /// A pseudo-random port from the dynamic range; never zero, so a
    /// socket bound to it counts as bound.
    pub fn ephemeral_port(&mut self) -> (p: u16)
        ensures
            49152 <= p <= 65535,
            p != 0,
    {
        let x = self.next_u32();
        49152 + (x % 16384) as u16
    }
}

} // verus!
