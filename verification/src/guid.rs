use vstd::prelude::*;

verus! {

/// A 128-bit platform folder identifier, held as plain fields so that
/// contracts can speak of its exact value.
#[derive(Clone, Copy, PartialEq, Eq, Debug)]
pub struct Guid {
    pub data1: u32,
    pub data2: u16,
    pub data3: u16,
    pub data4: [u8; 8],
}

impl Guid {
    /// Builds an identifier from its four parts.
    pub fn new(data1: u32, data2: u16, data3: u16, data4: [u8; 8]) -> (g: Guid)
        ensures
            g == (Guid { data1, data2, data3, data4 }),
    {
        Guid { data1, data2, data3, data4 }
    }
}

} // verus!
