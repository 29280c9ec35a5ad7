use vstd::prelude::*;

verus! {

/// Where the assembler currently is: the physical offset in the rom image,
/// the logical address the cpu sees, the bytes emitted since the current
/// section began, and the selected rom bank.
#[derive(Debug, Copy, Clone)]
pub struct AddrCounter {
    pub physical_addr: u32,
    pub logical_addr: u32,
    pub num_bytes: u32,
    pub bank: u32,
}

impl AddrCounter {
    /// The counter at the start of the rom: everything zero.
    pub fn new() -> (c: Self)
        ensures
            c.physical_addr == 0,
            c.logical_addr == 0,
            c.num_bytes == 0,
            c.bank == 0,
    {
        Self { physical_addr: 0, logical_addr: 0, num_bytes: 0, bank: 0 }
    }

    /// The counter after `inc` more bytes. The physical address must not
    /// overflow; the logical address and the byte count wrap around.
    pub open spec fn incremented(self, inc: u32) -> AddrCounter {
        AddrCounter {
            physical_addr: (self.physical_addr + inc) as u32,
            logical_addr: self.logical_addr.wrapping_add(inc),
            num_bytes: self.num_bytes.wrapping_add(inc),
            bank: self.bank,
        }
    }

    /// Moves all three addresses `inc` bytes forward.
    pub fn increment_by(&mut self, inc: u32)
        requires
            old(self).physical_addr + inc <= u32::MAX,
        ensures
            *final(self) == old(self).incremented(inc),
    {
        self.physical_addr = self.physical_addr + inc;
        self.logical_addr = self.logical_addr.wrapping_add(inc);
        self.num_bytes = self.num_bytes.wrapping_add(inc);
    }
}

/// An open `.section`: its attributes and the counter as it was before it.
#[derive(Debug)]
pub struct Context {
    pub name: Option<String>,
    pub size: Option<u32>,
    pub vaddr: Option<u32>,
    pub paddr: Option<u32>,
    pub align: Option<u32>,
    pub address: AddrCounter,
}

} // verus!
