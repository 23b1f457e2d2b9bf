//! A flat, byte-addressable memory unit covering the whole 16-bit address
//! space.

use vstd::prelude::*;

verus! {

/// Number of addressable bytes.
pub const SIZE: usize = 0x10000;

/// The memory unit: one byte for each 16-bit address.
pub struct Mmu {
    bytes: Vec<u8>,
}

impl View for Mmu {
    type V = Seq<u8>;

    closed spec fn view(&self) -> Seq<u8> {
        self.bytes@
    }
}

impl Mmu {
    /// Every address has its byte.
    pub open spec fn wf(&self) -> bool {
        self@.len() == SIZE
    }

    /// A memory unit whose bytes are all zero.
    pub fn new() -> (r: Self)
        ensures
            r.wf(),
            forall|i: int| 0 <= i < SIZE ==> #[trigger] r@[i] == 0,
    {
        let mut bytes: Vec<u8> = Vec::new();
        while bytes.len() < SIZE
            invariant
                bytes@.len() <= SIZE,
                forall|i: int| 0 <= i < bytes@.len() ==> #[trigger] bytes@[i] == 0,
            decreases SIZE - bytes@.len(),
        {
            bytes.push(0);
        }
        Mmu { bytes }
    }

    /// The byte at `address`.
    pub fn read(&self, address: u16) -> (r: u8)
        requires
            self.wf(),
        ensures
            r == self@[address as int],
    {
        self.bytes[address as usize]
    }

    /// Stores `value` at `address`.
    pub fn write(&mut self, address: u16, value: u8)
        requires
            old(self).wf(),
        ensures
            final(self)@ == old(self)@.update(address as int, value),
            final(self).wf(),
    {
        self.bytes.set(address as usize, value);
    }

    /// Copies `data` into memory from address `start` on.
    pub fn load(&mut self, start: u16, data: &[u8])
        requires
            old(self).wf(),
            start + data@.len() <= SIZE,
        ensures
            final(self).wf(),
            final(self)@.len() == old(self)@.len(),
            forall|i: int|
                0 <= i < SIZE ==> #[trigger] final(self)@[i] == if start <= i < start + data@.len() {
                    data@[i - start]
                } else {
                    old(self)@[i]
                },
    {
        let mut k: usize = 0;
        while k < data.len()
            invariant
                self.wf(),
                start + data@.len() <= SIZE,
                k <= data@.len(),
                forall|i: int|
                    0 <= i < SIZE ==> #[trigger] self@[i] == if start <= i < start + k {
                        data@[i - start]
                    } else {
                        old(self)@[i]
                    },
            decreases data@.len() - k,
        {
            self.bytes.set(start as usize + k, data[k]);
            k = k + 1;
        }
    }
}

} // verus!
