//! General read/write byte store, backing the working-memory bus range.

use vstd::prelude::*;

verus! {

/// Read/write store of a size fixed at construction.
pub struct Ram {
    data: Vec<u8>,
}

impl View for Ram {
    type V = Seq<u8>;

    closed spec fn view(&self) -> Seq<u8> {
        self.data@
    }
}

impl Ram {
    /// A store of `size` bytes, all zero.
    pub fn new(size: usize) -> (r: Ram)
        ensures
            r@.len() == size,
            forall|i: int| 0 <= i < size ==> r@[i] == 0u8,
    {
        let mut data: Vec<u8> = Vec::new();
        let mut i: usize = 0;
        while i < size
            invariant
                i <= size,
                data@.len() == i,
                forall|j: int| 0 <= j < i ==> data@[j] == 0u8,
            decreases size - i,
        {
            data.push(0);
            i = i + 1;
        }
        Ram { data }
    }

    /// Byte stored at `offset`.
    pub fn get_byte(&self, offset: u16) -> (b: u8)
        requires
            offset < self@.len(),
        ensures
            b == self@[offset as int],
    {
        self.data[offset as usize]
    }

    /// Store `val` at `offset`.
    pub fn set_byte(&mut self, offset: u16, val: u8)
        requires
            offset < old(self)@.len(),
        ensures
            final(self)@ == old(self)@.update(offset as int, val),
    {
        self.data[offset as usize] = val;
    }

    /// Zero every byte without changing the store's size or reallocating.
    pub fn reset(&mut self)
        ensures
            final(self)@.len() == old(self)@.len(),
            forall|i: int| 0 <= i < final(self)@.len() ==> final(self)@[i] == 0u8,
    {
        let mut i: usize = 0;
        while i < self.data.len()
            invariant
                i <= self.data@.len(),
                self.data@.len() == old(self).data@.len(),
                forall|j: int| 0 <= j < i ==> self.data@[j] == 0u8,
            decreases self.data@.len() - i,
        {
            self.data[i] = 0;
            i = i + 1;
        }
    }
}

} // verus!
