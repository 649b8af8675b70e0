//! Read-only cartridge image store, backing the bus range below 0x8000.

use vstd::prelude::*;

verus! {

/// Number of image bytes visible through the bus.
pub const ROM_SIZE: usize = 0x8000;

/// Read-only image store. Write attempts are rejected by the store itself:
/// the value is discarded and the contents never change.
pub struct Rom {
    data: Vec<u8>,
}

impl View for Rom {
    type V = Seq<u8>;

    closed spec fn view(&self) -> Seq<u8> {
        self.data@
    }
}

impl Rom {
    /// The store always holds exactly the bytes the bus can address.
    pub open spec fn wf(&self) -> bool {
        self@.len() == ROM_SIZE
    }

    /// Wrap an image. Only an image that fills the bus range exactly is
    /// accepted; anything shorter or longer is refused.
    pub fn new(data: Vec<u8>) -> (r: Option<Rom>)
        ensures
            r is Some <==> data@.len() == ROM_SIZE,
            r matches Some(rom) ==> rom@ == data@ && rom.wf(),
    {
        if data.len() == ROM_SIZE {
            Some(Rom { data })
        } else {
            None
        }
    }

    /// Byte of the image at `offset`.
    pub fn get_byte(&self, offset: u16) -> (b: u8)
        requires
            self.wf(),
            offset < ROM_SIZE,
        ensures
            b == self@[offset as int],
    {
        self.data[offset as usize]
    }

    /// A write attempt: the store is read-only, so the value is discarded
    /// and the image is left exactly as it was.
    pub fn set_byte(&mut self, _offset: u16, _val: u8)
        ensures
            *final(self) == *old(self),
    {
    }
}

} // verus!
