//! Memory-bus dispatcher: routes every CPU byte access to the cartridge
//! image, the working memory, the unmapped sentinel range, or the I/O
//! register bank that the dispatcher serves itself.

use vstd::prelude::*;

use crate::gpu::{Gpu, GpuView, tick_next};

pub mod ram;
pub mod rom;

verus! {

/// Fatal access faults. The simulation driver is expected to halt on them
/// rather than continue with undefined state.
#[derive(Clone, Copy, Debug, PartialEq, Eq, Structural)]
pub enum BusFault {
    /// Read or write of an address range with no backing hardware
    Unmapped,
    /// Write to the hardware-read-only scanline register
    ReadOnlyScanline,
}

/// The closed set of bus targets an address can decode to.
#[derive(Clone, Copy, Debug, PartialEq, Eq, Structural)]
pub enum Target {
    /// Read-only cartridge image store
    Rom,
    /// General read/write store
    Ram,
    /// Sentinel for addresses with no backing hardware
    Unmapped,
    /// I/O register range, served by the dispatcher itself
    Io,
}

/// Mathematical state of the whole address space.
pub struct BusView {
    /// Cartridge image bytes, addresses below 0x8000
    pub rom: Seq<u8>,
    /// Working memory bytes, addresses 0x8000..0xE000
    pub ram: Seq<u8>,
    /// I/O register cells, addresses from 0xFF00
    pub io: Seq<u8>,
    /// Scanline published by the video subsystem
    pub line: u8,
    /// Ticks the video subsystem has been stepped
    pub ticks: u64,
}

/// The address decodes to the image store.
pub open spec fn in_rom(addr: u16) -> bool {
    addr < 0x8000
}

/// The address decodes to the working memory.
pub open spec fn in_ram(addr: u16) -> bool {
    0x8000 <= addr && addr < 0xE000
}

/// The address has no backing hardware.
pub open spec fn in_unmapped(addr: u16) -> bool {
    0xE000 <= addr && addr < 0xFF00
}

/// The address lands in the I/O register range.
pub open spec fn in_io(addr: u16) -> bool {
    0xFF00 <= addr
}

/// Offset of the hardware-read-only scanline register within the I/O range.
pub const SCANLINE_OFFSET: u16 = 0x44;

/// The four ranges partition the 16-bit address space in this exact order,
/// first match wins.
pub open spec fn decode(addr: u16) -> (Target, u16) {
    if in_rom(addr) {
        (Target::Rom, addr)
    } else if in_ram(addr) {
        (Target::Ram, (addr - 0x8000) as u16)
    } else if in_unmapped(addr) {
        (Target::Unmapped, addr)
    } else {
        (Target::Io, (addr - 0xFF00) as u16)
    }
}

/// The stores hold exactly the bytes their bus ranges can address.
pub open spec fn bus_wf(s: BusView) -> bool {
    &&& s.rom.len() == 0x8000
    &&& s.ram.len() == 0x6000
    &&& s.io.len() == 0x100
}

/// What a read of `addr` returns: the byte of the store the address decodes
/// to, the live scanline for the mirror register, or the fault for the
/// unmapped range.
pub open spec fn bus_read(s: BusView, addr: u16) -> Result<u8, BusFault> {
    if in_rom(addr) {
        Ok(s.rom[addr as int])
    } else if in_ram(addr) {
        Ok(s.ram[addr - 0x8000])
    } else if in_unmapped(addr) {
        Err(BusFault::Unmapped)
    } else if addr - 0xFF00 == SCANLINE_OFFSET {
        Ok(s.line)
    } else {
        Ok(s.io[addr - 0xFF00])
    }
}

/// What a write of `val` at `addr` does: the image store discards the value,
/// the working memory and the register bank store it, the scanline register
/// and the unmapped range fault and leave everything unchanged.
pub open spec fn bus_write(s: BusView, addr: u16, val: u8) -> Result<BusView, BusFault> {
    if in_rom(addr) {
        Ok(s)
    } else if in_ram(addr) {
        Ok(BusView { ram: s.ram.update(addr - 0x8000, val), ..s })
    } else if in_unmapped(addr) {
        Err(BusFault::Unmapped)
    } else if addr - 0xFF00 == SCANLINE_OFFSET {
        Err(BusFault::ReadOnlyScanline)
    } else {
        Ok(BusView { io: s.io.update(addr - 0xFF00, val), ..s })
    }
}

/// The state after a write attempt: changed on success, untouched on a fault.
pub open spec fn after_write(s: BusView, addr: u16, val: u8) -> BusView {
    match bus_write(s, addr, val) {
        Ok(s2) => s2,
        Err(_) => s,
    }
}

/// Interconnect used by the CPU to reach the image store, the working
/// memory, the video subsystem and the I/O registers.
pub struct Interconnect {
    rom: rom::Rom,
    ram: ram::Ram,
    gpu: Gpu,
    io: Vec<u8>,
}

impl View for Interconnect {
    type V = BusView;

    closed spec fn view(&self) -> BusView {
        BusView {
            rom: self.rom@,
            ram: self.ram@,
            io: self.io@,
            line: self.gpu@.line,
            ticks: self.gpu@.ticks,
        }
    }
}

impl Interconnect {
    /// The owned stores cover their bus ranges exactly.
    pub open spec fn wf(&self) -> bool {
        bus_wf(self@)
    }

    /// Wire a fresh address space around a cartridge image: 24 KiB of zeroed
    /// working memory, 256 zeroed register cells, the video subsystem at its
    /// power-on state.
    pub fn new(rom: rom::Rom) -> (r: Interconnect)
        requires
            rom.wf(),
        ensures
            r.wf(),
            r@.rom == rom@,
            forall|i: int| 0 <= i < 0x6000 ==> r@.ram[i] == 0u8,
            forall|i: int| 0 <= i < 0x100 ==> r@.io[i] == 0u8,
            r@.line == 0,
            r@.ticks == 0,
    {
        // 8 KiB video RAM + 2 banks of RAM
        let ram = ram::Ram::new(0x6000);
        let io = ram_bank_256();
        let gpu = Gpu::new();
        Interconnect { rom, ram, gpu, io }
    }

    /// Zero the working memory, the register bank and the video subsystem;
    /// the cartridge image is untouched.
    pub fn reset(&mut self)
        requires
            old(self).wf(),
        ensures
            final(self).wf(),
            final(self)@.rom == old(self)@.rom,
            forall|i: int| 0 <= i < 0x6000 ==> final(self)@.ram[i] == 0u8,
            forall|i: int| 0 <= i < 0x100 ==> final(self)@.io[i] == 0u8,
            final(self)@.line == 0,
            final(self)@.ticks == 0,
    {
        self.ram.reset();
        self.gpu.reset();
        let mut i: usize = 0;
        while i < self.io.len()
            invariant
                i <= self.io@.len(),
                self.io@.len() == old(self).io@.len(),
                forall|j: int| 0 <= j < i ==> self.io@[j] == 0u8,
                self.rom == old(self).rom,
                self.ram@.len() == old(self).ram@.len(),
                forall|j: int| 0 <= j < self.ram@.len() ==> self.ram@[j] == 0u8,
                self.gpu@ == (GpuView { line: 0, ticks: 0 }),
            decreases self.io@.len() - i,
        {
            self.io[i] = 0;
            i = i + 1;
        }
    }

    /// Advance the video subsystem by one tick.
    pub fn step(&mut self)
        ensures
            final(self)@ == (BusView { ticks: tick_next(old(self)@.ticks), ..old(self)@ }),
    {
        self.gpu.step();
    }

    /// Called by the pixel pipeline, which lies outside this core, each time
    /// its scanline advances.
    pub fn set_line(&mut self, line: u8)
        ensures
            final(self)@ == (BusView { line, ..old(self)@ }),
    {
        self.gpu.set_line(line);
    }

    /// Decode `addr` into the bus target it falls in and the offset within
    /// that target's range, in the fixed order of the address map.
    pub fn get_peripheral(addr: u16) -> (r: (Target, u16))
        ensures
            r == decode(addr),
    {
        if addr < 0x8000 {
            (Target::Rom, addr)
        } else if addr < 0xE000 {
            (Target::Ram, addr - 0x8000)
        } else if addr < 0xFF00 {
            (Target::Unmapped, addr)
        } else {
            (Target::Io, addr - 0xFF00)
        }
    }

    /// Read the byte the bus maps at `addr`; a fault for the unmapped range.
    pub fn get_byte(&self, addr: u16) -> (r: Result<u8, BusFault>)
        requires
            self.wf(),
        ensures
            r == bus_read(self@, addr),
    {
        let (target, offset) = Self::get_peripheral(addr);
        match target {
            Target::Rom => Ok(self.rom.get_byte(offset)),
            Target::Ram => Ok(self.ram.get_byte(offset)),
            Target::Unmapped => Err(BusFault::Unmapped),
            Target::Io => {
                if offset == SCANLINE_OFFSET {
                    // Scanline register: mirrors the live video state, the
                    // stored cell is never consulted
                    Ok(self.gpu.get_line())
                } else {
                    // Registers with no further special handling fall back
                    // to their raw stored cell
                    Ok(self.io[offset as usize])
                }
            },
        }
    }

    /// Write `val` at `addr`; a fault for the unmapped range and for the
    /// read-only scanline register, both leaving the state untouched. The
    /// image store discards the value itself.
    pub fn set_byte(&mut self, addr: u16, val: u8) -> (r: Result<(), BusFault>)
        requires
            old(self).wf(),
        ensures
            final(self).wf(),
            bus_write(old(self)@, addr, val) is Ok ==> r == Ok::<(), BusFault>(()),
            bus_write(old(self)@, addr, val) matches Err(e) ==> r == Err::<(), BusFault>(e),
            final(self)@ == after_write(old(self)@, addr, val),
    {
        let (target, offset) = Self::get_peripheral(addr);
        match target {
            Target::Rom => {
                // The store rejects the write and discards the value;
                // this is recoverable, not fatal
                self.rom.set_byte(offset, val);
                Ok(())
            },
            Target::Ram => {
                self.ram.set_byte(offset, val);
                Ok(())
            },
            Target::Unmapped => Err(BusFault::Unmapped),
            Target::Io => {
                if offset == SCANLINE_OFFSET {
                    Err(BusFault::ReadOnlyScanline)
                } else {
                    // Registers with no further special handling fall back
                    // to their raw stored cell
                    self.io[offset as usize] = val;
                    Ok(())
                }
            },
        }
    }
}

/// The four address ranges partition the full 16-bit space exactly, with no
/// gaps and no overlaps.
pub proof fn lemma_address_ranges_partition(addr: u16)
    ensures
        in_rom(addr) || in_ram(addr) || in_unmapped(addr) || in_io(addr),
        in_rom(addr) ==> !in_ram(addr) && !in_unmapped(addr) && !in_io(addr),
        in_ram(addr) ==> !in_rom(addr) && !in_unmapped(addr) && !in_io(addr),
        in_unmapped(addr) ==> !in_rom(addr) && !in_ram(addr) && !in_io(addr),
        in_io(addr) ==> !in_rom(addr) && !in_ram(addr) && !in_unmapped(addr),
{
}

/// Decoding yields the target of the range the address falls in, and an
/// offset that its store can always hold: bounds failures are impossible.
pub proof fn lemma_decode_offset_in_range(addr: u16)
    ensures
        in_rom(addr) ==> decode(addr) == (Target::Rom, addr) && addr < 0x8000,
        in_ram(addr) ==> decode(addr) == (Target::Ram, (addr - 0x8000) as u16)
            && addr - 0x8000 < 0x6000,
        in_unmapped(addr) ==> decode(addr) == (Target::Unmapped, addr),
        in_io(addr) ==> decode(addr) == (Target::Io, (addr - 0xFF00) as u16)
            && addr - 0xFF00 < 0x100,
{
}

/// A read below 0x8000 returns the image store's byte at that address, and
/// no write attempt - to any address, stored, discarded or faulting -
/// changes what it returns.
pub proof fn lemma_image_reads_stable(s: BusView, addr: u16, w: u16, v: u8)
    requires
        bus_wf(s),
        in_rom(addr),
    ensures
        bus_read(s, addr) == Ok::<u8, BusFault>(s.rom[addr as int]),
        bus_read(after_write(s, w, v), addr) == bus_read(s, addr),
{
}

/// Writing the working memory and reading the same address back yields the
/// value just written.
pub proof fn lemma_work_memory_round_trip(s: BusView, addr: u16, v: u8)
    requires
        bus_wf(s),
        in_ram(addr),
    ensures
        bus_write(s, addr, v) is Ok,
        bus_read(after_write(s, addr, v), addr) == Ok::<u8, BusFault>(v),
{
}

/// Every access to the unmapped range is fatal, reads and writes alike, and
/// the faulting write leaves the state untouched.
pub proof fn lemma_unmapped_faults(s: BusView, addr: u16, v: u8)
    requires
        in_unmapped(addr),
    ensures
        bus_read(s, addr) == Err::<u8, BusFault>(BusFault::Unmapped),
        bus_write(s, addr, v) == Err::<BusView, BusFault>(BusFault::Unmapped),
        after_write(s, addr, v) == s,
{
}

/// The scanline register always reads the live video line, never a stored
/// cell, and no prior write attempt can change what it reads: a write to
/// the register itself is fatal and is discarded.
pub proof fn lemma_scanline_mirrors_video(s: BusView, w: u16, v: u8)
    requires
        bus_wf(s),
    ensures
        bus_read(s, 0xFF44) == Ok::<u8, BusFault>(s.line),
        bus_read(after_write(s, w, v), 0xFF44) == Ok::<u8, BusFault>(s.line),
        bus_write(s, 0xFF44, v) == Err::<BusView, BusFault>(BusFault::ReadOnlyScanline),
{
}

/// 256 zeroed register cells.
fn ram_bank_256() -> (r: Vec<u8>)
    ensures
        r@.len() == 0x100,
        forall|i: int| 0 <= i < 0x100 ==> r@[i] == 0u8,
{
    let mut data: Vec<u8> = Vec::new();
    let mut i: usize = 0;
    while i < 0x100
        invariant
            i <= 0x100,
            data@.len() == i,
            forall|j: int| 0 <= j < i ==> data@[j] == 0u8,
        decreases 0x100 - i,
    {
        data.push(0);
        i = i + 1;
    }
    data
}

} // verus!
