//! The memory management unit: a flat 16-bit address space decoded into ten
//! physical regions.
//!
//! Every region is a contiguous byte buffer of fixed size, allocated once and
//! zero-initialized. Echo RAM owns no storage: it aliases Work RAM, so reads
//! and writes through it reach the same bytes. Each region's base address is
//! aligned so that `address XOR base == address - base` inside the region,
//! which lets the translation to an offset use a bitwise XOR. The unusable
//! range 0xFEA0-0xFEFF decodes to no region: any access against it is a
//! fatal condition, which the byte and word operations rule out up front.

use vstd::prelude::*;

use crate::cpu::registers::spec_combine;
use crate::cpu::registers::spec_high;
use crate::cpu::registers::spec_low;

verus! {

/// Runtime check for the unusable range.
pub fn is_unusable(addr: u16) -> (r: bool)
    ensures
        r == in_unusable_range(addr),
{
    0xFEA0 <= addr && addr <= 0xFEFF
}

/// A decoded address: the region it falls in, carrying the offset of the
/// byte inside that region's buffer.
#[derive(Debug, Clone, Copy, PartialEq, Eq, Structural)]
pub enum MemoryLocation {
    Cartridge(u16),
    CartridgeMBC(u16),
    CartridgeRAM(u16),
    VRAM(u16),
    WRAM(u16),
    EchoRAM(u16),
    OAM(u16),
    IO(u16),
    HRAM(u16),
    IE(u16),
}

/// The address space as plain mathematics: one byte sequence per region
/// buffer. Echo RAM has no field because it has no storage of its own.
#[verifier::ext_equal]
pub struct MemView {
    pub cartridge: Seq<u8>,
    pub cartridge_mbc: Seq<u8>,
    pub cartridge_ram: Seq<u8>,
    pub vram: Seq<u8>,
    pub wram: Seq<u8>,
    pub oam: Seq<u8>,
    pub io: Seq<u8>,
    pub hram: Seq<u8>,
    pub ie: Seq<u8>,
}

/// True iff the address lies in the unusable range, where any read or write
/// is a fatal error.
pub open spec fn in_unusable_range(addr: u16) -> bool {
    0xFEA0 <= addr <= 0xFEFF
}

/// The region an address decodes to, with the offset inside the region's
/// buffer; `None` exactly on the unusable range.
pub open spec fn spec_classify(addr: u16) -> Option<MemoryLocation> {
    if addr < 0x4000 {
        Some(MemoryLocation::Cartridge(addr))
    } else if addr < 0x8000 {
        Some(MemoryLocation::CartridgeMBC((addr - 0x4000) as u16))
    } else if addr < 0xA000 {
        Some(MemoryLocation::VRAM((addr - 0x8000) as u16))
    } else if addr < 0xC000 {
        Some(MemoryLocation::CartridgeRAM((addr - 0xA000) as u16))
    } else if addr < 0xE000 {
        Some(MemoryLocation::WRAM((addr - 0xC000) as u16))
    } else if addr < 0xFE00 {
        Some(MemoryLocation::EchoRAM((addr - 0xE000) as u16))
    } else if addr < 0xFEA0 {
        Some(MemoryLocation::OAM((addr - 0xFE00) as u16))
    } else if addr < 0xFF00 {
        None
    } else if addr < 0xFF80 {
        Some(MemoryLocation::IO((addr - 0xFF00) as u16))
    } else if addr < 0xFFFF {
        Some(MemoryLocation::HRAM((addr - 0xFF80) as u16))
    } else {
        Some(MemoryLocation::IE(0))
    }
}

/// The offset a decoded location carries.
pub open spec fn spec_offset(loc: MemoryLocation) -> u16 {
    match loc {
        MemoryLocation::Cartridge(offset) => offset,
        MemoryLocation::CartridgeMBC(offset) => offset,
        MemoryLocation::CartridgeRAM(offset) => offset,
        MemoryLocation::VRAM(offset) => offset,
        MemoryLocation::WRAM(offset) => offset,
        MemoryLocation::EchoRAM(offset) => offset,
        MemoryLocation::OAM(offset) => offset,
        MemoryLocation::IO(offset) => offset,
        MemoryLocation::HRAM(offset) => offset,
        MemoryLocation::IE(offset) => offset,
    }
}

/// The base address of the region a location names.
pub open spec fn region_base(loc: MemoryLocation) -> u16 {
    match loc {
        MemoryLocation::Cartridge(_) => 0x0000,
        MemoryLocation::CartridgeMBC(_) => 0x4000,
        MemoryLocation::VRAM(_) => 0x8000,
        MemoryLocation::CartridgeRAM(_) => 0xA000,
        MemoryLocation::WRAM(_) => 0xC000,
        MemoryLocation::EchoRAM(_) => 0xE000,
        MemoryLocation::OAM(_) => 0xFE00,
        MemoryLocation::IO(_) => 0xFF00,
        MemoryLocation::HRAM(_) => 0xFF80,
        MemoryLocation::IE(_) => 0xFFFF,
    }
}

/// The allocated size of the buffer a location reaches. Echo RAM reaches
/// the Work RAM buffer, so it shares that size.
pub open spec fn region_capacity(loc: MemoryLocation) -> int {
    match loc {
        MemoryLocation::Cartridge(_) => 16384,
        MemoryLocation::CartridgeMBC(_) => 16384,
        MemoryLocation::CartridgeRAM(_) => 16384,
        MemoryLocation::VRAM(_) => 8192,
        MemoryLocation::WRAM(_) => 8192,
        MemoryLocation::EchoRAM(_) => 8192,
        MemoryLocation::OAM(_) => 160,
        MemoryLocation::IO(_) => 128,
        MemoryLocation::HRAM(_) => 127,
        MemoryLocation::IE(_) => 1,
    }
}

/// The buffer a location reaches; Echo RAM reaches Work RAM.
pub open spec fn spec_region(m: MemView, loc: MemoryLocation) -> Seq<u8> {
    match loc {
        MemoryLocation::Cartridge(_) => m.cartridge,
        MemoryLocation::CartridgeMBC(_) => m.cartridge_mbc,
        MemoryLocation::CartridgeRAM(_) => m.cartridge_ram,
        MemoryLocation::VRAM(_) => m.vram,
        MemoryLocation::WRAM(_) => m.wram,
        MemoryLocation::EchoRAM(_) => m.wram,
        MemoryLocation::OAM(_) => m.oam,
        MemoryLocation::IO(_) => m.io,
        MemoryLocation::HRAM(_) => m.hram,
        MemoryLocation::IE(_) => m.ie,
    }
}

/// The address space with one byte replaced in the buffer a location
/// reaches; a write through Echo RAM lands in Work RAM.
pub open spec fn spec_write_at(m: MemView, loc: MemoryLocation, off: int, v: u8) -> MemView {
    match loc {
        MemoryLocation::Cartridge(_) => MemView { cartridge: m.cartridge.update(off, v), ..m },
        MemoryLocation::CartridgeMBC(_) => MemView {
            cartridge_mbc: m.cartridge_mbc.update(off, v),
            ..m
        },
        MemoryLocation::CartridgeRAM(_) => MemView {
            cartridge_ram: m.cartridge_ram.update(off, v),
            ..m
        },
        MemoryLocation::VRAM(_) => MemView { vram: m.vram.update(off, v), ..m },
        MemoryLocation::WRAM(_) => MemView { wram: m.wram.update(off, v), ..m },
        MemoryLocation::EchoRAM(_) => MemView { wram: m.wram.update(off, v), ..m },
        MemoryLocation::OAM(_) => MemView { oam: m.oam.update(off, v), ..m },
        MemoryLocation::IO(_) => MemView { io: m.io.update(off, v), ..m },
        MemoryLocation::HRAM(_) => MemView { hram: m.hram.update(off, v), ..m },
        MemoryLocation::IE(_) => MemView { ie: m.ie.update(off, v), ..m },
    }
}

/// The byte stored at an address.
pub open spec fn spec_read_byte(m: MemView, addr: u16) -> u8
    recommends
        !in_unusable_range(addr),
{
    match spec_classify(addr) {
        Some(loc) => spec_region(m, loc)[spec_offset(loc) as int],
        None => 0,
    }
}

/// The little-endian word stored at an address: `None` when the second byte
/// would fall past the end of the region's buffer.
pub open spec fn spec_read_word(m: MemView, addr: u16) -> Option<u16>
    recommends
        !in_unusable_range(addr),
{
    match spec_classify(addr) {
        Some(loc) => {
            let off = spec_offset(loc) as int;
            let buf = spec_region(m, loc);
            if off + 1 < buf.len() {
                Some(spec_combine(buf[off], buf[off + 1]))
            } else {
                None
            }
        },
        None => None,
    }
}

/// The address space after one byte is stored at an address.
pub open spec fn spec_write_byte(m: MemView, addr: u16, v: u8) -> MemView
    recommends
        !in_unusable_range(addr),
{
    match spec_classify(addr) {
        Some(loc) => spec_write_at(m, loc, spec_offset(loc) as int, v),
        None => m,
    }
}

/// The address space after a little-endian word is stored at an address:
/// the low byte at the decoded offset, the high byte right after it, both in
/// the same region buffer.
pub open spec fn spec_write_word(m: MemView, addr: u16, v: u16) -> MemView
    recommends
        !in_unusable_range(addr),
{
    match spec_classify(addr) {
        Some(loc) => {
            let off = spec_offset(loc) as int;
            spec_write_at(spec_write_at(m, loc, off, spec_low(v)), loc, off + 1, spec_high(v))
        },
        None => m,
    }
}

/// True iff every byte of the sequence is zero.
pub open spec fn all_zero(s: Seq<u8>) -> bool {
    forall|i: int| 0 <= i < s.len() ==> s[i] == 0
}

impl MemView {
    /// Every region buffer has exactly its allocated size.
    pub open spec fn wf(self) -> bool {
        &&& self.cartridge.len() == 16384
        &&& self.cartridge_mbc.len() == 16384
        &&& self.cartridge_ram.len() == 16384
        &&& self.vram.len() == 8192
        &&& self.wram.len() == 8192
        &&& self.oam.len() == 160
        &&& self.io.len() == 128
        &&& self.hram.len() == 127
        &&& self.ie.len() == 1
    }
}

/// Address decoding totality: every address outside the unusable range
/// decodes to exactly one region with an in-bounds offset, and the unusable
/// range decodes to none.
pub proof fn lemma_classify_total(addr: u16)
    ensures
        (spec_classify(addr) is Some) <==> !in_unusable_range(addr),
        spec_classify(addr) matches Some(loc) ==> spec_offset(loc) < region_capacity(loc),
{
}

/// In a well-formed address space each buffer has exactly its allocated
/// size, so a decoded offset is in bounds for the buffer it reaches.
pub proof fn lemma_region_len(m: MemView, loc: MemoryLocation)
    requires
        m.wf(),
    ensures
        spec_region(m, loc).len() == region_capacity(loc),
{
}

/// XOR/subtraction equivalence: every region's base is aligned so that
/// XOR-ing an in-region address with the base equals subtracting the base,
/// and the decoded offset is exactly that value.
pub proof fn lemma_xor_offset(addr: u16)
    requires
        !in_unusable_range(addr),
    ensures
        spec_classify(addr) matches Some(loc) ==> {
            &&& spec_offset(loc) == addr - region_base(loc)
            &&& spec_offset(loc) == addr ^ region_base(loc)
        },
{
    assert(addr < 0x4000 ==> addr ^ 0x0000 == addr - 0x0000) by (bit_vector);
    assert(0x4000 <= addr < 0x8000 ==> addr ^ 0x4000 == addr - 0x4000) by (bit_vector);
    assert(0x8000 <= addr < 0xA000 ==> addr ^ 0x8000 == addr - 0x8000) by (bit_vector);
    assert(0xA000 <= addr < 0xC000 ==> addr ^ 0xA000 == addr - 0xA000) by (bit_vector);
    assert(0xC000 <= addr < 0xE000 ==> addr ^ 0xC000 == addr - 0xC000) by (bit_vector);
    assert(0xE000 <= addr < 0xFE00 ==> addr ^ 0xE000 == addr - 0xE000) by (bit_vector);
    assert(0xFE00 <= addr < 0xFEA0 ==> addr ^ 0xFE00 == addr - 0xFE00) by (bit_vector);
    assert(0xFF00 <= addr < 0xFF80 ==> addr ^ 0xFF00 == addr - 0xFF00) by (bit_vector);
    assert(0xFF80 <= addr < 0xFFFF ==> addr ^ 0xFF80 == addr - 0xFF80) by (bit_vector);
    assert(addr == 0xFFFF ==> addr ^ 0xFFFF == addr - 0xFFFF) by (bit_vector);
}

/// Echo aliasing: a byte written through Work RAM is read back through Echo
/// RAM, and the other way round, at every offset of the shared window.
pub proof fn lemma_echo_aliasing(m: MemView, offset: u16, v: u8)
    requires
        m.wf(),
        offset < 0x1E00,
    ensures
        spec_read_byte(spec_write_byte(m, (0xC000 + offset) as u16, v), (0xE000 + offset) as u16)
            == v,
        spec_read_byte(spec_write_byte(m, (0xE000 + offset) as u16, v), (0xC000 + offset) as u16)
            == v,
{
}

/// The memory management unit: it owns the backing storage of every region.
pub struct MMU {
    // general RAM
    wram: Vec<u8>,
    hram: Vec<u8>,
    // graphics RAM
    vram: Vec<u8>,
    // I/O registers
    io: Vec<u8>,
    cartridge: Vec<u8>,
    cartridge_mbc: Vec<u8>,
    cartridge_ram: Vec<u8>,
    oam: Vec<u8>,
    ie: Vec<u8>,
}

impl View for MMU {
    type V = MemView;

    closed spec fn view(&self) -> MemView {
        MemView {
            cartridge: self.cartridge@,
            cartridge_mbc: self.cartridge_mbc@,
            cartridge_ram: self.cartridge_ram@,
            vram: self.vram@,
            wram: self.wram@,
            oam: self.oam@,
            io: self.io@,
            hram: self.hram@,
            ie: self.ie@,
        }
    }
}

/// A zero-filled buffer of the given size.
fn zeroed(n: usize) -> (v: Vec<u8>)
    ensures
        v@.len() == n,
        all_zero(v@),
{
    let mut v: Vec<u8> = Vec::new();
    let mut i: usize = 0;
    while i < n
        invariant
            i <= n,
            v@.len() == i,
            all_zero(v@),
        decreases n - i,
    {
        v.push(0);
        i = i + 1;
    }
    v
}

impl MemoryLocation {
    /// The buffer this location reaches inside the given MMU, with the
    /// offset of the addressed byte in that buffer.
    fn to_register<'a>(&self, mmu: &'a MMU) -> (r: (&'a Vec<u8>, usize))
        ensures
            r.0@ == spec_region(mmu@, *self),
            r.1 == spec_offset(*self),
    {
        let register = mmu.map_register(self);

        (register, self.unwrap_value() as usize)
    }

    /// The offset this location carries.
    fn unwrap_value(&self) -> (r: u16)
        ensures
            r == spec_offset(*self),
    {
        match self {
            MemoryLocation::Cartridge(addr) => *addr,
            MemoryLocation::CartridgeMBC(addr) => *addr,
            MemoryLocation::VRAM(addr) => *addr,
            MemoryLocation::CartridgeRAM(addr) => *addr,
            MemoryLocation::WRAM(addr) => *addr,
            MemoryLocation::EchoRAM(addr) => *addr,
            MemoryLocation::OAM(addr) => *addr,
            MemoryLocation::HRAM(addr) => *addr,
            MemoryLocation::IO(addr) => *addr,
            MemoryLocation::IE(addr) => *addr,
        }
    }
}

impl MMU {
    /// A fresh address space: every region allocated at its fixed size and
    /// zero-initialized. An external loader is expected to populate the
    /// cartridge regions before execution begins.
    pub fn new() -> (r: Self)
        ensures
            r@.wf(),
            all_zero(r@.cartridge),
            all_zero(r@.cartridge_mbc),
            all_zero(r@.cartridge_ram),
            all_zero(r@.vram),
            all_zero(r@.wram),
            all_zero(r@.oam),
            all_zero(r@.io),
            all_zero(r@.hram),
            all_zero(r@.ie),
    {
        MMU {
            wram: zeroed(8192),
            hram: zeroed(127),
            vram: zeroed(8192),
            io: zeroed(128),
            cartridge: zeroed(16384),
            cartridge_mbc: zeroed(16384),
            cartridge_ram: zeroed(16384),
            oam: zeroed(160),
            ie: zeroed(1),
        }
    }

    /// The buffer a location reaches: Echo RAM maps to the Work RAM buffer.
    fn map_register(&self, location: &MemoryLocation) -> (r: &Vec<u8>)
        ensures
            r@ == spec_region(self@, *location),
    {
        match location {
            MemoryLocation::Cartridge(_) => &self.cartridge,
            MemoryLocation::CartridgeMBC(_) => &self.cartridge_mbc,
            MemoryLocation::VRAM(_) => &self.vram,
            MemoryLocation::CartridgeRAM(_) => &self.cartridge_ram,
            MemoryLocation::WRAM(_) => &self.wram,
            MemoryLocation::EchoRAM(_) => &self.wram,
            MemoryLocation::OAM(_) => &self.oam,
            MemoryLocation::HRAM(_) => &self.hram,
            MemoryLocation::IO(_) => &self.io,
            MemoryLocation::IE(_) => &self.ie,
        }
    }

    /// Decode an address into its region and offset; `None` exactly on the
    /// unusable range.
    pub fn classify(&self, addr: u16) -> (r: Option<MemoryLocation>)
        ensures
            r == spec_classify(addr),
    {
        proof {
            if !in_unusable_range(addr) {
                lemma_xor_offset(addr);
            }
        }
        if addr < 0x4000 {
            Some(MemoryLocation::Cartridge(addr))
        } else if addr < 0x8000 {
            Some(MemoryLocation::CartridgeMBC(addr ^ 0x4000))
        } else if addr < 0xA000 {
            Some(MemoryLocation::VRAM(addr ^ 0x8000))
        } else if addr < 0xC000 {
            Some(MemoryLocation::CartridgeRAM(addr ^ 0xA000))
        } else if addr < 0xE000 {
            Some(MemoryLocation::WRAM(addr ^ 0xC000))
        } else if addr < 0xFE00 {
            // echoes 0xC000-0xDDFF
            Some(MemoryLocation::EchoRAM(addr ^ 0xE000))
        } else if addr < 0xFEA0 {
            Some(MemoryLocation::OAM(addr ^ 0xFE00))
        } else if addr < 0xFF00 {
            None
        } else if addr < 0xFF80 {
            Some(MemoryLocation::IO(addr ^ 0xFF00))
        } else if addr < 0xFFFF {
            Some(MemoryLocation::HRAM(addr ^ 0xFF80))
        } else {
            Some(MemoryLocation::IE(0))
        }
    }

    /// Decode an address that is known to be usable.
    pub fn get_location(&self, addr: u16) -> (r: MemoryLocation)
        requires
            !in_unusable_range(addr),
        ensures
            Some(r) == spec_classify(addr),
    {
        match self.classify(addr) {
            Some(location) => location,
            None => vstd::pervasive::unreached(),
        }
    }

    /// Read a byte (u8) from a memory address.
    pub fn read_byte(&self, addr: u16) -> (r: Option<u8>)
        requires
            self@.wf(),
            !in_unusable_range(addr),
        ensures
            r == Some(spec_read_byte(self@, addr)),
    {
        proof {
            lemma_classify_total(addr);
            lemma_region_len(self@, spec_classify(addr)->Some_0);
        }
        let location = self.get_location(addr);

        let (register, offset) = location.to_register(self);

        Some(register[offset])
    }

    /// Read a 16-bit word (u16) from a memory address: two consecutive bytes
    /// of the same region, little-endian. `None` when the second byte would
    /// fall past the end of the region's buffer.
    pub fn read_word(&self, addr: u16) -> (r: Option<u16>)
        requires
            self@.wf(),
            !in_unusable_range(addr),
        ensures
            r == spec_read_word(self@, addr),
    {
        let location = self.get_location(addr);

        let (register, offset) = location.to_register(self);
        if offset + 1 < register.len() {
            let first = register[offset];
            let second = register[offset + 1];

            Some(first as u16 + second as u16 * 256)
        } else {
            None
        }
    }

    /// Write a byte (u8) to a memory address.
    pub fn write_byte(&mut self, addr: u16, value: u8)
        requires
            old(self)@.wf(),
            !in_unusable_range(addr),
        ensures
            final(self)@ == spec_write_byte(old(self)@, addr, value),
            final(self)@.wf(),
    {
        proof {
            lemma_classify_total(addr);
            lemma_region_len(self@, spec_classify(addr)->Some_0);
        }
        let location = self.get_location(addr);
        let offset = location.unwrap_value() as usize;

        match location {
            MemoryLocation::Cartridge(_) => self.cartridge[offset] = value,
            MemoryLocation::CartridgeMBC(_) => self.cartridge_mbc[offset] = value,
            MemoryLocation::VRAM(_) => self.vram[offset] = value,
            MemoryLocation::CartridgeRAM(_) => self.cartridge_ram[offset] = value,
            MemoryLocation::WRAM(_) => self.wram[offset] = value,
            MemoryLocation::EchoRAM(_) => self.wram[offset] = value,
            MemoryLocation::OAM(_) => self.oam[offset] = value,
            MemoryLocation::HRAM(_) => self.hram[offset] = value,
            MemoryLocation::IO(_) => self.io[offset] = value,
            MemoryLocation::IE(_) => self.ie[offset] = value,
        }
    }

    /// Write a 16-bit word (u16) to a memory address: the low byte at the
    /// decoded offset, the high byte right after it, both in the same region
    /// buffer, which must have room for them.
    pub fn write_word(&mut self, addr: u16, value: u16)
        requires
            old(self)@.wf(),
            !in_unusable_range(addr),
            spec_classify(addr) matches Some(loc) ==> spec_offset(loc) + 1 < spec_region(
                old(self)@,
                loc,
            ).len(),
        ensures
            final(self)@ == spec_write_word(old(self)@, addr, value),
            final(self)@.wf(),
    {
        let location = self.get_location(addr);
        let offset = location.unwrap_value() as usize;

        let low = (value % 256) as u8;
        let high = (value / 256) as u8;

        match location {
            MemoryLocation::Cartridge(_) => {
                self.cartridge[offset] = low;
                self.cartridge[offset + 1] = high;
            },
            MemoryLocation::CartridgeMBC(_) => {
                self.cartridge_mbc[offset] = low;
                self.cartridge_mbc[offset + 1] = high;
            },
            MemoryLocation::VRAM(_) => {
                self.vram[offset] = low;
                self.vram[offset + 1] = high;
            },
            MemoryLocation::CartridgeRAM(_) => {
                self.cartridge_ram[offset] = low;
                self.cartridge_ram[offset + 1] = high;
            },
            MemoryLocation::WRAM(_) => {
                self.wram[offset] = low;
                self.wram[offset + 1] = high;
            },
            MemoryLocation::EchoRAM(_) => {
                self.wram[offset] = low;
                self.wram[offset + 1] = high;
            },
            MemoryLocation::OAM(_) => {
                self.oam[offset] = low;
                self.oam[offset + 1] = high;
            },
            MemoryLocation::HRAM(_) => {
                self.hram[offset] = low;
                self.hram[offset + 1] = high;
            },
            MemoryLocation::IO(_) => {
                self.io[offset] = low;
                self.io[offset + 1] = high;
            },
            MemoryLocation::IE(_) => {
                self.ie[offset] = low;
                self.ie[offset + 1] = high;
            },
        }
    }
}

} // verus!
