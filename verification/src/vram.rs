//! The video address space: cartridge pattern data, nametables and palette
//! behind one 16-bit address, with the mirroring of the hardware.

use vstd::prelude::*;
use crate::error::PpuError;
use crate::mem::Mem;

verus! {

/// Number of pattern bytes that the address space maps: `0x0000..=0x1FFF`.
pub const PATTERN_SIZE: usize = 0x2000;

/// Size of the nametable buffer: four nametables of `0x400` bytes each.
pub const NAMETABLE_SIZE: usize = 0x1000;

/// Size of the palette buffer.
pub const PALETTE_SIZE: usize = 0x20;

/// The cartridge as the video address space sees it.
pub struct Rom {
    /// Pattern (CHR) bytes, indexed by pattern address.
    pub chr: Vec<u8>,
}

/// Slot of the nametable buffer that a video address in `0x2000..=0x3EFF`
/// falls on.
pub open spec fn nametable_slot(addr: u16) -> int {
    (addr & 0x0fff) as int
}

/// Slot of the palette buffer that a video address in `0x3F00..=0x3FFF`
/// falls on.
pub open spec fn palette_slot(addr: u16) -> int {
    (addr & 0x001f) as int
}

/// The 16-bit value with low byte `lo` and high byte `hi`.
pub open spec fn word(lo: u8, hi: u8) -> u16 {
    (lo as u16) | ((hi as u16) << 8)
}

/// Contents of the video address space.
pub struct PpuMemView {
    /// Pattern bytes of the cartridge.
    pub chr: Seq<u8>,
    /// The four nametables, one after the other.
    pub nametables: Seq<u8>,
    /// The palette.
    pub palette: Seq<u8>,
}

impl PpuMemView {
    /// The buffers have their sizes, and the cartridge covers the pattern
    /// range.
    pub open spec fn wf(self) -> bool {
        &&& self.chr.len() >= PATTERN_SIZE
        &&& self.nametables.len() == NAMETABLE_SIZE
        &&& self.palette.len() == PALETTE_SIZE
    }

    /// The byte that the mapped address `addr` (below `0x4000`) stands for.
    pub open spec fn byte_at(self, addr: u16) -> u8 {
        if addr < 0x2000 {
            self.chr[addr as int]
        } else if addr < 0x3f00 {
            self.nametables[nametable_slot(addr)]
        } else {
            self.palette[palette_slot(addr)]
        }
    }

    /// Result of a byte load at `addr`.
    pub open spec fn load(self, addr: u16) -> Result<u8, PpuError> {
        if addr < 0x4000 {
            Ok(self.byte_at(addr))
        } else {
            Err(PpuError::InvalidAddress)
        }
    }

    /// Result of a 16-bit load at `addr`: the bytes at `addr` and `addr + 1`,
    /// low byte first, where both addresses are mapped.
    pub open spec fn load16(self, addr: u16) -> Result<u16, PpuError> {
        if addr < 0x3fff {
            Ok(word(self.byte_at(addr), self.byte_at((addr + 1) as u16)))
        } else {
            Err(PpuError::InvalidAddress)
        }
    }

    /// Contents after a byte store of `val` at `addr`. Pattern data cannot
    /// be written, and an address at or above `0x4000` maps to nothing.
    pub open spec fn store(self, addr: u16, val: u8) -> PpuMemView {
        if addr < 0x2000 {
            self
        } else if addr < 0x3f00 {
            PpuMemView { nametables: self.nametables.update(nametable_slot(addr), val), ..self }
        } else if addr < 0x4000 {
            PpuMemView { palette: self.palette.update(palette_slot(addr), val), ..self }
        } else {
            self
        }
    }

    /// Result that a byte store at `addr` reports.
    pub open spec fn store_result(addr: u16) -> Result<(), PpuError> {
        if addr < 0x4000 {
            Ok(())
        } else {
            Err(PpuError::InvalidAddress)
        }
    }
}

/// The video address space. It owns the nametable and palette buffers and
/// borrows the cartridge, whose pattern bytes it never writes.
pub struct PpuMem<'a> {
    rom: &'a Rom,
    nametables: [u8; 0x1000],
    palette: [u8; 0x20],
}

impl<'a> View for PpuMem<'a> {
    type V = PpuMemView;

    closed spec fn view(&self) -> PpuMemView {
        PpuMemView {
            chr: self.rom.chr@,
            nametables: self.nametables@,
            palette: self.palette@,
        }
    }
}

impl<'a> PpuMem<'a> {
    #[verifier::type_invariant]
    spec fn covers_patterns(self) -> bool {
        self.rom.chr@.len() >= PATTERN_SIZE
    }

    /// The address space at power-on: the pattern bytes of `rom`, and zero in
    /// every nametable and palette slot.
    pub fn new(rom: &'a Rom) -> (mem: PpuMem<'a>)
        requires
            rom.chr@.len() >= PATTERN_SIZE,
        ensures
            mem@.wf(),
            mem@.chr == rom.chr@,
            mem@.nametables == Seq::new(NAMETABLE_SIZE as nat, |i: int| 0u8),
            mem@.palette == Seq::new(PALETTE_SIZE as nat, |i: int| 0u8),
    {
        let mem = PpuMem { rom, nametables: [0u8; 0x1000], palette: [0u8; 0x20] };
        assert(mem@.nametables =~= Seq::new(NAMETABLE_SIZE as nat, |i: int| 0u8));
        assert(mem@.palette =~= Seq::new(PALETTE_SIZE as nat, |i: int| 0u8));
        mem
    }
}

impl<'a> Mem for PpuMem<'a> {
    open spec fn loadb_spec(&self, addr: u16, after: &Self, r: Result<u8, PpuError>) -> bool {
        &&& *after == *self
        &&& r == self@.load(addr)
    }

    open spec fn storeb_spec(&self, addr: u16, val: u8, after: &Self, r: Result<(), PpuError>) -> bool {
        &&& after@ == self@.store(addr, val)
        &&& r == PpuMemView::store_result(addr)
    }

    open spec fn loadw_spec(&self, addr: u16, after: &Self, r: Result<u16, PpuError>) -> bool {
        &&& *after == *self
        &&& r == self@.load16(addr)
    }

    open spec fn storew_spec(&self, addr: u16, val: u16, after: &Self, r: Result<(), PpuError>) -> bool {
        &&& *after == *self
        &&& r == Err::<(), PpuError>(PpuError::Unimplemented)
    }

    /// Loads the byte that `addr` maps to: a pattern byte of the cartridge
    /// below `0x2000`, a nametable byte below `0x3F00`, a palette byte below
    /// `0x4000`. Any other address is invalid. The contents stay as they
    /// are.
    fn loadb(&mut self, addr: u16) -> (r: Result<u8, PpuError>)
        ensures
            *final(self) == *old(self),
            final(self)@.wf(),
            r == old(self)@.load(addr),
            (r == Err::<u8, PpuError>(PpuError::InvalidAddress)) == (addr >= 0x4000),
    {
        proof {
            use_type_invariant(&*self);
        }
        if addr < 0x2000 {
            return Ok(self.rom.chr[addr as usize]);
        }
        if addr < 0x3f00 {
            let slot: u16 = addr & 0x0fff;
            assert(slot < 0x1000) by (bit_vector)
                requires
                    slot == addr & 0x0fff,
            ;
            return Ok(self.nametables[slot as usize]);
        }
        if addr < 0x4000 {
            let slot: u16 = addr & 0x001f;
            assert(slot < 0x20) by (bit_vector)
                requires
                    slot == addr & 0x001f,
            ;
            return Ok(self.palette[slot as usize]);
        }
        Err(PpuError::InvalidAddress)
    }

    /// Stores `val` in the slot that `addr` maps to. A store to the pattern
    /// range succeeds and changes nothing; a store at or above `0x4000` is
    /// refused and changes nothing.
    fn storeb(&mut self, addr: u16, val: u8) -> (r: Result<(), PpuError>)
        ensures
            final(self)@ == old(self)@.store(addr, val),
            final(self)@.wf(),
            r == PpuMemView::store_result(addr),
            (r == Err::<(), PpuError>(PpuError::InvalidAddress)) == (addr >= 0x4000),
    {
        proof {
            use_type_invariant(&*self);
        }
        if addr < 0x2000 {
            return Ok(());
        }
        if addr < 0x3f00 {
            let slot: u16 = addr & 0x0fff;
            assert(slot < 0x1000) by (bit_vector)
                requires
                    slot == addr & 0x0fff,
            ;
            self.nametables[slot as usize] = val;
            Ok(())
        } else if addr < 0x4000 {
            let slot: u16 = addr & 0x001f;
            assert(slot < 0x20) by (bit_vector)
                requires
                    slot == addr & 0x001f,
            ;
            self.palette[slot as usize] = val;
            Ok(())
        } else {
            Err(PpuError::InvalidAddress)
        }
    }

    /// Loads the bytes at `addr` and `addr + 1` as one value, low byte
    /// first. Both addresses must be mapped.
    fn loadw(&mut self, addr: u16) -> (r: Result<u16, PpuError>)
        ensures
            *final(self) == *old(self),
            final(self)@.wf(),
            r == old(self)@.load16(addr),
            (r == Err::<u16, PpuError>(PpuError::InvalidAddress)) == (addr >= 0x3fff),
    {
        let lo: u8 = match self.loadb(addr) {
            Ok(b) => b,
            Err(e) => { return Err(e); },
        };
        let hi: u8 = match self.loadb(addr + 1) {
            Ok(b) => b,
            Err(e) => { return Err(e); },
        };
        Ok((lo as u16) | ((hi as u16) << 8))
    }

    /// Refuses the store: 16-bit stores to video memory are not carried out,
    /// not even by half.
    fn storew(&mut self, addr: u16, val: u16) -> (r: Result<(), PpuError>)
        ensures
            *final(self) == *old(self),
            final(self)@.wf(),
            r == Err::<(), PpuError>(PpuError::Unimplemented),
    {
        proof {
            use_type_invariant(&*self);
        }
        Err(PpuError::Unimplemented)
    }
}

/// The nametable buffer repeats every `0x1000` addresses and the palette
/// buffer every `0x20`: a slot is the remainder of the address.
pub proof fn lemma_slots_are_remainders(addr: u16)
    ensures
        nametable_slot(addr) == addr % 0x1000,
        palette_slot(addr) == addr % 0x20,
{
    assert(addr & 0x0fff == addr % 0x1000) by (bit_vector);
    assert(addr & 0x001f == addr % 0x20) by (bit_vector);
}

/// A nametable address and the address `0x1000` above it, both in the
/// nametable range, fall on one slot.
pub proof fn lemma_nametable_mirror(addr: u16)
    requires
        0x2000 <= addr,
        addr + 0x1000 < 0x3f00,
    ensures
        nametable_slot((addr + 0x1000) as u16) == nametable_slot(addr),
{
    lemma_slots_are_remainders(addr);
    lemma_slots_are_remainders((addr + 0x1000) as u16);
}

/// A palette address and the address `0x20` above it, both in the palette
/// range, fall on one slot.
pub proof fn lemma_palette_mirror(addr: u16)
    requires
        0x3f00 <= addr,
        addr + 0x20 < 0x4000,
    ensures
        palette_slot((addr + 0x20) as u16) == palette_slot(addr),
{
    lemma_slots_are_remainders(addr);
    lemma_slots_are_remainders((addr + 0x20) as u16);
}

/// A store keeps the buffers at their sizes and the pattern bytes as they
/// are.
pub proof fn lemma_store_preserves_wf(mem: PpuMemView, addr: u16, val: u8)
    requires
        mem.wf(),
    ensures
        mem.store(addr, val).wf(),
        mem.store(addr, val).chr == mem.chr,
{
    lemma_slots_are_remainders(addr);
}

/// A store to the pattern range changes nothing: a load from that range
/// still returns the cartridge's byte.
pub proof fn lemma_pattern_store_is_noop(mem: PpuMemView, addr: u16, val: u8)
    requires
        addr < 0x2000,
    ensures
        mem.store(addr, val) == mem,
        mem.store(addr, val).load(addr) == Ok::<u8, PpuError>(mem.chr[addr as int]),
{
}

/// A load after a store returns the stored value where both addresses fall
/// on one slot of the nametables or of the palette, and what it returned
/// before the store everywhere else.
pub proof fn lemma_load_after_store(mem: PpuMemView, at: u16, val: u8, from: u16)
    requires
        mem.wf(),
    ensures
        mem.store(at, val).load(from) == (if 0x2000 <= at < 0x3f00 && 0x2000 <= from < 0x3f00
            && nametable_slot(at) == nametable_slot(from) {
            Ok::<u8, PpuError>(val)
        } else if 0x3f00 <= at < 0x4000 && 0x3f00 <= from < 0x4000 && palette_slot(at)
            == palette_slot(from) {
            Ok::<u8, PpuError>(val)
        } else {
            mem.load(from)
        }),
{
    lemma_slots_are_remainders(at);
    lemma_slots_are_remainders(from);
}

/// A value stored at a nametable address is loaded back from its mirror
/// `0x1000` above.
pub proof fn lemma_nametable_round_trip(mem: PpuMemView, addr: u16, val: u8)
    requires
        mem.wf(),
        0x2000 <= addr,
        addr + 0x1000 < 0x3f00,
    ensures
        mem.store(addr, val).load((addr + 0x1000) as u16) == Ok::<u8, PpuError>(val),
{
    lemma_nametable_mirror(addr);
    lemma_load_after_store(mem, addr, val, (addr + 0x1000) as u16);
}

/// A value stored at a palette address is loaded back from its mirror `0x20`
/// above.
pub proof fn lemma_palette_round_trip(mem: PpuMemView, addr: u16, val: u8)
    requires
        mem.wf(),
        0x3f00 <= addr,
        addr + 0x20 < 0x4000,
    ensures
        mem.store(addr, val).load((addr + 0x20) as u16) == Ok::<u8, PpuError>(val),
{
    lemma_palette_mirror(addr);
    lemma_load_after_store(mem, addr, val, (addr + 0x20) as u16);
}

/// A byte access succeeds on the mapped addresses and on no other: every
/// address at or above `0x4000` is an invalid address, for a load and for a
/// store, and the refused store changes nothing.
pub proof fn lemma_access_outside_is_invalid(mem: PpuMemView, addr: u16, val: u8)
    ensures
        addr < 0x4000 ==> mem.load(addr) is Ok && PpuMemView::store_result(addr) is Ok,
        addr >= 0x4000 ==> mem.load(addr) == Err::<u8, PpuError>(PpuError::InvalidAddress),
        addr >= 0x4000 ==> PpuMemView::store_result(addr) == Err::<(), PpuError>(
            PpuError::InvalidAddress,
        ),
        addr >= 0x4000 ==> mem.store(addr, val) == mem,
{
}

/// A 16-bit load succeeds where the byte loads at `addr` and at `addr + 1`
/// both do, and then joins their bytes: the low byte from `addr`, the high
/// byte from `addr + 1`.
pub proof fn lemma_load16_joins_bytes(mem: PpuMemView, addr: u16)
    ensures
        mem.load16(addr) is Ok <==> addr < 0xffff && mem.load(addr) is Ok && mem.load(
            (addr + 1) as u16,
        ) is Ok,
        mem.load16(addr) is Err ==> mem.load16(addr) == Err::<u16, PpuError>(
            PpuError::InvalidAddress,
        ),
        mem.load16(addr) is Ok ==> mem.load16(addr)->Ok_0 == mem.load(addr)->Ok_0 + 0x100
            * mem.load((addr + 1) as u16)->Ok_0,
{
    if addr < 0x3fff {
        let lo = mem.byte_at(addr);
        let hi = mem.byte_at((addr + 1) as u16);
        assert((lo as u16) | ((hi as u16) << 8) == lo + 0x100 * hi) by (bit_vector);
    }
}

} // verus!
