//! The dispatcher: CPU-bus writes to the eight register addresses, mirrored
//! through `0x2000..=0x3FFF`.

use vstd::prelude::*;
use crate::error::PpuError;
use crate::mem::Mem;
use crate::regs::{advance_addr, latch_addr, PpuCtrl, PpuMask, PpuScrollDir, Regs};

verus! {

/// The picture processing unit: its registers, its video memory and its
/// sprite memory.
pub struct Ppu<VM, OM> {
    pub regs: Regs,
    pub vram: VM,
    pub oam: OM,
}

impl<VM: Mem, OM: Mem> Ppu<VM, OM> {
    /// The unit at power-on, over the two memories given.
    pub fn new(vram: VM, oam: OM) -> (ppu: Self)
        ensures
            ppu.regs == Regs::new(),
            ppu.vram == vram,
            ppu.oam == oam,
    {
        Ppu { regs: Regs::new(), vram, oam }
    }

    /// Whether a CPU write of `val` at `addr` may leave `after` and return
    /// `r`.
    ///
    /// The register is chosen by `addr & 7`. The registers change as
    /// `Regs::write` says and the sprite memory stays. Only a write to the
    /// data register (offset 7) reaches the video memory: it is one byte
    /// store of `val` at the cursor as it stood before the write, and its
    /// result is the result of that store. A write to the sprite data
    /// register (offset 4) is refused; every other write succeeds.
    pub open spec fn storeb_spec(&self, addr: u16, val: u8, after: &Self, r: Result<(), PpuError>) -> bool {
        &&& after.regs == self.regs.write(addr, val)
        &&& after.oam == self.oam
        &&& match addr & 7 {
            0 | 1 | 2 | 3 | 5 | 6 => after.vram == self.vram && r == Ok::<(), PpuError>(()),
            4 => after.vram == self.vram && r == Err::<(), PpuError>(PpuError::Unimplemented),
            _ => self.vram.storeb_spec(self.regs.addr, val, &after.vram, r),
        }
    }

    /// Performs a CPU write of `val` to the register at `addr`.
    pub fn storeb(&mut self, addr: u16, val: u8) -> (r: Result<(), PpuError>)
        requires
            0x2000 <= addr < 0x4000,
        ensures
            old(self).storeb_spec(addr, val, final(self), r),
            addr & 7 == 4 ==> *final(self) == *old(self),
    {
        match addr & 7 {
            0 => {
                self.regs.ctrl = PpuCtrl(val);
                Ok(())
            },
            1 => {
                self.regs.mask = PpuMask(val);
                Ok(())
            },
            2 => Ok(()),
            3 => {
                self.regs.oam_addr = val;
                Ok(())
            },
            4 => Err(PpuError::Unimplemented),
            5 => {
                self.update_ppuscroll(val);
                Ok(())
            },
            6 => {
                self.update_ppuaddr(val);
                Ok(())
            },
            _ => self.write_ppudata(val),
        }
    }

    /// Writes `val` to the scroll latch: it fills the byte whose turn it is
    /// and passes the turn on.
    pub fn update_ppuscroll(&mut self, val: u8)
        ensures
            final(self).regs == (Regs { scroll: old(self).regs.scroll.write(val), ..old(self).regs }),
            final(self).vram == old(self).vram,
            final(self).oam == old(self).oam,
    {
        match self.regs.scroll.next {
            PpuScrollDir::XDir => {
                self.regs.scroll.x = val;
                self.regs.scroll.next = PpuScrollDir::YDir;
            },
            PpuScrollDir::YDir => {
                self.regs.scroll.y = val;
                self.regs.scroll.next = PpuScrollDir::XDir;
            },
        }
    }

    /// Writes `val` to the address latch: the cursor moves up by one byte
    /// and takes `val` as its low byte.
    pub fn update_ppuaddr(&mut self, val: u8)
        ensures
            final(self).regs == (Regs { addr: latch_addr(old(self).regs.addr, val), ..old(self).regs }),
            final(self).regs.addr == (old(self).regs.addr % 0x100) * 0x100 + val,
            final(self).vram == old(self).vram,
            final(self).oam == old(self).oam,
    {
        let addr: u16 = self.regs.addr;
        assert(((addr << 8) | (val as u16)) == (addr % 0x100) * 0x100 + val) by (bit_vector);
        self.regs.addr = (addr << 8) | (val as u16);
    }

    /// Writes `val` to the data register: stores it in video memory at the
    /// cursor, then moves the cursor on by the step that the control
    /// register gives, within 16 bits. The cursor moves whatever the store
    /// returned, and the result is the store's.
    pub fn write_ppudata(&mut self, val: u8) -> (r: Result<(), PpuError>)
        ensures
            old(self).vram.storeb_spec(old(self).regs.addr, val, &final(self).vram, r),
            final(self).regs == (Regs {
                addr: advance_addr(old(self).regs.addr, old(self).regs.ctrl.vram_addr_increment()),
                ..old(self).regs
            }),
            final(self).oam == old(self).oam,
    {
        let r = self.vram.storeb(self.regs.addr, val);
        self.regs.addr = self.regs.addr.wrapping_add(self.regs.ctrl.vram_addr_increment());
        r
    }
}

/// The eight registers repeat every eight addresses: a write at one of
/// `0x2000..=0x2007` and a write at the address eight above reach the same
/// register, so each has the outcomes of the other.
pub proof fn lemma_register_mirroring<VM: Mem, OM: Mem>(
    before: Ppu<VM, OM>,
    addr: u16,
    val: u8,
    after: Ppu<VM, OM>,
    r: Result<(), PpuError>,
)
    requires
        0x2000 <= addr < 0x2008,
    ensures
        (addr + 8) as u16 & 7 == addr & 7,
        before.storeb_spec(addr, val, &after, r) <==> before.storeb_spec(
            (addr + 8) as u16,
            val,
            &after,
            r,
        ),
{
    let above: u16 = (addr + 8) as u16;
    assert(above & 7 == addr & 7) by (bit_vector)
        requires
            above == addr + 8,
    ;
}

/// Every register address stands for the one of `0x2000..=0x2007` with the
/// same three low bits: a write at either has the outcomes of the other.
pub proof fn lemma_register_mirroring_everywhere<VM: Mem, OM: Mem>(
    before: Ppu<VM, OM>,
    addr: u16,
    val: u8,
    after: Ppu<VM, OM>,
    r: Result<(), PpuError>,
)
    requires
        0x2000 <= addr < 0x4000,
    ensures
        0x2000 <= 0x2000 + (addr & 7) < 0x2008,
        before.storeb_spec(addr, val, &after, r) <==> before.storeb_spec(
            (0x2000 + (addr & 7)) as u16,
            val,
            &after,
            r,
        ),
{
    let low: u16 = addr & 7;
    assert(low < 8) by (bit_vector)
        requires
            low == addr & 7,
    ;
    let base: u16 = (0x2000 + low) as u16;
    assert(base & 7 == low) by (bit_vector)
        requires
            low < 8,
            base == 0x2000 + low,
    ;
}

/// A write to the data register moves the cursor on by the step that the
/// control register gives at that moment, whatever the store returned, and
/// by exactly that step where the sum fits in 16 bits.
pub proof fn lemma_data_write_advances_cursor<VM: Mem, OM: Mem>(
    before: Ppu<VM, OM>,
    addr: u16,
    val: u8,
    after: Ppu<VM, OM>,
    r: Result<(), PpuError>,
)
    requires
        addr & 7 == 7,
        before.storeb_spec(addr, val, &after, r),
    ensures
        after.regs.addr == advance_addr(before.regs.addr, before.regs.ctrl.vram_addr_increment()),
        before.regs.addr + before.regs.ctrl.vram_addr_increment() < 0x1_0000 ==> after.regs.addr
            == before.regs.addr + before.regs.ctrl.vram_addr_increment(),
        before.vram.storeb_spec(before.regs.addr, val, &after.vram, r),
{
}

/// A write to the sprite data register (offset 4) is refused and changes
/// nothing.
pub proof fn lemma_oam_data_write_is_refused<VM: Mem, OM: Mem>(
    before: Ppu<VM, OM>,
    addr: u16,
    val: u8,
    after: Ppu<VM, OM>,
    r: Result<(), PpuError>,
)
    requires
        addr & 7 == 4,
        before.storeb_spec(addr, val, &after, r),
    ensures
        r == Err::<(), PpuError>(PpuError::Unimplemented),
        after == before,
{
}

} // verus!
