//! The register bank: control, mask and status bytes with their bit fields,
//! the scroll latch and the address cursor.

use vstd::prelude::*;

verus! {

/// Height of the sprites that the control register selects.
#[derive(Clone, Copy, Debug, PartialEq, Eq, Structural)]
pub enum SpriteSize {
    SpriteSize8x8,
    SpriteSize8x16,
}

/// The control register (PPUCTRL, offset 0): one byte, read through its bit
/// fields.
#[derive(Clone, Copy, Debug, PartialEq, Eq, Structural)]
pub struct PpuCtrl(pub u8);

impl PpuCtrl {
    /// What `vram_addr_increment` returns, for use in contracts.
    pub open spec fn spec_vram_addr_increment(self) -> u16 {
        if self.0 & 0x04 == 0 {
            0
        } else {
            32
        }
    }

    /// Address of the nametable that bits 0 and 1 select.
    pub fn base_nametable_addr(self) -> (r: u16)
        ensures
            r == 0x2000 + (self.0 & 0x3) * 0x400,
    {
        let byte: u8 = self.0;
        let index: u8 = byte & 0x3;
        assert(index <= 3) by (bit_vector)
            requires
                index == byte & 0x3,
        ;
        0x2000 + (index as u16) * 0x400
    }

    /// Step by which a data write moves the address cursor: 32 where bit 2
    /// is set, otherwise 0.
    #[verifier::when_used_as_spec(spec_vram_addr_increment)]
    pub fn vram_addr_increment(self) -> (r: u16)
        ensures
            r == (if self.0 & 0x04 == 0 { 0u16 } else { 32u16 }),
            r == self.spec_vram_addr_increment(),
    {
        if (self.0 & 0x04) == 0 {
            0
        } else {
            32
        }
    }

    /// Pattern table from which sprites are drawn, selected by bit 3.
    pub fn sprite_pattern_table_addr(self) -> (r: u16)
        ensures
            r == (if self.0 & 0x08 == 0 { 0u16 } else { 0x1000u16 }),
    {
        if (self.0 & 0x08) == 0 {
            0
        } else {
            0x1000
        }
    }

    /// Pattern table from which the background is drawn, selected by bit 4.
    pub fn background_pattern_table_addr(self) -> (r: u16)
        ensures
            r == (if self.0 & 0x10 == 0 { 0u16 } else { 0x1000u16 }),
    {
        if (self.0 & 0x10) == 0 {
            0
        } else {
            0x1000
        }
    }

    /// Sprite height, selected by bit 5.
    pub fn sprite_size(self) -> (r: SpriteSize)
        ensures
            r == (if self.0 & 0x20 == 0 {
                SpriteSize::SpriteSize8x8
            } else {
                SpriteSize::SpriteSize8x16
            }),
    {
        if (self.0 & 0x20) == 0 {
            SpriteSize::SpriteSize8x8
        } else {
            SpriteSize::SpriteSize8x16
        }
    }

    /// Whether the start of vertical blanking raises an interrupt: bit 7.
    pub fn vblank_nmi(self) -> (r: bool)
        ensures
            r == (self.0 & 0x80 != 0),
    {
        (self.0 & 0x80) != 0
    }
}

/// The mask register (PPUMASK, offset 1): eight rendering switches, one per
/// bit.
#[derive(Clone, Copy, Debug, PartialEq, Eq, Structural)]
pub struct PpuMask(pub u8);

impl PpuMask {
    /// Bit 0: draw in shades of grey.
    pub fn grayscale(self) -> (r: bool)
        ensures
            r == (self.0 & 0x01 != 0),
    {
        (self.0 & 0x01) != 0
    }

    /// Bit 1: draw the background in the leftmost eight pixels.
    pub fn show_background_on_left(self) -> (r: bool)
        ensures
            r == (self.0 & 0x02 != 0),
    {
        (self.0 & 0x02) != 0
    }

    /// Bit 2: draw sprites in the leftmost eight pixels.
    pub fn show_sprites_on_left(self) -> (r: bool)
        ensures
            r == (self.0 & 0x04 != 0),
    {
        (self.0 & 0x04) != 0
    }

    /// Bit 3: draw the background.
    pub fn show_background(self) -> (r: bool)
        ensures
            r == (self.0 & 0x08 != 0),
    {
        (self.0 & 0x08) != 0
    }

    /// Bit 4: draw sprites.
    pub fn show_sprites(self) -> (r: bool)
        ensures
            r == (self.0 & 0x10 != 0),
    {
        (self.0 & 0x10) != 0
    }

    /// Bit 5: intensify reds.
    pub fn intensify_reds(self) -> (r: bool)
        ensures
            r == (self.0 & 0x20 != 0),
    {
        (self.0 & 0x20) != 0
    }

    /// Bit 6: intensify greens.
    pub fn intensify_greens(self) -> (r: bool)
        ensures
            r == (self.0 & 0x40 != 0),
    {
        (self.0 & 0x40) != 0
    }

    /// Bit 7: intensify blues.
    pub fn intensity_blues(self) -> (r: bool)
        ensures
            r == (self.0 & 0x80 != 0),
    {
        (self.0 & 0x80) != 0
    }
}

/// The byte `byte` with the bits of `mask` set where `val` holds and cleared
/// where it does not.
pub open spec fn with_bits(byte: u8, mask: u8, val: bool) -> u8 {
    if val {
        byte | mask
    } else {
        byte & !mask
    }
}

/// The status register (PPUSTATUS, offset 2). The CPU cannot write it; the
/// three flags in bits 5 to 7 are set and cleared one at a time. Bits 0 to 4
/// are not modelled and keep whatever they hold.
#[derive(Clone, Copy, Debug, PartialEq, Eq, Structural)]
pub struct PpuStatus(pub u8);

impl PpuStatus {
    /// Sets bit 5 to `val` and leaves the other bits as they are.
    pub fn set_sprite_overflow(&mut self, val: bool)
        ensures
            final(self).0 == with_bits(old(self).0, 0x20, val),
            (final(self).0 & 0x20 != 0) == val,
            final(self).0 & !0x20u8 == old(self).0 & !0x20u8,
    {
        let byte: u8 = self.0;
        let set: u8 = if val { byte | 0x20 } else { byte & !0x20 };
        assert((set & 0x20 != 0) == val && set & !0x20u8 == byte & !0x20u8) by (bit_vector)
            requires
                set == (if val { byte | 0x20 } else { byte & !0x20u8 }),
        ;
        *self = PpuStatus(set);
    }

    /// Sets bit 6 to `val` and leaves the other bits as they are.
    pub fn set_sprite_zero_hit(&mut self, val: bool)
        ensures
            final(self).0 == with_bits(old(self).0, 0x40, val),
            (final(self).0 & 0x40 != 0) == val,
            final(self).0 & !0x40u8 == old(self).0 & !0x40u8,
    {
        let byte: u8 = self.0;
        let set: u8 = if val { byte | 0x40 } else { byte & !0x40 };
        assert((set & 0x40 != 0) == val && set & !0x40u8 == byte & !0x40u8) by (bit_vector)
            requires
                set == (if val { byte | 0x40 } else { byte & !0x40u8 }),
        ;
        *self = PpuStatus(set);
    }

    /// Sets bit 7 to `val` and leaves the other bits as they are.
    pub fn set_in_vblank(&mut self, val: bool)
        ensures
            final(self).0 == with_bits(old(self).0, 0x80, val),
            (final(self).0 & 0x80 != 0) == val,
            final(self).0 & !0x80u8 == old(self).0 & !0x80u8,
    {
        let byte: u8 = self.0;
        let set: u8 = if val { byte | 0x80 } else { byte & !0x80 };
        assert((set & 0x80 != 0) == val && set & !0x80u8 == byte & !0x80u8) by (bit_vector)
            requires
                set == (if val { byte | 0x80 } else { byte & !0x80u8 }),
        ;
        *self = PpuStatus(set);
    }
}

/// Which byte of the scroll latch the next write fills.
#[derive(Clone, Copy, Debug, PartialEq, Eq, Structural)]
pub enum PpuScrollDir {
    XDir,
    YDir,
}

/// The scroll latch (PPUSCROLL, offset 5): two bytes, written in turn.
#[derive(Clone, Copy, Debug, PartialEq, Eq, Structural)]
pub struct PpuScroll {
    pub x: u8,
    pub y: u8,
    pub next: PpuScrollDir,
}

impl PpuScroll {
    /// The latch after a write of `val`: the byte whose turn it is holds
    /// `val`, the other byte stays, and the turn passes on.
    pub open spec fn write(self, val: u8) -> PpuScroll {
        match self.next {
            PpuScrollDir::XDir => PpuScroll { x: val, y: self.y, next: PpuScrollDir::YDir },
            PpuScrollDir::YDir => PpuScroll { x: self.x, y: val, next: PpuScrollDir::XDir },
        }
    }
}

/// The address cursor after a write of `val` to the address latch: the old
/// low byte becomes the high byte, and `val` the low byte.
pub open spec fn latch_addr(addr: u16, val: u8) -> u16 {
    (addr << 8) | (val as u16)
}

/// The address cursor moved on by `step`, within 16 bits.
pub open spec fn advance_addr(addr: u16, step: u16) -> u16 {
    ((addr + step) % 0x1_0000) as u16
}

/// The registers. Every byte value is a legal content of every register.
#[derive(Clone, Copy, Debug, PartialEq, Eq, Structural)]
pub struct Regs {
    /// PPUCTRL, offset 0.
    pub ctrl: PpuCtrl,
    /// PPUMASK, offset 1.
    pub mask: PpuMask,
    /// PPUSTATUS, offset 2.
    pub status: PpuStatus,
    /// OAMADDR, offset 3.
    pub oam_addr: u8,
    /// PPUSCROLL, offset 5.
    pub scroll: PpuScroll,
    /// PPUADDR, offset 6: the video address that the next data access uses.
    pub addr: u16,
}

impl Regs {
    /// The registers at power-on: every byte zero, and the scroll latch
    /// waiting for its first byte.
    pub open spec fn spec_new() -> Regs {
        Regs {
            ctrl: PpuCtrl(0),
            mask: PpuMask(0),
            status: PpuStatus(0),
            oam_addr: 0,
            scroll: PpuScroll { x: 0, y: 0, next: PpuScrollDir::XDir },
            addr: 0,
        }
    }

    /// The registers at power-on.
    #[verifier::when_used_as_spec(spec_new)]
    pub fn new() -> (regs: Regs)
        ensures
            regs == Regs::spec_new(),
    {
        Regs {
            ctrl: PpuCtrl(0),
            mask: PpuMask(0),
            status: PpuStatus(0),
            oam_addr: 0,
            scroll: PpuScroll { x: 0, y: 0, next: PpuScrollDir::XDir },
            addr: 0,
        }
    }

    /// The registers after a CPU write of `val` to the register at offset
    /// `addr & 7`, but for what the write does to memory. A write to offset
    /// 2 or 4 changes no register; a write to offset 7 moves the cursor on
    /// by the step that the control register gives.
    pub open spec fn write(self, addr: u16, val: u8) -> Regs {
        match addr & 7 {
            0 => Regs { ctrl: PpuCtrl(val), ..self },
            1 => Regs { mask: PpuMask(val), ..self },
            2 => self,
            3 => Regs { oam_addr: val, ..self },
            4 => self,
            5 => Regs { scroll: self.scroll.write(val), ..self },
            6 => Regs { addr: latch_addr(self.addr, val), ..self },
            _ => Regs { addr: advance_addr(self.addr, self.ctrl.vram_addr_increment()), ..self },
        }
    }
}

/// The turn of the scroll latch passes on with every write, whatever is
/// written: after two writes it is back where it was, and a latch that waits
/// for its first byte then holds the first value in `x` and the second in
/// `y`.
pub proof fn lemma_scroll_write_pair(scroll: PpuScroll, first: u8, second: u8)
    ensures
        scroll.write(first).next != scroll.next,
        scroll.write(first).write(second).next == scroll.next,
        scroll.next == PpuScrollDir::XDir ==> scroll.write(first).write(second) == (PpuScroll {
            x: first,
            y: second,
            next: PpuScrollDir::XDir,
        }),
{
}

/// Two writes to the address latch set the whole cursor, high byte first,
/// whatever it held before.
pub proof fn lemma_addr_write_pair(addr: u16, hi: u8, lo: u8)
    ensures
        latch_addr(latch_addr(addr, hi), lo) == hi * 0x100 + lo,
{
    assert((((addr << 8) | (hi as u16)) << 8) | (lo as u16) == hi * 0x100 + lo) by (bit_vector);
}

/// The cursor moves on by the step itself wherever the sum fits in 16 bits,
/// and by `0x10000` less where it does not.
pub proof fn lemma_advance_addr(addr: u16, step: u16)
    ensures
        addr + step < 0x1_0000 ==> advance_addr(addr, step) == addr + step,
        addr + step >= 0x1_0000 ==> advance_addr(addr, step) == addr + step - 0x1_0000,
{
}

} // verus!
