use nes_ppu::{PpuCtrl, PpuMask, PpuStatus, SpriteSize};

#[test]
fn base_nametable_addr_follows_low_two_bits() {
    assert_eq!(PpuCtrl(0x00).base_nametable_addr(), 0x2000);
    assert_eq!(PpuCtrl(0x01).base_nametable_addr(), 0x2400);
    assert_eq!(PpuCtrl(0x02).base_nametable_addr(), 0x2800);
    assert_eq!(PpuCtrl(0x03).base_nametable_addr(), 0x2c00);
    assert_eq!(PpuCtrl(0xfc).base_nametable_addr(), 0x2000);
    assert_eq!(PpuCtrl(0xff).base_nametable_addr(), 0x2c00);
}

#[test]
fn base_nametable_addr_formula_for_every_byte() {
    for v in 0u16..=255 {
        let expected: u16 = 0x2000 + (v & 3) * 0x400;
        assert_eq!(PpuCtrl(v as u8).base_nametable_addr(), expected);
    }
}

#[test]
fn vram_addr_increment_is_32_iff_bit_2() {
    for v in 0u16..=255 {
        let byte = v as u8;
        let expected: u16 = if byte & 0x04 != 0 { 32 } else { 0 };
        assert_eq!(PpuCtrl(byte).vram_addr_increment(), expected);
    }
    assert_eq!(PpuCtrl(0x04).vram_addr_increment(), 32);
    assert_eq!(PpuCtrl(0xfb).vram_addr_increment(), 0);
}

#[test]
fn pattern_table_addrs_follow_bits_3_and_4() {
    assert_eq!(PpuCtrl(0x00).sprite_pattern_table_addr(), 0);
    assert_eq!(PpuCtrl(0x08).sprite_pattern_table_addr(), 0x1000);
    assert_eq!(PpuCtrl(0xf7).sprite_pattern_table_addr(), 0);
    assert_eq!(PpuCtrl(0x00).background_pattern_table_addr(), 0);
    assert_eq!(PpuCtrl(0x10).background_pattern_table_addr(), 0x1000);
    assert_eq!(PpuCtrl(0xef).background_pattern_table_addr(), 0);
    assert_eq!(PpuCtrl(0x08).background_pattern_table_addr(), 0);
    assert_eq!(PpuCtrl(0x10).sprite_pattern_table_addr(), 0);
}

#[test]
fn sprite_size_follows_bit_5() {
    assert_eq!(PpuCtrl(0x00).sprite_size(), SpriteSize::SpriteSize8x8);
    assert_eq!(PpuCtrl(0x20).sprite_size(), SpriteSize::SpriteSize8x16);
    assert_eq!(PpuCtrl(0xdf).sprite_size(), SpriteSize::SpriteSize8x8);
    assert_eq!(PpuCtrl(0xff).sprite_size(), SpriteSize::SpriteSize8x16);
}

#[test]
fn vblank_nmi_follows_bit_7() {
    assert!(!PpuCtrl(0x00).vblank_nmi());
    assert!(PpuCtrl(0x80).vblank_nmi());
    assert!(!PpuCtrl(0x7f).vblank_nmi());
}

#[test]
fn mask_flags_are_single_bits() {
    let flags: [fn(PpuMask) -> bool; 8] = [
        PpuMask::grayscale,
        PpuMask::show_background_on_left,
        PpuMask::show_sprites_on_left,
        PpuMask::show_background,
        PpuMask::show_sprites,
        PpuMask::intensify_reds,
        PpuMask::intensify_greens,
        PpuMask::intensity_blues,
    ];
    for (bit, flag) in flags.iter().enumerate() {
        for v in 0u16..=255 {
            let byte = v as u8;
            assert_eq!(flag(PpuMask(byte)), byte & (1u8 << bit) != 0);
        }
    }
}

#[test]
fn mask_flags_on_chosen_bytes() {
    assert!(PpuMask(0x01).grayscale());
    assert!(!PpuMask(0x01).show_background_on_left());
    assert!(PpuMask(0x18).show_background());
    assert!(PpuMask(0x18).show_sprites());
    assert!(!PpuMask(0x18).intensify_reds());
    assert!(PpuMask(0x80).intensity_blues());
    assert!(!PpuMask(0x00).intensify_greens());
}

#[test]
fn status_setters_touch_one_bit() {
    let mut status = PpuStatus(0x1f);
    status.set_sprite_overflow(true);
    assert_eq!(status, PpuStatus(0x3f));
    status.set_sprite_zero_hit(true);
    assert_eq!(status, PpuStatus(0x7f));
    status.set_in_vblank(true);
    assert_eq!(status, PpuStatus(0xff));
    status.set_sprite_overflow(false);
    assert_eq!(status, PpuStatus(0xdf));
    status.set_sprite_zero_hit(false);
    assert_eq!(status, PpuStatus(0x9f));
    status.set_in_vblank(false);
    assert_eq!(status, PpuStatus(0x1f));
}

#[test]
fn status_setters_keep_low_bits_for_every_byte() {
    for v in 0u16..=255 {
        let byte = v as u8;
        for val in [false, true] {
            let mut s = PpuStatus(byte);
            s.set_sprite_overflow(val);
            assert_eq!(s.0 & !0x20, byte & !0x20);
            assert_eq!(s.0 & 0x20 != 0, val);
            let mut s = PpuStatus(byte);
            s.set_sprite_zero_hit(val);
            assert_eq!(s.0 & !0x40, byte & !0x40);
            assert_eq!(s.0 & 0x40 != 0, val);
            let mut s = PpuStatus(byte);
            s.set_in_vblank(val);
            assert_eq!(s.0 & !0x80, byte & !0x80);
            assert_eq!(s.0 & 0x80 != 0, val);
        }
    }
}

#[test]
fn status_setter_is_idempotent() {
    let mut status = PpuStatus(0xa5);
    status.set_in_vblank(true);
    assert_eq!(status.0, 0xa5);
    status.set_sprite_zero_hit(false);
    assert_eq!(status.0, 0xa5);
}
