use zygravan::irq::IrqBits;
use zygravan::palette::Color;
use zygravan::text_screenblock::TextScreenEntry;
use zygravan::video::{BgControl, DisplayControl, ObjAttr0, ObjAttr1, ObjAttr2, ObjMode, ObjShape};

#[test]
fn irq_bits_roundtrip_and_independence() {
    let v = IrqBits::new().with_timer1(true);
    let w = v.with_vblank(true);
    assert!(w.vblank());
    // every other field is preserved bit-for-bit
    assert!(w.timer1());
    assert!(!w.hblank());
    assert!(!w.vcounter());
    assert!(!w.timer0());
    assert!(!w.timer2());
    assert!(!w.timer3());
    assert!(!w.serial());
    assert!(!w.dma0());
    assert!(!w.dma1());
    assert!(!w.dma2());
    assert!(!w.dma3());
    assert!(!w.keypad());
    assert!(!w.game_pak());
    // clearing the field restores it without touching the rest
    let x = w.with_vblank(false);
    assert!(!x.vblank());
    assert!(x.timer1());
    assert_eq!(x.to_bits(), IrqBits::new().with_timer1(true).to_bits());
}

#[test]
fn irq_bits_known_encodings() {
    assert_eq!(IrqBits::new().to_bits(), 0);
    assert_eq!(IrqBits::new().with_vblank(true).to_bits(), 0x0001);
    assert_eq!(IrqBits::new().with_hblank(true).to_bits(), 0x0002);
    assert_eq!(IrqBits::new().with_game_pak(true).to_bits(), 0x2000);
    assert_eq!(IrqBits::from_bits(0x2001).to_bits(), 0x2001);
    assert!(IrqBits::from_bits(0x2001).vblank());
    assert!(IrqBits::from_bits(0x2001).game_pak());
}

#[test]
fn display_control_scenario() {
    let v = DisplayControl::from_bits(0).with_display_bg0(true).with_forced_blank(true);
    assert!(v.display_bg0());
    assert!(v.forced_blank());
    assert_eq!(v.video_mode(), 0);
    assert!(!v.display_bg1());
    assert!(!v.display_obj());
    assert_eq!(v.to_bits(), 0x0180);
}

#[test]
fn display_control_video_mode_masks() {
    let v = DisplayControl::new().with_video_mode(3);
    assert_eq!(v.video_mode(), 3);
    assert_eq!(v.to_bits(), 3);
    // a value wider than the field is masked to the field's width
    let w = DisplayControl::new().with_video_mode(0xFFFF);
    assert_eq!(w.video_mode(), 7);
    assert_eq!(w.to_bits(), 7);
}

#[test]
fn bg_control_fields() {
    let v = BgControl::new().with_screenblock(8);
    assert_eq!(v.screenblock(), 8);
    assert_eq!(v.to_bits(), 8 << 8);
    let w = v.with_z_index(2).with_charblock(1).with_8bpp(true).with_screen_size(3);
    assert_eq!(w.z_index(), 2);
    assert_eq!(w.charblock(), 1);
    assert!(w.is_8bpp());
    assert_eq!(w.screen_size(), 3);
    assert_eq!(w.screenblock(), 8);
    assert!(!w.mosaic());
    assert!(!w.affine_wrap());
}

#[test]
fn obj_attr0_enum_fields() {
    let v = ObjAttr0::new().with_y(200).with_mode(ObjMode::Window).with_shape(
        ObjShape::Horizontal,
    );
    assert_eq!(v.y(), 200);
    assert_eq!(v.mode(), Some(ObjMode::Window));
    assert_eq!(v.shape(), Some(ObjShape::Horizontal));
    assert!(!v.affine());
    assert!(!v.disabled());
    // the undeclared two-bit pattern reads as absent and round-trips untouched
    let raw = ObjAttr0::from_bits(3 << 10);
    assert_eq!(raw.mode(), None);
    assert_eq!(raw.to_bits(), 3 << 10);
}

#[test]
fn obj_attr0_shared_bit() {
    let v = ObjAttr0::new().with_disabled(true);
    assert!(v.affine_double_size());
    assert_eq!(v.to_bits(), 1 << 9);
}

#[test]
fn obj_attr1_fields() {
    let v = ObjAttr1::new().with_x(400).with_obj_size(2);
    assert_eq!(v.x(), 400);
    assert_eq!(v.obj_size(), 2);
    assert!(!v.hflip());
    assert!(!v.vflip());
    // the flip bits lie inside the affine-parameter field
    let w = ObjAttr1::new().with_affine_index(0x1F);
    assert!(w.hflip());
    assert!(w.vflip());
    assert_eq!(w.affine_index(), 0x1F);
}

#[test]
fn obj_attr2_fields() {
    let v = ObjAttr2::new().with_base_tile(700).with_z_index(1).with_palbank(15);
    assert_eq!(v.base_tile(), 700);
    assert_eq!(v.z_index(), 1);
    assert_eq!(v.palbank(), 15);
    assert_eq!(v.to_bits(), 700 | (1 << 10) | (15 << 12));
}

#[test]
fn color_exact_encodings() {
    assert_eq!(Color::from_rgb(31, 0, 0).to_bits(), 0x001F);
    assert_eq!(Color::from_rgb(0, 31, 0).to_bits(), 0x03E0);
    assert_eq!(Color::from_rgb(0, 0, 31).to_bits(), 0x7C00);
    assert_eq!(Color::from_rgb(31, 31, 31).to_bits(), 0x7FFF);
    assert_eq!(Color::from_rgb(28, 15, 15).to_bits(), 28 | (15 << 5) | (15 << 10));
    // intensities wider than five bits are masked
    assert_eq!(Color::from_rgb(32, 0, 0).to_bits(), 0);
    let c = Color::from_bits(0x7C1F);
    assert_eq!(c.red(), 31);
    assert_eq!(c.green(), 0);
    assert_eq!(c.blue(), 31);
}

#[test]
fn text_screen_entry_fields() {
    let e = TextScreenEntry::new().with_tile_id(600).with_h_flip(true).with_palbank(9);
    assert_eq!(e.tile_id(), 600);
    assert!(e.h_flip());
    assert!(!e.v_flip());
    assert_eq!(e.palbank(), 9);
}

#[test]
fn text_screen_entry_from_id_bank() {
    let e = TextScreenEntry::from_id_bank(65, 3);
    assert_eq!(e.to_bits(), 65 | (3 << 12));
    assert_eq!(e.tile_id(), 65);
    assert_eq!(e.palbank(), 3);
    // the tile index is masked to nine bits, as the constructor promises
    let f = TextScreenEntry::from_id_bank(0x3FF, 0);
    assert_eq!(f.to_bits(), 0x1FF);
}
