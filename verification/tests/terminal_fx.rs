use zygravan::bg_charblock::BgCharblock;
use zygravan::bios::UnPackInfo;
use zygravan::fixed_point::Fx;
use zygravan::mem::MemImage;
use zygravan::terminal::TerminalPanel;
use zygravan::text_screenblock::{TextScreenEntry, TextScreenblock};

#[test]
fn panel_starts_clear() {
    let p = TerminalPanel::new();
    assert_eq!(p.position(), 0);
    assert_eq!(p.char_words().len(), 256);
    assert_eq!(p.bank_words().len(), 256);
    assert!(p.char_words().iter().all(|w| *w == 0));
    assert!(p.bank_words().iter().all(|w| *w == 0));
}

#[test]
fn panel_fill_chars_and_banks() {
    let mut p = TerminalPanel::new();
    p.set_all_chars('.');
    assert!(p.char_words().iter().all(|w| *w == 0x2E2E_2E2E));
    p.set_all_banks(5);
    assert!(p.bank_words().iter().all(|w| *w == 0x0505_0505));
    assert!(p.char_words().iter().all(|w| *w == 0x2E2E_2E2E));
    assert_eq!(p.position(), 0);
}

#[test]
fn panel_push_places_bytes() {
    let mut p = TerminalPanel::new();
    p.push_bytes(b"Hi");
    // 'H' and 'i' land in the low two lanes of the first word
    assert_eq!(p.char_words()[0], 0x6948_u32);
    assert_eq!(p.position(), 2);
}

#[test]
fn panel_newline_moves_to_next_line() {
    let mut p = TerminalPanel::new();
    p.push_bytes(b"A\nB");
    assert_eq!(p.char_words()[0] & 0xFF, b'A' as u32);
    // 'B' lands at the start of the second line, cell 32: word 8, lane 0
    assert_eq!(p.char_words()[8] & 0xFF, b'B' as u32);
    assert_eq!(p.position(), 33);
}

#[test]
fn panel_wraps_at_print_margin() {
    let mut p = TerminalPanel::new();
    // a line takes 30 characters before the panel moves on by itself
    let long = [b'x'; 31];
    p.push_bytes(&long);
    // the 31st byte lands on the second line
    assert_eq!(p.position(), 33);
    // cells 28 and 29 hold the margin's last characters; 30 and 31 stay empty
    assert_eq!(p.char_words()[7], (b'x' as u32) | ((b'x' as u32) << 8));
    assert_eq!(p.char_words()[8] & 0xFF, b'x' as u32);
}

#[test]
fn panel_change_line_wraps() {
    let mut p = TerminalPanel::new();
    p.change_line(1);
    assert_eq!(p.position(), 32);
    p.change_line(-2);
    assert_eq!(p.position(), 31 * 32);
    p.change_line(1);
    assert_eq!(p.position(), 0);
}

#[test]
fn panel_scroll_point_values() {
    let p = TerminalPanel::new();
    // on the first line the offset parks 19 lines of 8 dots above the panel
    assert_eq!(p.scroll_point(), 0u16.wrapping_sub(19 * 8));
    let mut q = TerminalPanel::new();
    q.change_line(19);
    assert_eq!(q.scroll_point(), 0);
    q.change_line(1);
    assert_eq!(q.scroll_point(), 8);
}

#[test]
fn fx_arithmetic() {
    let a: Fx<8> = Fx::from_raw(0x0100);
    let b: Fx<8> = Fx::from_raw(0x0080);
    assert_eq!(a.wrapping_add(b).into_raw(), 0x0180);
    assert_eq!(a.wrapping_sub(b).into_raw(), 0x0080);
    assert_eq!(a.checked_add(b).unwrap().into_raw(), 0x0180);
    let big: Fx<8> = Fx::from_raw(i16::MAX);
    assert!(big.checked_add(b).is_none());
    assert_eq!(big.saturating_add(b).into_raw(), i16::MAX);
    let small: Fx<8> = Fx::from_raw(i16::MIN);
    assert!(small.checked_sub(b).is_none());
    assert_eq!(small.saturating_sub(b).into_raw(), i16::MIN);
    assert_eq!(big.wrapping_add(Fx::from_raw(1)).into_raw(), i16::MIN);
}

#[test]
fn unpack_info_offset_and_flags() {
    let info = UnPackInfo::new(64, 1, 4, 7, true);
    assert_eq!(info.src_len, 64);
    assert_eq!(info.src_bit_width, 1);
    assert_eq!(info.dest_bit_width, 4);
    assert_eq!(info.offset(), 7);
    assert!(info.zero_data());
    assert_eq!(info.offset_and_flags, 0x8000_0007);
    let plain = UnPackInfo::new(64, 1, 4, 7, false);
    assert_eq!(plain.offset(), 7);
    assert!(!plain.zero_data());
    assert_eq!(plain.offset_and_flags, 7);
}

#[test]
fn charblock_tile_regions() {
    assert!(BgCharblock::try_new(4).is_none());
    let cb0 = BgCharblock::try_new(0).unwrap();
    let t4 = cb0.tiles4();
    assert_eq!(t4.addr().as_usize(), 0x0600_0000);
    assert_eq!(t4.len(), 1024);
    assert_eq!(t4.index(1).as_usize(), 0x0600_0020);
    let cb3 = BgCharblock::try_new(3).unwrap();
    assert_eq!(cb3.tiles4().addr().as_usize(), 0x0600_C000);
    assert_eq!(cb3.tiles4().len(), 512);
    assert_eq!(cb3.tiles8().len(), 256);
    let cb2 = BgCharblock::try_new(2).unwrap();
    assert_eq!(cb2.tiles8().len(), 512);
    assert_eq!(cb2.tiles8().index(1).as_usize(), 0x0600_8040);
}

#[test]
fn screenblock_layout() {
    assert!(TextScreenblock::try_new(32).is_none());
    let sb = TextScreenblock::try_new(8).unwrap();
    assert_eq!(sb.as_volblock().index(0).as_usize(), 0x0600_0000 + 8 * 2048);
    let sb0 = TextScreenblock::new(0);
    assert_eq!(sb0.as_volblock().index(1).as_usize(), 0x0600_0002);
}

#[test]
fn screenblock_write_all() {
    let sb = TextScreenblock::new(0);
    let mut mem = MemImage::new(0x0600_0000, 4096);
    // a sentinel just past the slot shows the write stays inside it
    mem.write_u16(0x0600_0800, 0xAAAA);
    let e = TextScreenEntry::from_id_bank(65, 3);
    sb.write_all(e, &mut mem);
    assert_eq!(mem.read_u16(0x0600_0000), e.to_bits());
    assert_eq!(mem.read_u16(0x0600_0002), e.to_bits());
    assert_eq!(mem.read_u16(0x0600_07FE), e.to_bits());
    assert_eq!(mem.read_u16(0x0600_0800), 0xAAAA);
}

#[test]
fn panel_push_nothing_changes_nothing() {
    let mut p = TerminalPanel::new();
    p.push_bytes(b"");
    assert_eq!(p.position(), 0);
    assert!(p.char_words().iter().all(|w| *w == 0));
}

#[test]
fn panel_scroll_point_last_line() {
    let mut p = TerminalPanel::new();
    p.change_line(31);
    assert_eq!(p.position(), 31 * 32);
    assert_eq!(p.scroll_point(), 96);
}

#[test]
fn screenblock_last_slot() {
    let sb = TextScreenblock::try_new(31).unwrap();
    assert_eq!(sb.as_volblock().index(0).as_usize(), 0x0600_F800);
}
