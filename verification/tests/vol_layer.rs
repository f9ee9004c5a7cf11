use zygravan::cell::{Ewram, GbaCell};
use zygravan::palette::Color;
use zygravan::mem::MemImage;
use zygravan::palette::PalRam;
use zygravan::vol::{VolAddress, VolBlock, VolSeries};
use zygravan::volregion::VolRegion;

#[test]
fn block_index_addresses() {
    let base: usize = 0x0500_0000;
    let block: VolBlock<2, true, true, 256> = VolBlock::new(base);
    assert_eq!(block.len(), 256);
    assert_eq!(block.index(0).as_usize(), base);
    assert_eq!(block.index(1).as_usize(), base + 2);
    assert_eq!(block.index(255).as_usize(), base + 510);
    assert!(block.get(255).is_some());
    assert!(block.get(256).is_none());
}

#[test]
fn block_write_then_read() {
    let base: usize = 0x0500_0000;
    let mut mem = MemImage::new(base, 512);
    let block: VolBlock<2, true, true, 256> = VolBlock::new(base);
    assert_eq!(block.index(1).as_usize(), base + 2);
    block.index(1).write_u16(&mut mem, 0x1234);
    assert_eq!(block.index(1).read_u16(&mem), 0x1234);
    // the neighbouring slots are untouched
    assert_eq!(block.index(0).read_u16(&mem), 0);
    assert_eq!(block.index(2).read_u16(&mem), 0);
}

#[test]
fn address_add_scales_by_element_size() {
    let a: VolAddress<4, true, true> = VolAddress::new(0x0600_0000);
    assert_eq!(a.add(3).as_usize(), 0x0600_000C);
    let b: VolAddress<1, true, false> = VolAddress::new(0x0400_0000);
    assert_eq!(b.add(3).as_usize(), 0x0400_0003);
}

#[test]
fn mem_image_byte_and_word_access() {
    let mut mem = MemImage::new(0x0200_0000, 16);
    assert_eq!(mem.base(), 0x0200_0000);
    assert_eq!(mem.len(), 16);
    mem.write_u8(0x0200_0003, 0xAB);
    assert_eq!(mem.read_u8(0x0200_0003), 0xAB);
    mem.write_u32(0x0200_0008, 0xDEAD_BEEF);
    assert_eq!(mem.read_u32(0x0200_0008), 0xDEAD_BEEF);
    // the stores are little-endian
    assert_eq!(mem.read_u8(0x0200_0008), 0xEF);
    assert_eq!(mem.read_u8(0x0200_000B), 0xDE);
    assert_eq!(mem.read_u16(0x0200_0008), 0xBEEF);
}

#[test]
fn region_sub_slice_lengths() {
    let addr: VolAddress<2, true, true> = VolAddress::new(0x0600_0000);
    let region = VolRegion::from_raw_parts(addr, 100);
    assert_eq!(region.len(), 100);
    let sub = region.sub_slice(10, 40);
    assert_eq!(sub.len(), 30);
    assert_eq!(sub.addr().as_usize(), 0x0600_0000 + 10 * 2);
    let empty = region.sub_slice(100, 100);
    assert_eq!(empty.len(), 0);
}

#[test]
fn region_sub_slice_composes() {
    let addr: VolAddress<2, true, true> = VolAddress::new(0x0600_0000);
    let region = VolRegion::from_raw_parts(addr, 100);
    let nested = region.sub_slice(10, 40).sub_slice(5, 20);
    let direct = region.sub_slice(15, 30);
    assert_eq!(nested.addr().as_usize(), direct.addr().as_usize());
    assert_eq!(nested.len(), direct.len());
}

#[test]
fn region_index_and_get() {
    let addr: VolAddress<4, true, true> = VolAddress::new(0x0600_0000);
    let region = VolRegion::from_raw_parts(addr, 8);
    assert_eq!(region.index(7).as_usize(), 0x0600_0000 + 28);
    assert!(region.get(7).is_some());
    assert!(region.get(8).is_none());
}

#[test]
fn region_iteration() {
    let addr: VolAddress<2, true, true> = VolAddress::new(0x0600_0000);
    let region = VolRegion::from_raw_parts(addr, 4);
    let mut it = region.iter();
    let mut seen: Vec<usize> = Vec::new();
    while let Some(a) = it.next() {
        seen.push(a.as_usize());
    }
    assert_eq!(seen, vec![0x0600_0000, 0x0600_0002, 0x0600_0004, 0x0600_0006]);
    // a fresh pass restarts from the first element
    let mut again = region.iter();
    assert_eq!(again.next().unwrap().as_usize(), 0x0600_0000);
    // a ranged pass covers exactly the requested elements
    let mut ranged = region.iter_range(1, 3);
    assert_eq!(ranged.next().unwrap().as_usize(), 0x0600_0002);
    assert_eq!(ranged.next().unwrap().as_usize(), 0x0600_0004);
    assert!(ranged.next().is_none());
}

#[test]
fn series_index_uses_stride() {
    // six-byte elements spaced eight bytes apart, as the object attribute
    // table lays them out
    let series: VolSeries<6, true, true, 128, 8> = VolSeries::new(0x0700_0000);
    assert_eq!(series.len(), 128);
    assert_eq!(series.index(0).as_usize(), 0x0700_0000);
    assert_eq!(series.index(1).as_usize(), 0x0700_0008);
    assert_eq!(series.index(127).as_usize(), 0x0700_0000 + 127 * 8);
    assert!(series.get(128).is_none());
}

#[test]
fn block_to_region_keeps_length() {
    let block: VolBlock<2, true, true, 16> = VolBlock::new(0x0500_0000);
    let region = block.to_region();
    assert_eq!(region.len(), 16);
    assert_eq!(region.addr().as_usize(), 0x0500_0000);
}

#[test]
fn palette_layout() {
    assert_eq!(PalRam::backdrop().as_usize(), 0x0500_0000);
    assert_eq!(PalRam::bg().index(0).as_usize(), 0x0500_0000);
    assert_eq!(PalRam::obj().index(0).as_usize(), 0x0500_0200);
    assert_eq!(PalRam::bg_palbank(0).index(1).as_usize(), 0x0500_0002);
    assert_eq!(PalRam::bg_palbank(15).index(0).as_usize(), 0x0500_0000 + 15 * 32);
    assert_eq!(PalRam::obj_palbank(3).index(2).as_usize(), 0x0500_0200 + 3 * 32 + 4);
    assert!(PalRam::try_bg_palbank(15).is_some());
    assert!(PalRam::try_bg_palbank(16).is_none());
    assert!(PalRam::try_obj_palbank(16).is_none());
}

#[test]
fn palette_write_reads_back() {
    let mut mem = MemImage::new(0x0500_0000, 1024);
    let pink = Color::from_rgb(28, 15, 15);
    PalRam::bg_palbank(2).index(1).write_u16(&mut mem, pink.to_bits());
    let got = Color::from_bits(PalRam::bg_palbank(2).index(1).read_u16(&mem));
    assert_eq!(got.red(), 28);
    assert_eq!(got.green(), 15);
    assert_eq!(got.blue(), 15);
}

#[test]
fn ewram_region_layout() {
    let mut state: GbaCell<u8> = GbaCell::new(0);
    let ewram = Ewram::try_new(&mut state).unwrap();
    let region = ewram.region();
    assert_eq!(region.addr().as_usize(), 0x0200_0000);
    assert_eq!(region.len(), 65536);
    assert_eq!(region.index(1).as_usize(), 0x0200_0004);
    ewram.release(&mut state);
}
