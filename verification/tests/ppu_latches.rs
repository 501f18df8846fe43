use nes_core::bus::{MemState, Memory};
use nes_core::ppu::{AddressLatch, Ppu};

#[test]
fn default_values_match_power_on() {
    let ppu = Ppu::default();
    assert_eq!(ppu.cycles, 0);
    assert_eq!(ppu.mask, 0);
    assert!(ppu.frame_parity);
    assert!(ppu.addr.upper);
    let latch = AddressLatch::default();
    assert_eq!(latch.get_address(), 0);
    assert!(latch.upper);
}

#[test]
fn latch_composes_high_then_low() {
    let mut latch = AddressLatch::new();
    latch.set_address(0x3F);
    latch.set_address(0x10);
    assert_eq!(latch.get_address(), 0x3F10);
}

#[test]
fn latch_reset_forces_expect_high_byte() {
    let mut latch = AddressLatch::new();
    latch.set_address(0x12); // high written, low expected next
    latch.reset_address();
    latch.set_address(0x21);
    latch.set_address(0x08);
    assert_eq!(latch.get_address(), 0x2108);
}

#[test]
fn bus_records_ppu_register_writes() {
    let mut memory = Memory::new();
    memory.write(0x2000, 0x81);
    let (value, target) = memory.get_latch();
    assert_eq!(value, 0x81);
    assert_eq!(target, MemState::PpuCtrl);
    // consumed: a second poll sees nothing pending
    let (_, target) = memory.get_latch();
    assert_eq!(target, MemState::NoState);
    // the register window repeats every eight bytes
    memory.write(0x3FF6, 0x44);
    let (value, target) = memory.get_latch();
    assert_eq!(value, 0x44);
    assert_eq!(target, MemState::PpuAddr);
    // a write outside the window records nothing
    memory.write(0x1000, 0x55);
    let (_, target) = memory.get_latch();
    assert_eq!(target, MemState::NoState);
}

#[test]
fn bus_records_ppu_register_reads() {
    let mut memory = Memory::new();
    memory.load_mapped(0x2002);
    assert_eq!(memory.get_mem_load_status(), MemState::PpuStatus);
    assert_eq!(memory.get_mem_load_status(), MemState::NoState);
    memory.set_latch(0x77);
    assert_eq!(memory.load_mapped(0x2007), 0x77);
    assert_eq!(memory.get_mem_load_status(), MemState::PpuData);
}

#[test]
fn control_and_mask_writes_reach_the_registers() {
    let mut memory = Memory::new();
    let mut ppu = Ppu::new();
    memory.write(0x2000, 0x90);
    ppu.cycle(&mut memory).unwrap();
    assert_eq!(ppu.ctrl, 0x90);
    memory.write(0x2001, 0xFF);
    ppu.cycle(&mut memory).unwrap();
    assert_eq!(ppu.mask, 0xFF);
    assert!(ppu.grayscale());
    assert!(ppu.show_background());
    assert!(ppu.show_sprites());
    assert!(ppu.show_background_left());
    assert!(ppu.show_sprites_left());
    assert!(ppu.emphasize_red());
    assert!(ppu.emphasize_green());
    assert!(ppu.emphasize_blue());
}

#[test]
fn address_writes_assemble_high_then_low() {
    let mut memory = Memory::new();
    let mut ppu = Ppu::new();
    memory.write(0x2006, 0x21);
    ppu.cycle(&mut memory).unwrap();
    memory.write(0x2006, 0x08);
    ppu.cycle(&mut memory).unwrap();
    assert_eq!(ppu.addr.get_address(), 0x2108);
}

#[test]
fn status_read_resets_both_toggles() {
    let mut memory = Memory::new();
    let mut ppu = Ppu::new();
    // leave the address latch mid-pair
    memory.write(0x2006, 0x21);
    ppu.cycle(&mut memory).unwrap();
    // a status read forces "expect high byte" again
    memory.load_mapped(0x2002);
    ppu.cycle(&mut memory).unwrap();
    // a fresh pair is not partially overwritten by the stale high byte
    memory.write(0x2006, 0x3F);
    ppu.cycle(&mut memory).unwrap();
    memory.write(0x2006, 0x00);
    ppu.cycle(&mut memory).unwrap();
    assert_eq!(ppu.addr.get_address(), 0x3F00);
}

#[test]
fn status_read_clears_the_top_status_bits() {
    let mut memory = Memory::new();
    let mut ppu = Ppu::new();
    ppu.status = 0xFF;
    memory.load_mapped(0x2002);
    ppu.cycle(&mut memory).unwrap();
    assert_eq!(ppu.status, 0x1F);
    // vertical-blank, sprite-hit and overflow cleared; low bits kept
    ppu.status = 0x9F;
    memory.load_mapped(0x2002);
    ppu.cycle(&mut memory).unwrap();
    assert_eq!(ppu.status, 0x1F);
}

#[test]
fn scroll_latch_is_fed_separately() {
    let mut memory = Memory::new();
    let mut ppu = Ppu::new();
    memory.write(0x2005, 0x12);
    ppu.cycle(&mut memory).unwrap();
    memory.write(0x2005, 0x34);
    ppu.cycle(&mut memory).unwrap();
    assert_eq!(ppu.scroll.get_address(), 0x1234);
    assert_eq!(ppu.addr.get_address(), 0x0000);
}
