use nes_core::bus::Memory;
use nes_core::ppu::{Ppu, PpuError};

#[test]
fn palette_mirror_maps_the_window() {
    let ppu = Ppu::new();
    // the four aliased indices fall to the background-colour slots
    assert_eq!(ppu.palette_mirror(0x3F10), 0x00);
    assert_eq!(ppu.palette_mirror(0x3F14), 0x04);
    assert_eq!(ppu.palette_mirror(0x3F18), 0x08);
    assert_eq!(ppu.palette_mirror(0x3F1C), 0x0C);
    // every other index of the window maps one-to-one
    for index in 0..0x20 {
        if index != 0x10 && index != 0x14 && index != 0x18 && index != 0x1C {
            assert_eq!(ppu.palette_mirror(0x3F00 + index), index);
        }
    }
    // the window repeats every 32 bytes
    assert_eq!(ppu.palette_mirror(0x3F25), 0x05);
}

#[test]
fn load_routes_below_palette_to_pattern_space() {
    let mut memory = Memory::new();
    let mut ppu = Ppu::new();
    memory.chr_store(0x0123, 0x99);
    ppu.addr.set_address(0x01);
    ppu.addr.set_address(0x23);
    assert_eq!(ppu.load(&memory), Ok(0x99));
}

#[test]
fn store_routes_palette_window_through_the_mirror() {
    let mut memory = Memory::new();
    let mut ppu = Ppu::new();
    ppu.addr.set_address(0x3F);
    ppu.addr.set_address(0x18);
    assert_eq!(ppu.store(&mut memory, 0x42), Ok(()));
    assert_eq!(ppu.palette[0x08], 0x42);
    assert_eq!(ppu.load(&memory), Ok(0x42));
}

#[test]
fn access_at_the_space_boundary_faults() {
    let mut memory = Memory::new();
    let mut ppu = Ppu::new();
    ppu.addr.set_address(0x40);
    ppu.addr.set_address(0x00);
    assert_eq!(ppu.load(&memory), Err(PpuError::AddressOutOfRange(0x4000)));
    assert_eq!(ppu.store(&mut memory, 1), Err(PpuError::AddressOutOfRange(0x4000)));
    // the fault leaves the palette untouched
    assert!(ppu.palette.iter().all(|b| *b == 0));
}
