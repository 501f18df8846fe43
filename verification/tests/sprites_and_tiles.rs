use nes_core::ppu::{Oam, SpriteInfo, Tile};

#[test]
fn tile_assembles_high_byte_then_low_byte() {
    let mut tile = Tile::new();
    tile.set_tile_byte(0xAB);
    tile.set_tile_byte(0xCD);
    assert_eq!(tile.get_tile(), 0xABCD);
}

#[test]
fn tile_high_write_replaces_the_pair() {
    let mut tile = Tile::new();
    tile.set_tile_byte(0xAB);
    tile.set_tile_byte(0xCD);
    tile.set_tile_byte(0x12); // starts a fresh pair: low byte cleared
    assert_eq!(tile.get_tile(), 0x1200);
    tile.set_tile_byte(0x34);
    assert_eq!(tile.get_tile(), 0x1234);
}

#[test]
fn sprite_info_exposes_the_four_bytes() {
    let mut sprite = SpriteInfo::new();
    assert_eq!(sprite.y_position(), 0);
    sprite.y = 17;
    sprite.tile = 42;
    sprite.attributes = 0xE3;
    sprite.x = 99;
    assert_eq!(sprite.y_position(), 17);
    assert_eq!(sprite.tile_index(), 42);
    assert_eq!(sprite.x_position(), 99);
    assert!(sprite.sprite_priority());
    assert_eq!(sprite.palette(), 0x3);
    assert!(sprite.flip_horizontally());
    assert!(sprite.flip_vertically());
    sprite.attributes = 0x00;
    assert!(!sprite.sprite_priority());
    assert_eq!(sprite.palette(), 0);
    assert!(!sprite.flip_horizontally());
    assert!(!sprite.flip_vertically());
}

#[test]
fn sprite_reset_writes_the_empty_sentinel() {
    let mut sprite = SpriteInfo::new();
    sprite.reset();
    assert_eq!(sprite.y, 0xFF);
    assert_eq!(sprite.tile, 0xFF);
    assert_eq!(sprite.attributes, 0xFF);
    assert_eq!(sprite.x, 0xFF);
}

#[test]
fn oam_store_data_wraps_the_cursor() {
    let mut oam = Oam::new();
    let mut cursor: u8 = 255;
    oam.store_data(&mut cursor, 0x5A);
    assert_eq!(oam.mem[255], 0x5A);
    assert_eq!(cursor, 0);
}

#[test]
fn oam_load_and_store_access_primary_memory() {
    let mut oam = Oam::new();
    oam.store(0x80, 0x12);
    assert_eq!(oam.load(0x80), 0x12);
}

#[test]
fn reset_sec_oam_fills_every_record_with_0xff() {
    let mut oam = Oam::new();
    oam.secondary_idx = 3;
    oam.reset_sec_oam();
    for record in oam.secondary_mem.iter() {
        assert_eq!(record.y, 0xFF);
        assert_eq!(record.tile, 0xFF);
        assert_eq!(record.attributes, 0xFF);
        assert_eq!(record.x, 0xFF);
    }
}

fn put_sprite(oam: &mut Oam, slot: usize, y: u8, tile: u8, attributes: u8, x: u8) {
    oam.mem[4 * slot] = y;
    oam.mem[4 * slot + 1] = tile;
    oam.mem[4 * slot + 2] = attributes;
    oam.mem[4 * slot + 3] = x;
}

#[test]
fn sprite_evaluation_stages_in_range_sprites_in_order() {
    let mut oam = Oam::new();
    for slot in 0..64 {
        put_sprite(&mut oam, slot, 200, 0, 0, 0); // far below the scanline
    }
    put_sprite(&mut oam, 3, 10, 7, 0x23, 50); // rows 10..=17
    put_sprite(&mut oam, 9, 15, 8, 0x00, 60); // rows 15..=22
    put_sprite(&mut oam, 20, 16, 9, 0x40, 70); // rows 16..=23: out of range
    oam.store_secondary_oam(15);
    assert_eq!(oam.secondary_idx, 2);
    assert_eq!(oam.secondary_mem[0], SpriteInfo { y: 10, tile: 7, attributes: 0x23, x: 50 });
    assert_eq!(oam.secondary_mem[1], SpriteInfo { y: 15, tile: 8, attributes: 0x00, x: 60 });
    for slot in 2..8 {
        assert_eq!(oam.secondary_mem[slot].y, 0xFF);
    }
}

#[test]
fn sprite_evaluation_stages_at_most_eight() {
    let mut oam = Oam::new();
    for slot in 0..64 {
        put_sprite(&mut oam, slot, 20, slot as u8, 0, 0);
    }
    oam.store_secondary_oam(24);
    assert_eq!(oam.secondary_idx, 8);
    for slot in 0..8 {
        assert_eq!(oam.secondary_mem[slot].tile, slot as u8);
    }
}

#[test]
fn sprite_evaluation_resets_before_staging() {
    let mut oam = Oam::new();
    for slot in 0..64 {
        put_sprite(&mut oam, slot, 100, 1, 1, 1);
    }
    oam.store_secondary_oam(50); // every sprite out of range
    assert_eq!(oam.secondary_idx, 0);
    for record in oam.secondary_mem.iter() {
        assert_eq!(record.y, 0xFF);
    }
}

#[test]
fn sprite_evaluation_range_covers_exactly_eight_rows() {
    let mut oam = Oam::new();
    for slot in 0..64 {
        put_sprite(&mut oam, slot, 200, 0, 0, 0);
    }
    put_sprite(&mut oam, 0, 30, 1, 0, 0);
    oam.store_secondary_oam(30); // first row of the sprite
    assert_eq!(oam.secondary_idx, 1);
    oam.store_secondary_oam(37); // last row of the sprite
    assert_eq!(oam.secondary_idx, 1);
    oam.store_secondary_oam(38); // one past
    assert_eq!(oam.secondary_idx, 0);
    oam.store_secondary_oam(29); // one before
    assert_eq!(oam.secondary_idx, 0);
}
