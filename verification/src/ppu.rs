//! The picture processing unit: memory-mapped register latches, OAM sprite
//! tables, the palette with its mirroring rule, and the per-cycle timing
//! engine.
//!
//! Each `cycle` call services the register traffic the bus recorded since the
//! last step, performs a pending VRAM or palette access, advances the frame
//! clock, and reports what should be drawn as a plain value; the drawing
//! surface itself lives outside this crate.

use vstd::prelude::*;

use crate::bus::MemState;
use crate::bus::MemView;
use crate::bus::Memory;

verus! {

/// Bytes in the palette table.
pub const PALETTE_SIZE: usize = 0x20;
/// First PPU address inside the palette window.
pub const PALETTE_ADDRESS: u16 = 0x3F00;
/// First address past the PPU address space; reaching it is a fault.
pub const PPU_ADDRESS_SPACE: u16 = 0x4000;
/// Per-frame cycle budget: the cycle counter wraps when it reaches this.
pub const VBLANK_END: u32 = 27902;
/// Last scanline of the visible frame.
pub const LAST_VISIBLE_SCANLINE: u16 = 239;
/// Sprites in the primary OAM table.
pub const SPRITE_COUNT: usize = 64;
/// Records in the secondary OAM buffer.
pub const SECONDARY_SPRITE_COUNT: usize = 8;
/// Scanlines a sprite covers when it is in range.
pub const SPRITE_HEIGHT: u16 = 8;

/// The failure a PPU step can report: a VRAM access whose latched address
/// lies at or beyond the PPU address space.
#[derive(Clone, Copy, PartialEq, Eq, Structural, Debug)]
pub enum PpuError {
    AddressOutOfRange(u16),
}

/// The 16-bit background tile fetch register, assembled from two sequential
/// byte writes, high byte first.
#[derive(Clone, Copy, PartialEq, Eq, Structural, Debug)]
pub struct Tile {
    pub tile: u16,
    pub high: bool,
}

/// `t` after one byte is fed in: the first write of a pair replaces the
/// high byte (clearing the low one), the second fills the low byte, and the
/// half to write next toggles after each write.
pub open spec fn tile_write(t: Tile, byte: u8) -> Tile {
    if t.high {
        Tile { tile: (byte as u16) << 8, high: false }
    } else {
        Tile { tile: t.tile | byte as u16, high: true }
    }
}

impl Tile {
    /// An empty fetch register, expecting the high byte first.
    pub fn new() -> (r: Tile)
        ensures
            r == (Tile { tile: 0u16, high: true }),
    {
        Tile { tile: 0, high: true }
    }

    /// Feeds one fetched byte into the register.
    pub fn set_tile_byte(&mut self, byte: u8)
        ensures
            *final(self) == tile_write(*old(self), byte),
    {
        if self.high {
            self.tile = (byte as u16) << 8u16;
        } else {
            self.tile = self.tile | byte as u16;
        }
        self.high = !self.high;
    }

    /// The assembled 16-bit value.
    pub fn get_tile(&mut self) -> (r: u16)
        ensures
            *final(self) == *old(self),
            r == old(self).tile,
    {
        self.tile
    }
}

/// One secondary-OAM record: the four bytes of a sprite staged for the
/// current scanline.
#[derive(Clone, Copy, PartialEq, Eq, Structural, Debug)]
pub struct SpriteInfo {
    /// Vertical position (first sprite byte).
    pub y: u8,
    /// Tile index (second sprite byte).
    pub tile: u8,
    /// Attribute byte: priority, palette select, flip bits (third byte).
    pub attributes: u8,
    /// Horizontal position (fourth sprite byte).
    pub x: u8,
}

/// The hardware's "empty" sentinel record: all bytes 0xFF.
pub open spec fn sprite_empty() -> SpriteInfo {
    SpriteInfo { y: 0xFFu8, tile: 0xFFu8, attributes: 0xFFu8, x: 0xFFu8 }
}

impl SpriteInfo {
    /// A zeroed record.
    pub fn new() -> (r: SpriteInfo)
        ensures
            r == (SpriteInfo { y: 0u8, tile: 0u8, attributes: 0u8, x: 0u8 }),
    {
        SpriteInfo { y: 0, tile: 0, attributes: 0, x: 0 }
    }

    /// Sets every byte to the empty sentinel 0xFF.
    pub fn reset(&mut self)
        ensures
            *final(self) == sprite_empty(),
    {
        self.y = 0xFF;
        self.tile = 0xFF;
        self.attributes = 0xFF;
        self.x = 0xFF;
    }

    pub fn y_position(&mut self) -> (r: u8)
        ensures
            *final(self) == *old(self),
            r == old(self).y,
    {
        self.y
    }

    pub fn tile_index(&mut self) -> (r: u8)
        ensures
            *final(self) == *old(self),
            r == old(self).tile,
    {
        self.tile
    }

    pub fn x_position(&mut self) -> (r: u8)
        ensures
            *final(self) == *old(self),
            r == old(self).x,
    {
        self.x
    }

    /// True when the sprite stands in front of the background.
    pub fn sprite_priority(&mut self) -> (r: bool)
        ensures
            *final(self) == *old(self),
            r == (old(self).attributes & 0x20 != 0),
    {
        self.attributes & 0x20 != 0
    }

    /// The 2-bit palette select of the attribute byte.
    pub fn palette(&mut self) -> (r: u8)
        ensures
            *final(self) == *old(self),
            r == old(self).attributes & 0x3,
    {
        self.attributes & 0x3
    }

    pub fn flip_horizontally(&mut self) -> (r: bool)
        ensures
            *final(self) == *old(self),
            r == (old(self).attributes & 0x40 != 0),
    {
        self.attributes & 0x40 != 0
    }

    pub fn flip_vertically(&mut self) -> (r: bool)
        ensures
            *final(self) == *old(self),
            r == (old(self).attributes & 0x80 != 0),
    {
        self.attributes & 0x80 != 0
    }
}

/// An address-toggle latch: two sequential byte writes assemble a 16-bit
/// address, the first write setting the high byte.
#[derive(Clone, Copy, PartialEq, Eq, Structural, Debug)]
pub struct AddressLatch {
    pub laddr: u8,
    pub haddr: u8,
    /// True when the next write sets the high byte.
    pub upper: bool,
}

/// The 16-bit address a latch holds.
pub open spec fn latch_address(l: AddressLatch) -> u16 {
    (l.haddr as u16) << 8 | l.laddr as u16
}

/// `l` after one byte is written: the half selected by the toggle is
/// replaced and the toggle flips.
pub open spec fn latch_write(l: AddressLatch, value: u8) -> AddressLatch {
    if l.upper {
        AddressLatch { haddr: value, upper: false, ..l }
    } else {
        AddressLatch { laddr: value, upper: true, ..l }
    }
}

/// A cleared latch, expecting the high byte next.
pub open spec fn latch_reset() -> AddressLatch {
    AddressLatch { laddr: 0u8, haddr: 0u8, upper: true }
}

impl AddressLatch {
    /// A cleared latch, expecting the high byte next.
    pub fn new() -> (r: AddressLatch)
        ensures
            r == latch_reset(),
    {
        AddressLatch { laddr: 0, haddr: 0, upper: true }
    }

    /// Clears the latch and forces the toggle back to "expect high byte".
    pub fn reset_address(&mut self)
        ensures
            *final(self) == latch_reset(),
    {
        self.laddr = 0;
        self.haddr = 0;
        self.upper = true;
    }

    pub fn get_address(&self) -> (r: u16)
        ensures
            r == latch_address(*self),
    {
        (self.haddr as u16) << 8u16 | self.laddr as u16
    }

    /// Writes one byte into the half the toggle selects, flipping the toggle.
    pub fn set_address(&mut self, value: u8)
        ensures
            *final(self) == latch_write(*old(self), value),
    {
        if self.upper {
            self.haddr = value;
        } else {
            self.laddr = value;
        }
        self.upper = !self.upper;
    }
}

impl Default for AddressLatch {
    /// A cleared latch, expecting the high byte next.
    fn default() -> (r: AddressLatch)
        ensures
            r == latch_reset(),
    {
        AddressLatch::new()
    }
}

/// Writing byte H then byte L to a latch that expects the high byte yields
/// the composed address (H << 8 | L); after a reset, writing H2 then L2
/// yields (H2 << 8 | L2) regardless of what the latch held before.
pub proof fn lemma_latch_composition(l: AddressLatch, h: u8, low: u8, h2: u8, l2: u8)
    requires
        l.upper,
    ensures
        latch_address(latch_write(latch_write(l, h), low)) == (h as u16) << 8 | low as u16,
        latch_address(latch_write(latch_write(latch_reset(), h2), l2)) == (h2 as u16) << 8
            | l2 as u16,
{
}

/// Mathematical state of the OAM tables.
pub ghost struct OamView {
    pub mem: Seq<u8>,
    pub secondary: Seq<SpriteInfo>,
    pub idx: int,
}

/// Whether a sprite whose first byte is `y` covers `scanline`.
pub open spec fn sprite_in_range(y: u8, scanline: u8) -> bool {
    y <= scanline && scanline < y + SPRITE_HEIGHT
}

/// The record starting at sprite slot `i` of primary OAM.
pub open spec fn sprite_record(mem: Seq<u8>, i: int) -> SpriteInfo {
    SpriteInfo {
        y: mem[4 * i],
        tile: mem[4 * i + 1],
        attributes: mem[4 * i + 2],
        x: mem[4 * i + 3],
    }
}

/// Indices of the sprites staged for `scanline` among the first `n` sprites
/// of primary OAM: the first eight, in index order, whose y byte puts them
/// in range.
pub open spec fn selected_sprites(mem: Seq<u8>, scanline: u8, n: nat) -> Seq<int>
    decreases n,
{
    if n == 0 {
        Seq::empty()
    } else {
        let prev = selected_sprites(mem, scanline, (n - 1) as nat);
        if sprite_in_range(mem[4 * (n - 1)], scanline) && prev.len() < SECONDARY_SPRITE_COUNT {
            prev.push(n - 1)
        } else {
            prev
        }
    }
}

/// Sprite evaluation never stages more than eight records, and it only
/// stages sprites that exist and are in range for the scanline.
pub proof fn lemma_selected_sprites_bounds(mem: Seq<u8>, scanline: u8, n: nat)
    ensures
        selected_sprites(mem, scanline, n).len() <= SECONDARY_SPRITE_COUNT,
        forall|j: int|
            0 <= j < selected_sprites(mem, scanline, n).len() ==> {
                &&& 0 <= #[trigger] selected_sprites(mem, scanline, n)[j] < n
                &&& sprite_in_range(mem[4 * selected_sprites(mem, scanline, n)[j]], scanline)
            },
    decreases n,
{
    if n > 0 {
        lemma_selected_sprites_bounds(mem, scanline, (n - 1) as nat);
    }
}

/// Object Attribute Memory: the 256-byte primary sprite table, the 8-record
/// secondary buffer staged for the current scanline, and the count of
/// records staged.
pub struct Oam {
    pub mem: Vec<u8>,
    pub secondary_mem: Vec<SpriteInfo>,
    pub secondary_idx: usize,
}

impl View for Oam {
    type V = OamView;

    open spec fn view(&self) -> OamView {
        OamView { mem: self.mem@, secondary: self.secondary_mem@, idx: self.secondary_idx as int }
    }
}

impl Oam {
    pub open spec fn wf(&self) -> bool {
        &&& self@.mem.len() == 4 * SPRITE_COUNT
        &&& self@.secondary.len() == SECONDARY_SPRITE_COUNT
        &&& 0 <= self@.idx <= SECONDARY_SPRITE_COUNT
    }

    /// Fresh tables: primary OAM zeroed, secondary records zeroed, nothing
    /// staged.
    pub fn new() -> (r: Oam)
        ensures
            r.wf(),
            r@.mem == Seq::new((4 * SPRITE_COUNT) as nat, |i: int| 0u8),
            r@.secondary == Seq::new(
                SECONDARY_SPRITE_COUNT as nat,
                |i: int| SpriteInfo { y: 0u8, tile: 0u8, attributes: 0u8, x: 0u8 },
            ),
            r@.idx == 0,
    {
        let mut mem: Vec<u8> = Vec::new();
        let mut i: usize = 0;
        while i < 4 * SPRITE_COUNT
            invariant
                i <= 4 * SPRITE_COUNT,
                mem@ =~= Seq::new(i as nat, |j: int| 0u8),
            decreases 4 * SPRITE_COUNT - i,
        {
            mem.push(0);
            i = i + 1;
        }
        let mut secondary_mem: Vec<SpriteInfo> = Vec::new();
        let mut k: usize = 0;
        while k < SECONDARY_SPRITE_COUNT
            invariant
                k <= SECONDARY_SPRITE_COUNT,
                secondary_mem@ =~= Seq::new(
                    k as nat,
                    |j: int| SpriteInfo { y: 0u8, tile: 0u8, attributes: 0u8, x: 0u8 },
                ),
            decreases SECONDARY_SPRITE_COUNT - k,
        {
            secondary_mem.push(SpriteInfo::new());
            k = k + 1;
        }
        Oam { mem, secondary_mem, secondary_idx: 0 }
    }

    /// Stores one byte at the cursor and advances the cursor, wrapping 255
    /// back to 0 (the write lands before the cursor moves).
    pub fn store_data(&mut self, address: &mut u8, value: u8)
        requires
            old(self).wf(),
        ensures
            final(self).wf(),
            final(self)@ == (OamView {
                mem: old(self)@.mem.update(*old(address) as int, value),
                ..old(self)@
            }),
            *final(address) == old(address).wrapping_add(1),
    {
        self.mem.set(*address as usize, value);
        *address = address.wrapping_add(1);
    }

    /// Reads one byte of primary OAM.
    pub fn load(&self, address: u16) -> (r: u8)
        requires
            self.wf(),
            address < 4 * SPRITE_COUNT,
        ensures
            r == self@.mem[address as int],
    {
        self.mem[address as usize]
    }

    /// Writes one byte of primary OAM.
    pub fn store(&mut self, address: u16, value: u8)
        requires
            old(self).wf(),
            address < 4 * SPRITE_COUNT,
        ensures
            final(self).wf(),
            final(self)@ == (OamView {
                mem: old(self)@.mem.update(address as int, value),
                ..old(self)@
            }),
    {
        self.mem.set(address as usize, value);
    }

    /// Clears the secondary buffer: every record becomes the all-0xFF empty
    /// sentinel.
    pub fn reset_sec_oam(&mut self)
        requires
            old(self).wf(),
        ensures
            final(self).wf(),
            final(self)@ == (OamView {
                secondary: Seq::new(SECONDARY_SPRITE_COUNT as nat, |i: int| sprite_empty()),
                ..old(self)@
            }),
    {
        let mut i: usize = 0;
        while i < SECONDARY_SPRITE_COUNT
            invariant
                old(self).wf(),
                i <= SECONDARY_SPRITE_COUNT,
                self@.mem == old(self)@.mem,
                self@.idx == old(self)@.idx,
                self@.secondary.len() == SECONDARY_SPRITE_COUNT,
                forall|j: int| 0 <= j < i ==> self@.secondary[j] == sprite_empty(),
                forall|j: int|
                    i <= j < SECONDARY_SPRITE_COUNT ==> self@.secondary[j] == old(self)@.secondary[j],
            decreases SECONDARY_SPRITE_COUNT - i,
        {
            let mut sprite = self.secondary_mem[i];
            sprite.reset();
            self.secondary_mem.set(i, sprite);
            i = i + 1;
        }
        proof {
            assert(self@.secondary =~= Seq::new(
                SECONDARY_SPRITE_COUNT as nat,
                |i: int| sprite_empty(),
            ));
        }
    }

    /// Sprite evaluation for one scanline: resets the secondary buffer to the
    /// empty sentinel, then stages the first eight sprites of primary OAM, in
    /// index order, whose y byte puts the scanline within their eight rows.
    pub fn store_secondary_oam(&mut self, scanline: u8)
        requires
            old(self).wf(),
        ensures
            final(self).wf(),
            final(self)@.mem == old(self)@.mem,
            final(self)@.idx == selected_sprites(old(self)@.mem, scanline, SPRITE_COUNT as nat).len(),
            forall|j: int|
                0 <= j < final(self)@.idx ==> final(self)@.secondary[j] == sprite_record(
                    old(self)@.mem,
                    selected_sprites(old(self)@.mem, scanline, SPRITE_COUNT as nat)[j],
                ),
            forall|j: int|
                final(self)@.idx <= j < SECONDARY_SPRITE_COUNT ==> final(self)@.secondary[j]
                    == sprite_empty(),
    {
        self.reset_sec_oam();
        self.secondary_idx = 0;
        let ghost mem0 = self@.mem;
        let mut i: usize = 0;
        while i < SPRITE_COUNT
            invariant
                self.wf(),
                i <= SPRITE_COUNT,
                self@.mem == mem0,
                self@.idx == selected_sprites(mem0, scanline, i as nat).len(),
                forall|j: int|
                    0 <= j < self@.idx ==> self@.secondary[j] == sprite_record(
                        mem0,
                        selected_sprites(mem0, scanline, i as nat)[j],
                    ),
                forall|j: int|
                    self@.idx <= j < SECONDARY_SPRITE_COUNT ==> self@.secondary[j] == sprite_empty(),
            decreases SPRITE_COUNT - i,
        {
            proof {
                lemma_selected_sprites_bounds(mem0, scanline, i as nat);
            }
            let y = self.mem[4 * i];
            if y as u16 <= scanline as u16 && (scanline as u16) < y as u16 + SPRITE_HEIGHT
                && self.secondary_idx < SECONDARY_SPRITE_COUNT {
                let record = SpriteInfo {
                    y,
                    tile: self.mem[4 * i + 1],
                    attributes: self.mem[4 * i + 2],
                    x: self.mem[4 * i + 3],
                };
                self.secondary_mem.set(self.secondary_idx, record);
                self.secondary_idx = self.secondary_idx + 1;
            }
            i = i + 1;
        }
    }
}

impl Default for Oam {
    /// Fresh tables, as `Oam::new` builds them.
    fn default() -> (r: Oam)
        ensures
            r.wf(),
            r@.mem == Seq::new((4 * SPRITE_COUNT) as nat, |i: int| 0u8),
            r@.idx == 0,
    {
        Oam::new()
    }
}

/// Mathematical state of the PPU engine.
pub ghost struct PpuView {
    pub palette: Seq<u8>,
    pub oam: OamView,
    pub ctrl: u8,
    pub mask: u8,
    pub status: u8,
    pub scroll: AddressLatch,
    pub addr: AddressLatch,
    pub oamaddr: u8,
    pub scanline: u16,
    pub scanline_width: u16,
    pub cycles: u32,
    pub fps: u32,
    pub oam_index: u16,
    pub frame_parity: bool,
    pub name_table_byte: u8,
    pub attr_byte: u8,
    pub tile: Tile,
}

/// The power-on state of the PPU: everything zeroed, both latches expecting
/// a high byte, even/odd frame parity at its initial value.
pub open spec fn power_on() -> PpuView {
    PpuView {
        palette: Seq::new(PALETTE_SIZE as nat, |i: int| 0u8),
        oam: OamView {
            mem: Seq::new((4 * SPRITE_COUNT) as nat, |i: int| 0u8),
            secondary: Seq::new(
                SECONDARY_SPRITE_COUNT as nat,
                |i: int| SpriteInfo { y: 0u8, tile: 0u8, attributes: 0u8, x: 0u8 },
            ),
            idx: 0,
        },
        ctrl: 0u8,
        mask: 0u8,
        status: 0u8,
        scroll: latch_reset(),
        addr: latch_reset(),
        oamaddr: 0u8,
        scanline: 0u16,
        scanline_width: 0u16,
        cycles: 0u32,
        fps: 0u32,
        oam_index: 0u16,
        frame_parity: true,
        name_table_byte: 0u8,
        attr_byte: 0u8,
        tile: Tile { tile: 0u16, high: true },
    }
}

/// The palette index a PPU address reaches: the low five bits, with byte
/// indices 0x10/0x14/0x18/0x1C aliasing 0x00/0x04/0x08/0x0C.
pub open spec fn palette_mirror_spec(address: usize) -> usize {
    let index = address & 0x1F;
    if index & 0x3 == 0 {
        index & 0xF
    } else {
        index
    }
}

/// The mirroring rule lands every address inside the palette table, sends
/// exactly the indices 0x10/0x14/0x18/0x1C down by 0x10, and leaves every
/// other index of the 32-byte window where it is.
pub proof fn lemma_palette_mirroring(address: usize)
    by (bit_vector)
    ensures
        palette_mirror_spec(address) < 0x20,
        (address & 0x1F == 0x10 || address & 0x1F == 0x14 || address & 0x1F == 0x18 || address
            & 0x1F == 0x1C) ==> palette_mirror_spec(address) == (address & 0x1F) - 0x10,
        !(address & 0x1F == 0x10 || address & 0x1F == 0x14 || address & 0x1F == 0x18 || address
            & 0x1F == 0x1C) ==> palette_mirror_spec(address) == address & 0x1F,
{
}

/// What a VRAM/palette read at the current address latch returns: addresses
/// below the palette window read the pattern/nametable space, addresses in
/// the window read the palette through the mirroring rule, and anything at
/// or beyond the PPU address space is a fault.
pub open spec fn vram_read(p: PpuView, chr: Seq<u8>) -> Result<u8, PpuError> {
    let address = latch_address(p.addr);
    if address < PALETTE_ADDRESS {
        Ok(chr[address as int])
    } else if address < PPU_ADDRESS_SPACE {
        Ok(p.palette[palette_mirror_spec(address as usize) as int])
    } else {
        Err(PpuError::AddressOutOfRange(address))
    }
}

/// Effect of a VRAM/palette store at the current address latch: the PPU
/// state, the pattern/nametable space, and the outcome.
pub open spec fn vram_write(p: PpuView, chr: Seq<u8>, value: u8) -> (PpuView, Seq<u8>, Result<
    (),
    PpuError,
>) {
    let address = latch_address(p.addr);
    if address < PALETTE_ADDRESS {
        (p, chr.update(address as int, value), Ok(()))
    } else if address < PPU_ADDRESS_SPACE {
        (
            PpuView {
                palette: p.palette.update(palette_mirror_spec(address as usize) as int, value),
                ..p
            },
            chr,
            Ok(()),
        )
    } else {
        (p, chr, Err(PpuError::AddressOutOfRange(address)))
    }
}

/// Result of servicing the bus latches on one step.
pub ghost struct ServiceStep {
    pub ppu: PpuView,
    pub mem: MemView,
    pub result: Result<(), PpuError>,
}

/// Effect of servicing the most recent CPU write: the recorded byte lands in
/// the register it targeted, and the event is consumed.
pub open spec fn apply_latch_write(p: PpuView, m: MemView) -> ServiceStep {
    let m1 = MemView { latch_target: MemState::NoState, ..m };
    let v = m.latch_value;
    match m.latch_target {
        MemState::PpuCtrl => ServiceStep { ppu: PpuView { ctrl: v, ..p }, mem: m1, result: Ok(()) },
        MemState::PpuMask => ServiceStep { ppu: PpuView { mask: v, ..p }, mem: m1, result: Ok(()) },
        MemState::OamAddr => ServiceStep {
            ppu: PpuView { oamaddr: v, ..p },
            mem: m1,
            result: Ok(()),
        },
        MemState::OamData => ServiceStep {
            ppu: PpuView {
                oam: OamView { mem: p.oam.mem.update(p.oamaddr as int, v), ..p.oam },
                oamaddr: p.oamaddr.wrapping_add(1),
                ..p
            },
            mem: m1,
            result: Ok(()),
        },
        MemState::PpuScroll => ServiceStep {
            ppu: PpuView { scroll: latch_write(p.scroll, v), ..p },
            mem: m1,
            result: Ok(()),
        },
        MemState::PpuAddr => ServiceStep {
            ppu: PpuView { addr: latch_write(p.addr, v), ..p },
            mem: m1,
            result: Ok(()),
        },
        MemState::PpuData => {
            let w = vram_write(p, m.chr, v);
            ServiceStep { ppu: w.0, mem: MemView { chr: w.1, ..m1 }, result: w.2 }
        },
        _ => ServiceStep { ppu: p, mem: m1, result: Ok(()) },
    }
}

/// Effect of servicing the most recent CPU read: a status read resets both
/// address-toggle latches and clears the top status bits (vertical-blank,
/// sprite-hit and overflow), keeping the low ones; a data read stages the
/// loaded byte for the CPU. The event is consumed.
pub open spec fn apply_status_read(p: PpuView, m: MemView) -> ServiceStep {
    let m1 = MemView { load_status: MemState::NoState, ..m };
    match m.load_status {
        MemState::PpuStatus => ServiceStep {
            ppu: PpuView { addr: latch_reset(), scroll: latch_reset(), status: p.status & 0x1F, ..p },
            mem: m1,
            result: Ok(()),
        },
        MemState::PpuData => match vram_read(p, m.chr) {
            Ok(value) => ServiceStep {
                ppu: p,
                mem: MemView { read_buffer: value, ..m1 },
                result: Ok(()),
            },
            Err(e) => ServiceStep { ppu: p, mem: m1, result: Err(e) },
        },
        _ => ServiceStep { ppu: p, mem: m1, result: Ok(()) },
    }
}

/// One full latch-servicing pass: the pending write first, then the pending
/// read; a faulting write leaves the read pending.
pub open spec fn service_spec(p: PpuView, m: MemView) -> ServiceStep {
    let w = apply_latch_write(p, m);
    if w.result is Err {
        w
    } else {
        apply_status_read(w.ppu, w.mem)
    }
}

/// What one step tells the drawing surface to do.
#[derive(Clone, Copy, PartialEq, Eq, Structural, Debug)]
pub struct DrawCmd {
    pub x: u16,
    pub y: u16,
    pub red: u8,
    pub green: u8,
    pub blue: u8,
    /// True when this pixel completes the visible frame, so the surface
    /// should present before the next frame's counting begins.
    pub present: bool,
}

/// Whether the mask register enables rendering (sprites or background).
pub open spec fn rendering_enabled(mask: u8) -> bool {
    mask & 0x10 != 0 || mask & 0x08 != 0
}

/// One rendering advance: the pixel emitted at the current scanline position
/// and the scanline stepping, wrapping after the last visible line with a
/// present request.
pub open spec fn draw_spec(p: PpuView) -> (PpuView, DrawCmd) {
    let cmd = DrawCmd {
        x: p.scanline,
        y: p.scanline,
        red: p.scanline as u8,
        green: p.scanline as u8,
        blue: 20u8,
        present: p.scanline == LAST_VISIBLE_SCANLINE,
    };
    if p.scanline == LAST_VISIBLE_SCANLINE {
        (PpuView { scanline: 0u16, ..p }, cmd)
    } else {
        (PpuView { scanline: (p.scanline + 1) as u16, ..p }, cmd)
    }
}

/// One tick of the frame clock: the cycle counter advances; reaching the
/// per-frame budget resets it, counts the frame and toggles frame parity.
pub open spec fn clock_spec(p: PpuView) -> PpuView {
    if p.cycles + 1 == VBLANK_END {
        PpuView { cycles: 0u32, fps: (p.fps + 1) as u32, frame_parity: !p.frame_parity, ..p }
    } else {
        PpuView { cycles: (p.cycles + 1) as u32, ..p }
    }
}

/// State and pixel output of one step after the latches were serviced.
pub open spec fn cycle_result(p: PpuView) -> (PpuView, Option<DrawCmd>) {
    if rendering_enabled(p.mask) {
        let d = draw_spec(p);
        (clock_spec(d.0), Some(d.1))
    } else {
        (clock_spec(p), None)
    }
}

/// The timing fields of the PPU, on their own.
pub ghost struct FrameClock {
    pub cycles: int,
    pub fps: int,
    pub parity: bool,
}

pub open spec fn frame_clock(p: PpuView) -> FrameClock {
    FrameClock { cycles: p.cycles as int, fps: p.fps as int, parity: p.frame_parity }
}

/// The frame clock after one step.
pub open spec fn frame_clock_step(t: FrameClock) -> FrameClock {
    if t.cycles + 1 == VBLANK_END {
        FrameClock { cycles: 0, fps: t.fps + 1, parity: !t.parity }
    } else {
        FrameClock { cycles: t.cycles + 1, ..t }
    }
}

/// The frame clock after `n` steps.
pub open spec fn frame_clock_iter(t: FrameClock, n: nat) -> FrameClock
    decreases n,
{
    if n == 0 {
        t
    } else {
        frame_clock_step(frame_clock_iter(t, (n - 1) as nat))
    }
}

proof fn lemma_frame_clock_counts(t: FrameClock, k: nat)
    requires
        t.cycles == 0,
        k < VBLANK_END,
    ensures
        frame_clock_iter(t, k) == (FrameClock { cycles: k as int, fps: t.fps, parity: t.parity }),
    decreases k,
{
    if k > 0 {
        lemma_frame_clock_counts(t, (k - 1) as nat);
    }
}

/// Starting a frame with the cycle counter at 0, after exactly the per-frame
/// cycle budget of steps the counter is back at 0, the frame counter has
/// grown by exactly 1, and frame parity has flipped exactly once.
pub proof fn lemma_frame_cycle_budget(t: FrameClock)
    requires
        t.cycles == 0,
    ensures
        frame_clock_iter(t, VBLANK_END as nat) == (FrameClock {
            cycles: 0,
            fps: t.fps + 1,
            parity: !t.parity,
        }),
{
    lemma_frame_clock_counts(t, (VBLANK_END - 1) as nat);
}

/// The PPU engine: palette, OAM, memory-mapped registers, the two
/// address-toggle latches, and the frame clock.
pub struct Ppu {
    pub palette: Vec<u8>,
    pub oam: Oam,
    pub ctrl: u8,
    pub mask: u8,
    pub status: u8,
    pub scroll: AddressLatch,
    pub addr: AddressLatch,
    pub oamaddr: u8,
    pub scanline: u16,
    pub scanline_width: u16,
    pub cycles: u32,
    pub fps: u32,
    pub oam_index: u16,
    pub frame_parity: bool,
    pub name_table_byte: u8,
    pub attr_byte: u8,
    pub tile: Tile,
}

impl View for Ppu {
    type V = PpuView;

    open spec fn view(&self) -> PpuView {
        PpuView {
            palette: self.palette@,
            oam: self.oam@,
            ctrl: self.ctrl,
            mask: self.mask,
            status: self.status,
            scroll: self.scroll,
            addr: self.addr,
            oamaddr: self.oamaddr,
            scanline: self.scanline,
            scanline_width: self.scanline_width,
            cycles: self.cycles,
            fps: self.fps,
            oam_index: self.oam_index,
            frame_parity: self.frame_parity,
            name_table_byte: self.name_table_byte,
            attr_byte: self.attr_byte,
            tile: self.tile,
        }
    }
}

impl Ppu {
    /// The palette has its full size, the OAM tables are well formed, the
    /// scanline stays within the visible frame and the cycle counter below
    /// the per-frame budget.
    pub open spec fn wf(&self) -> bool {
        &&& self@.palette.len() == PALETTE_SIZE
        &&& self.oam.wf()
        &&& self@.scanline <= LAST_VISIBLE_SCANLINE
        &&& self@.cycles < VBLANK_END
    }

    /// A powered-on PPU, per `power_on`.
    pub fn new() -> (r: Ppu)
        ensures
            r.wf(),
            r@ == power_on(),
    {
        let mut palette: Vec<u8> = Vec::new();
        let mut i: usize = 0;
        while i < PALETTE_SIZE
            invariant
                i <= PALETTE_SIZE,
                palette@ =~= Seq::new(i as nat, |j: int| 0u8),
            decreases PALETTE_SIZE - i,
        {
            palette.push(0);
            i = i + 1;
        }
        Ppu {
            palette,
            oam: Oam::new(),
            ctrl: 0,
            mask: 0,
            status: 0,
            scroll: AddressLatch::new(),
            addr: AddressLatch::new(),
            oamaddr: 0,
            scanline: 0,
            scanline_width: 0,
            cycles: 0,
            fps: 0,
            oam_index: 0,
            frame_parity: true,
            name_table_byte: 0,
            attr_byte: 0,
            tile: Tile::new(),
        }
    }

    pub fn grayscale(&mut self) -> (r: bool)
        ensures
            *final(self) == *old(self),
            r == (old(self)@.mask & 0x01 != 0),
    {
        self.mask & 0x01 != 0
    }

    pub fn show_sprites(&mut self) -> (r: bool)
        ensures
            *final(self) == *old(self),
            r == (old(self)@.mask & 0x10 != 0),
    {
        self.mask & 0x10 != 0
    }

    pub fn show_background(&mut self) -> (r: bool)
        ensures
            *final(self) == *old(self),
            r == (old(self)@.mask & 0x08 != 0),
    {
        self.mask & 0x08 != 0
    }

    pub fn show_sprites_left(&mut self) -> (r: bool)
        ensures
            *final(self) == *old(self),
            r == (old(self)@.mask & 0x04 != 0),
    {
        self.mask & 0x04 != 0
    }

    pub fn show_background_left(&mut self) -> (r: bool)
        ensures
            *final(self) == *old(self),
            r == (old(self)@.mask & 0x02 != 0),
    {
        self.mask & 0x02 != 0
    }

    pub fn emphasize_red(&mut self) -> (r: bool)
        ensures
            *final(self) == *old(self),
            r == (old(self)@.mask & 0x20 != 0),
    {
        self.mask & 0x20 != 0
    }

    pub fn emphasize_blue(&mut self) -> (r: bool)
        ensures
            *final(self) == *old(self),
            r == (old(self)@.mask & 0x80 != 0),
    {
        self.mask & 0x80 != 0
    }

    pub fn emphasize_green(&mut self) -> (r: bool)
        ensures
            *final(self) == *old(self),
            r == (old(self)@.mask & 0x40 != 0),
    {
        self.mask & 0x40 != 0
    }

    /// The frames counted since this was last called; the counter restarts.
    /// The caller owns reporting the number.
    pub fn take_fps(&mut self) -> (r: u32)
        requires
            old(self).wf(),
        ensures
            final(self).wf(),
            r == old(self)@.fps,
            final(self)@ == (PpuView { fps: 0u32, ..old(self)@ }),
    {
        let fps = self.fps;
        self.fps = 0;
        fps
    }

    /// Maps a PPU address into the palette table per the mirroring rule.
    pub fn palette_mirror(&self, address: usize) -> (r: usize)
        ensures
            r == palette_mirror_spec(address),
            r < PALETTE_SIZE,
    {
        proof {
            lemma_palette_mirroring(address);
        }
        let index = address & 0x1F;
        if index & 0x3 == 0 {
            index & 0xF
        } else {
            index
        }
    }

    /// VRAM/palette load at the current address latch.
    pub fn load(&self, memory: &Memory) -> (r: Result<u8, PpuError>)
        requires
            self.wf(),
            memory.wf(),
        ensures
            r == vram_read(self@, memory@.chr),
    {
        let address = self.addr.get_address();
        if address < PALETTE_ADDRESS {
            Ok(memory.chr_load(address))
        } else if address < PPU_ADDRESS_SPACE {
            let index = self.palette_mirror(address as usize);
            Ok(self.palette[index])
        } else {
            Err(PpuError::AddressOutOfRange(address))
        }
    }

    /// VRAM/palette store at the current address latch.
    pub fn store(&mut self, memory: &mut Memory, value: u8) -> (r: Result<(), PpuError>)
        requires
            old(self).wf(),
            old(memory).wf(),
        ensures
            final(self).wf(),
            final(memory).wf(),
            ({
                let w = vram_write(old(self)@, old(memory)@.chr, value);
                &&& final(self)@ == w.0
                &&& final(memory)@ == (MemView { chr: w.1, ..old(memory)@ })
                &&& r == w.2
            }),
    {
        let address = self.addr.get_address();
        if address < PALETTE_ADDRESS {
            memory.chr_store(address, value);
            Ok(())
        } else if address < PPU_ADDRESS_SPACE {
            let index = self.palette_mirror(address as usize);
            self.palette.set(index, value);
            Ok(())
        } else {
            Err(PpuError::AddressOutOfRange(address))
        }
    }

    /// Reads the primary OAM byte at the OAM address cursor.
    pub fn load_from_oam(&mut self) -> (r: u8)
        requires
            old(self).wf(),
        ensures
            *final(self) == *old(self),
            r == old(self)@.oam.mem[old(self)@.oamaddr as int],
    {
        self.oam.load(self.oamaddr as u16)
    }

    /// Services the register traffic the bus recorded since the last step:
    /// first the most recent CPU write, then the most recent CPU read, each
    /// consumed by being serviced, per `service_spec`.
    fn ls_latches(&mut self, memory: &mut Memory) -> (r: Result<(), PpuError>)
        requires
            old(self).wf(),
            old(memory).wf(),
        ensures
            final(self).wf(),
            final(memory).wf(),
            ({
                let s = service_spec(old(self)@, old(memory)@);
                &&& final(self)@ == s.ppu
                &&& final(memory)@ == s.mem
                &&& r == s.result
            }),
    {
        let (latch, target) = memory.get_latch();
        match target {
            MemState::PpuCtrl => {
                self.ctrl = latch;
            },
            MemState::PpuMask => {
                self.mask = latch;
            },
            MemState::OamAddr => {
                self.oamaddr = latch;
            },
            MemState::OamData => {
                let mut cursor = self.oamaddr;
                self.oam.store_data(&mut cursor, latch);
                self.oamaddr = cursor;
            },
            MemState::PpuScroll => {
                self.scroll.set_address(latch);
            },
            MemState::PpuAddr => {
                self.addr.set_address(latch);
            },
            MemState::PpuData => {
                let stored = self.store(memory, latch);
                match stored {
                    Ok(()) => {},
                    Err(e) => {
                        return Err(e);
                    },
                }
            },
            _ => {},
        }
        let read_status = memory.get_mem_load_status();
        match read_status {
            MemState::PpuStatus => {
                self.addr.reset_address();
                self.scroll.reset_address();
                self.status = self.status & 0x1F;
            },
            MemState::PpuData => {
                let loaded = self.load(memory);
                match loaded {
                    Ok(value) => {
                        memory.set_latch(value);
                    },
                    Err(e) => {
                        return Err(e);
                    },
                }
            },
            _ => {},
        }
        Ok(())
    }

    /// Emits the pixel for the current scanline position and advances the
    /// scanline, wrapping after the last visible line with a present request.
    fn draw(&mut self) -> (r: DrawCmd)
        requires
            old(self).wf(),
        ensures
            final(self).wf(),
            final(self)@ == draw_spec(old(self)@).0,
            r == draw_spec(old(self)@).1,
    {
        let line = self.scanline;
        let cmd = DrawCmd {
            x: line,
            y: line,
            red: line as u8,
            green: line as u8,
            blue: 20,
            present: line == LAST_VISIBLE_SCANLINE,
        };
        if line == LAST_VISIBLE_SCANLINE {
            self.scanline = 0;
        } else {
            self.scanline = line + 1;
        }
        cmd
    }

    /// Advances the frame clock by one cycle.
    fn advance_clock(&mut self)
        requires
            old(self).wf(),
            old(self)@.fps < 0xFFFFFFFFu32,
        ensures
            final(self).wf(),
            final(self)@ == clock_spec(old(self)@),
    {
        let next = self.cycles + 1;
        if next == VBLANK_END {
            self.cycles = 0;
            self.fps = self.fps + 1;
            self.frame_parity = !self.frame_parity;
        } else {
            self.cycles = next;
        }
    }

    /// Advances the PPU by one cycle: services any pending register-latch
    /// transition recorded by the bus, performs a pending VRAM or palette
    /// access, advances the frame clock, and reports the pixel to draw when
    /// rendering is enabled. A faulting VRAM address reports the error with
    /// the registers left as the servicing put them and the clock untouched.
    pub fn cycle(&mut self, memory: &mut Memory) -> (r: Result<Option<DrawCmd>, PpuError>)
        requires
            old(self).wf(),
            old(memory).wf(),
            old(self)@.fps < 0xFFFFFFFFu32,
        ensures
            final(self).wf(),
            final(memory).wf(),
            ({
                let s = service_spec(old(self)@, old(memory)@);
                &&& final(memory)@ == s.mem
                &&& (s.result is Err ==> r == Err::<Option<DrawCmd>, PpuError>(s.result->Err_0)
                    && final(self)@ == s.ppu)
                &&& (s.result is Ok ==> r == Ok::<Option<DrawCmd>, PpuError>(
                    cycle_result(s.ppu).1,
                ) && final(self)@ == cycle_result(s.ppu).0)
            }),
            r is Ok ==> frame_clock(final(self)@) == frame_clock_step(frame_clock(old(self)@)),
    {
        let serviced = self.ls_latches(memory);
        match serviced {
            Ok(()) => {},
            Err(e) => {
                return Err(e);
            },
        }
        let mut cmd: Option<DrawCmd> = None;
        if self.show_sprites() || self.show_background() {
            cmd = Some(self.draw());
        }
        self.advance_clock();
        Ok(cmd)
    }
}

impl Default for Ppu {
    /// A powered-on PPU, as `Ppu::new` builds it.
    fn default() -> (r: Ppu)
        ensures
            r.wf(),
            r@ == power_on(),
    {
        Ppu::new()
    }
}

} // verus!
