//! The LCD control register and the address rules it selects.

use vstd::prelude::*;

verus! {

/// Which of the two tile maps is in use.
#[derive(Clone, Copy, Debug, PartialEq, Eq)]
pub enum TileMapRange {
    Low,
    High,
}

impl TileMapRange {
    /// Offset of the map in video memory.
    pub open spec fn base(self) -> u16 {
        match self {
            TileMapRange::Low => 0x1800,
            TileMapRange::High => 0x1C00,
        }
    }

    pub fn base_address(&self) -> (r: u16)
        ensures
            r == self.base(),
    {
        match self {
            TileMapRange::Low => 0x1800,
            TileMapRange::High => 0x1C00,
        }
    }
}

/// How a tile index is turned into the offset of its data.
#[derive(Clone, Copy, Debug, PartialEq, Eq)]
pub enum TileDataAddressing {
    Signed,
    Unsigned,
}

/// Sprite height selection.
#[derive(Clone, Copy, Debug, PartialEq, Eq)]
pub enum SpriteSize {
    S8x8,
    S8x16,
}

impl SpriteSize {
    pub open spec fn rows(self) -> u8 {
        match self {
            SpriteSize::S8x8 => 8,
            SpriteSize::S8x16 => 16,
        }
    }

    pub fn height(&self) -> (r: u8)
        ensures
            r == self.rows(),
    {
        match self {
            SpriteSize::S8x8 => 8,
            SpriteSize::S8x16 => 16,
        }
    }
}

impl TileDataAddressing {
    /// Offset in video memory of the first byte of a tile: sixteen
    /// bytes per tile, counted from the start of video memory for
    /// unsigned indices and from the middle block for signed ones.
    pub open spec fn tile_base(self, index: u8) -> int {
        match self {
            TileDataAddressing::Unsigned => index * 16,
            TileDataAddressing::Signed => if index < 128 {
                0x1000 + index * 16
            } else {
                0x1000 - (256 - index) * 16
            },
        }
    }

    /// Offset of the low bit plane of row `line` of a background tile.
    pub open spec fn bg_row(self, index: u8, line: u16) -> int {
        self.tile_base(index) + (line % 8) * 2
    }

    /// Offset of the low bit plane of row `line` of a sprite.
    pub open spec fn obj_row(self, index: u8, line: u16, size: SpriteSize) -> int {
        self.tile_base(index) + (line % (size.rows() as u16)) * 2
    }

    pub fn address_from_index_bg(&self, index: u8, line: u16) -> (r: u16)
        ensures
            r as int == self.bg_row(index, line),
            r + 1 < 0x1800,
    {
        let base: u16 = match self {
            TileDataAddressing::Unsigned => index as u16 * 16,
            TileDataAddressing::Signed => if index < 128 {
                0x1000 + index as u16 * 16
            } else {
                0x1000 - (256 - index as u16) * 16
            },
        };
        base + (line % 8) * 2
    }

    pub fn address_from_index_obj(&self, index: u8, line: u16, size: SpriteSize) -> (r: u16)
        ensures
            r as int == self.obj_row(index, line, size),
            r + 1 < 0x1800 + 16,
    {
        let base: u16 = match self {
            TileDataAddressing::Unsigned => index as u16 * 16,
            TileDataAddressing::Signed => if index < 128 {
                0x1000 + index as u16 * 16
            } else {
                0x1000 - (256 - index as u16) * 16
            },
        };
        base + (line % (size.height() as u16)) * 2
    }
}

/// The LCD control register, bit by bit.
#[derive(Clone, Copy, Debug, PartialEq, Eq)]
pub struct LcdControl {
    pub lcd_enable: bool,
    pub window_tile_map: TileMapRange,
    pub window_enable: bool,
    pub bg_window_addressing: TileDataAddressing,
    pub bg_tile_map: TileMapRange,
    pub obj_size: SpriteSize,
    pub obj_enable: bool,
    pub bg_window_enable: bool,
}

impl LcdControl {
    /// The register with every bit clear.
    pub open spec fn off() -> Self {
        Self::of_byte(0)
    }

    pub open spec fn byte(self) -> int {
        (if self.lcd_enable { 128int } else { 0 }) + (if self.window_tile_map is High {
            64int
        } else {
            0
        }) + (if self.window_enable { 32int } else { 0 }) + (
        if self.bg_window_addressing is Unsigned { 16int } else { 0 }) + (
        if self.bg_tile_map is High { 8int } else { 0 }) + (if self.obj_size is S8x16 {
            4int
        } else {
            0
        }) + (if self.obj_enable { 2int } else { 0 }) + (if self.bg_window_enable { 1int } else { 0 })
    }

    pub open spec fn of_byte(value: u8) -> Self {
        LcdControl {
            lcd_enable: value >= 128,
            window_tile_map: if (value / 64) % 2 == 0 { TileMapRange::Low } else { TileMapRange::High },
            window_enable: (value / 32) % 2 == 1,
            bg_window_addressing: if (value / 16) % 2 == 0 {
                TileDataAddressing::Signed
            } else {
                TileDataAddressing::Unsigned
            },
            bg_tile_map: if (value / 8) % 2 == 0 { TileMapRange::Low } else { TileMapRange::High },
            obj_size: if (value / 4) % 2 == 0 { SpriteSize::S8x8 } else { SpriteSize::S8x16 },
            obj_enable: (value / 2) % 2 == 1,
            bg_window_enable: value % 2 == 1,
        }
    }

    pub fn new() -> (r: Self)
        ensures
            r == Self::off(),
    {
        LcdControl {
            lcd_enable: false,
            window_tile_map: TileMapRange::Low,
            window_enable: false,
            bg_window_addressing: TileDataAddressing::Signed,
            bg_tile_map: TileMapRange::Low,
            obj_size: SpriteSize::S8x8,
            obj_enable: false,
            bg_window_enable: false,
        }
    }

    pub fn value(&self) -> (r: u8)
        ensures
            r as int == self.byte(),
    {
        let b7: u8 = if self.lcd_enable { 128 } else { 0 };
        let b6: u8 = match self.window_tile_map {
            TileMapRange::Low => 0,
            TileMapRange::High => 64,
        };
        let b5: u8 = if self.window_enable { 32 } else { 0 };
        let b4: u8 = match self.bg_window_addressing {
            TileDataAddressing::Signed => 0,
            TileDataAddressing::Unsigned => 16,
        };
        let b3: u8 = match self.bg_tile_map {
            TileMapRange::Low => 0,
            TileMapRange::High => 8,
        };
        let b2: u8 = match self.obj_size {
            SpriteSize::S8x8 => 0,
            SpriteSize::S8x16 => 4,
        };
        let b1: u8 = if self.obj_enable { 2 } else { 0 };
        let b0: u8 = if self.bg_window_enable { 1 } else { 0 };
        b7 + b6 + b5 + b4 + b3 + b2 + b1 + b0
    }

    pub fn set_value(&mut self, value: u8)
        ensures
            *final(self) == Self::of_byte(value),
    {
        *self = LcdControl {
            lcd_enable: value >= 128,
            window_tile_map: if (value / 64) % 2 == 0 { TileMapRange::Low } else { TileMapRange::High },
            window_enable: (value / 32) % 2 == 1,
            bg_window_addressing: if (value / 16) % 2 == 0 {
                TileDataAddressing::Signed
            } else {
                TileDataAddressing::Unsigned
            },
            bg_tile_map: if (value / 8) % 2 == 0 { TileMapRange::Low } else { TileMapRange::High },
            obj_size: if (value / 4) % 2 == 0 { SpriteSize::S8x8 } else { SpriteSize::S8x16 },
            obj_enable: (value / 2) % 2 == 1,
            bg_window_enable: value % 2 == 1,
        };
    }

    /// A byte written to the register is read back unchanged.
    pub proof fn lemma_byte_round_trip(value: u8)
        ensures
            Self::of_byte(value).byte() == value,
    {
        crate::gameboy::bits::lemma_byte_is_sum_of_bits(value);
    }
}

} // verus!
