//! The four shades and the palette registers that pick among them.

use vstd::prelude::*;

verus! {

/// A shade of the screen.
#[derive(Clone, Copy, Debug, PartialEq, Eq)]
pub enum Color {
    White,
    LightGray,
    DarkGray,
    Black,
}

impl Color {
    pub open spec fn number(self) -> int {
        match self {
            Color::White => 0,
            Color::LightGray => 1,
            Color::DarkGray => 2,
            Color::Black => 3,
        }
    }

    /// The shade numbered `value` modulo four.
    pub open spec fn of_number(value: int) -> Self {
        if value % 4 == 0 {
            Color::White
        } else if value % 4 == 1 {
            Color::LightGray
        } else if value % 4 == 2 {
            Color::DarkGray
        } else {
            Color::Black
        }
    }

    fn to_number(self) -> (r: u8)
        ensures
            r as int == self.number(),
    {
        match self {
            Color::White => 0,
            Color::LightGray => 1,
            Color::DarkGray => 2,
            Color::Black => 3,
        }
    }

    fn from_number(value: u8) -> (r: Self)
        ensures
            r == Self::of_number(value as int),
    {
        let low: u8 = value % 4;
        if low == 0 {
            Color::White
        } else if low == 1 {
            Color::LightGray
        } else if low == 2 {
            Color::DarkGray
        } else {
            Color::Black
        }
    }
}

/// A palette register: the shade of each of the four colour indices.
#[derive(Clone, Copy, Debug, PartialEq, Eq)]
pub struct Palette(pub [Color; 4]);

impl Palette {
    /// The register value: two bits per colour index, index zero lowest.
    pub open spec fn byte(self) -> int {
        self.0[0].number() + self.0[1].number() * 4 + self.0[2].number() * 16 + self.0[3].number()
            * 64
    }

    /// The shade of colour index `index` under register value `value`.
    pub open spec fn shade_in(value: u8, index: int) -> Color {
        if index == 0 {
            Color::of_number(value as int)
        } else if index == 1 {
            Color::of_number(value as int / 4)
        } else if index == 2 {
            Color::of_number(value as int / 16)
        } else {
            Color::of_number(value as int / 64)
        }
    }

    /// The palette that register value `value` names.
    pub open spec fn of_byte(value: u8) -> Self {
        Palette(
            [
                Self::shade_in(value, 0),
                Self::shade_in(value, 1),
                Self::shade_in(value, 2),
                Self::shade_in(value, 3),
            ],
        )
    }

    /// The shade of a colour index; indices count modulo four.
    pub open spec fn shade(self, index: u8) -> Color {
        self.0[index as int % 4]
    }

    pub fn new() -> (r: Self)
        ensures
            r == Self::of_byte(0),
    {
        Palette([Color::White, Color::White, Color::White, Color::White])
    }

    pub fn value(&self) -> (r: u8)
        ensures
            r as int == self.byte(),
    {
        self.0[0].to_number() + self.0[1].to_number() * 4 + self.0[2].to_number() * 16
            + self.0[3].to_number() * 64
    }

    pub fn set_value(&mut self, value: u8)
        ensures
            *final(self) == Self::of_byte(value),
    {
        *self = Palette(
            [
                Color::from_number(value),
                Color::from_number(value / 4),
                Color::from_number(value / 16),
                Color::from_number(value / 64),
            ],
        );
    }

    /// A byte written to the register is read back unchanged.
    pub proof fn lemma_byte_round_trip(value: u8)
        ensures
            Self::of_byte(value).byte() == value,
    {
        let p = Self::of_byte(value);
        assert(p.0[0] == Self::shade_in(value, 0));
        assert(p.0[1] == Self::shade_in(value, 1));
        assert(p.0[2] == Self::shade_in(value, 2));
        assert(p.0[3] == Self::shade_in(value, 3));
        assert(value as int == (value as int % 4) + ((value as int / 4) % 4) * 4 + ((value as int
            / 16) % 4) * 16 + ((value as int / 64) % 4) * 64);
    }

    pub fn color(&self, index: u8) -> (r: Color)
        ensures
            r == self.shade(index),
    {
        self.0[(index % 4) as usize]
    }
}

} // verus!
