//! Sprite attributes as stored in object attribute memory.

use vstd::prelude::*;

verus! {

/// Which of the two sprite palettes colours a sprite.
#[derive(Clone, Copy, Debug, PartialEq, Eq)]
pub enum Palette {
    ObjP0,
    ObjP1,
}

/// Whether a sprite is drawn over every background pixel or only over
/// those of colour index zero.
#[derive(Clone, Copy, Debug, PartialEq, Eq)]
pub enum Priority {
    BehindNonZeroBg,
    AboveBg,
}

/// The four bytes of one sprite, decoded.
#[derive(Clone, Copy, Debug, PartialEq, Eq)]
pub struct Attributes {
    pub x: u8,
    pub y: u8,
    pub tile_index: u8,
    pub flip_x: bool,
    pub flip_y: bool,
    pub priority: Priority,
    pub palette: Palette,
}

impl Attributes {
    /// The sprite that four consecutive bytes describe: row, column,
    /// tile, and a flag byte with priority in bit 7, vertical flip in
    /// bit 6, horizontal flip in bit 5 and the palette in bit 4.
    pub open spec fn decoded(y: u8, x: u8, tile_index: u8, flags: u8) -> Self {
        Attributes {
            x,
            y,
            tile_index,
            flip_x: (flags / 32) % 2 == 1,
            flip_y: (flags / 64) % 2 == 1,
            priority: if flags < 128 { Priority::AboveBg } else { Priority::BehindNonZeroBg },
            palette: if (flags / 16) % 2 == 0 { Palette::ObjP0 } else { Palette::ObjP1 },
        }
    }

    /// A sprite that is never drawn.
    pub open spec fn blank() -> Self {
        Self::decoded(0, 0, 0, 0)
    }

    pub fn parse(values: [u8; 4]) -> (r: Self)
        ensures
            r == Self::decoded(values[0], values[1], values[2], values[3]),
    {
        let flags: u8 = values[3];
        Attributes {
            x: values[1],
            y: values[0],
            tile_index: values[2],
            flip_x: (flags / 32) % 2 == 1,
            flip_y: (flags / 64) % 2 == 1,
            priority: if flags < 128 { Priority::AboveBg } else { Priority::BehindNonZeroBg },
            palette: if (flags / 16) % 2 == 0 { Palette::ObjP0 } else { Palette::ObjP1 },
        }
    }
}


/// How many sprites one line can show.
pub const MAX_VISIBLE_SPRITES: usize = 10;

/// The sprites found for the current line, in the order of their
/// memory slots. Only the first `count` entries are meaningful.
#[derive(Clone, Copy, Debug, PartialEq, Eq)]
pub struct VisibleObjs {
    pub objs: [Attributes; 10],
    pub count: usize,
}

impl VisibleObjs {
    pub open spec fn wf(self) -> bool {
        self.count <= MAX_VISIBLE_SPRITES
    }

    /// The sprites found so far.
    pub open spec fn found(self) -> Seq<Attributes> {
        self.objs@.take(self.count as int)
    }

    pub open spec fn pushed(self, obj: Attributes) -> Self {
        VisibleObjs {
            objs: vstd::array::spec_array_update(self.objs, self.count as int, obj),
            count: (self.count + 1) as usize,
        }
    }

    pub open spec fn cleared(self) -> Self {
        VisibleObjs { count: 0, ..self }
    }

    pub fn new() -> (r: Self)
        ensures
            r.count == 0,
            r.wf(),
            forall|i: int| 0 <= i < 10 ==> r.objs[i] == Attributes::blank(),
    {
        let blank = Attributes::parse([0u8, 0u8, 0u8, 0u8]);
        VisibleObjs { objs: [blank;10], count: 0 }
    }

    pub fn len(&self) -> (r: usize)
        ensures
            r == self.count,
    {
        self.count
    }

    pub fn push(&mut self, obj: Attributes)
        requires
            old(self).count < MAX_VISIBLE_SPRITES,
        ensures
            *final(self) == old(self).pushed(obj),
            final(self).wf(),
            final(self).found() == old(self).found().push(obj),
    {
        self.objs[self.count] = obj;
        self.count += 1;
        assert(self.found() =~= old(self).found().push(obj));
    }

    pub fn clear(&mut self)
        ensures
            *final(self) == old(self).cleared(),
            final(self).wf(),
            final(self).found() == Seq::<Attributes>::empty(),
    {
        self.count = 0;
        assert(self.found() =~= Seq::<Attributes>::empty());
    }
}

} // verus!
