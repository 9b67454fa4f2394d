//! Sprite attributes as they lie in object attribute memory.
use vstd::prelude::*;
use itertools::Itertools;
use vstd::std_specs::convert::FromSpecImpl;

verus! {

/// How a sprite takes part in composition.
#[derive(Clone, Copy, PartialEq, Eq, Structural, Debug)]
pub enum ObjMode {
    Normal,
    SemiTransparent,
    Window,
    Prohibited,
}

/// The shape of a sprite's bounding box.
#[derive(Clone, Copy, PartialEq, Eq, Structural, Debug)]
pub enum ObjShape {
    Square,
    Horizontal,
    Vertical,
    Prohibited,
}

/// One entry of object attribute memory, decoded.
#[derive(Clone, Copy, Debug)]
pub struct Sprite {
    pub x: u16,
    pub y: u8,
    pub rot_scale: bool,
    pub double_or_disable: bool,
    pub obj_mode: ObjMode,
    pub mosaic: bool,
    pub bpp: bool,
    pub shape: ObjShape,
    pub rot_scale_param: u16,
    pub h_flip: bool,
    pub v_flip: bool,
    pub size: u8,
    pub tile_id: u16,
    pub prio: u8,
    pub pal_idx: u8,
}

/// The object mode that a two-bit field encodes.
pub open spec fn obj_mode_of(raw: int) -> ObjMode {
    if raw == 0 {
        ObjMode::Normal
    } else if raw == 1 {
        ObjMode::SemiTransparent
    } else if raw == 2 {
        ObjMode::Window
    } else {
        ObjMode::Prohibited
    }
}

/// The shape that a two-bit field encodes.
pub open spec fn obj_shape_of(raw: int) -> ObjShape {
    if raw == 0 {
        ObjShape::Square
    } else if raw == 1 {
        ObjShape::Horizontal
    } else if raw == 2 {
        ObjShape::Vertical
    } else {
        ObjShape::Prohibited
    }
}

/// The sprite that the three attribute halfwords in the low 48 bits of
/// `value` describe.
pub open spec fn sprite_of(value: u64) -> Sprite {
    let obj0 = value as int % 0x1_0000;
    let obj1 = (value as int / 0x1_0000) % 0x1_0000;
    let obj2 = (value as int / 0x1_0000_0000) % 0x1_0000;
    Sprite {
        x: (obj1 % 512) as u16,
        y: (obj0 % 256) as u8,
        rot_scale: (obj0 / 0x100) % 2 == 1,
        double_or_disable: (obj0 / 0x200) % 2 == 1,
        obj_mode: obj_mode_of((obj0 / 0x400) % 4),
        mosaic: (obj0 / 0x1000) % 2 == 1,
        bpp: (obj0 / 0x2000) % 2 == 1,
        shape: obj_shape_of(obj0 / 0x4000),
        rot_scale_param: ((obj1 / 0x200) % 32) as u16,
        h_flip: (obj1 / 0x1000) % 2 == 1,
        v_flip: (obj1 / 0x2000) % 2 == 1,
        size: (obj1 / 0x4000) as u8,
        tile_id: (obj2 % 1024) as u16,
        prio: ((obj2 / 0x400) % 4) as u8,
        pal_idx: (obj2 / 0x1000) as u8,
    }
}

fn decode_obj_mode(raw: u16) -> (r: ObjMode)
    ensures
        r == obj_mode_of(raw as int),
{
    if raw == 0 {
        ObjMode::Normal
    } else if raw == 1 {
        ObjMode::SemiTransparent
    } else if raw == 2 {
        ObjMode::Window
    } else {
        ObjMode::Prohibited
    }
}

fn decode_obj_shape(raw: u16) -> (r: ObjShape)
    ensures
        r == obj_shape_of(raw as int),
{
    if raw == 0 {
        ObjShape::Square
    } else if raw == 1 {
        ObjShape::Horizontal
    } else if raw == 2 {
        ObjShape::Vertical
    } else {
        ObjShape::Prohibited
    }
}

impl FromSpecImpl<u64> for Sprite {
    open spec fn obeys_from_spec() -> bool {
        true
    }

    open spec fn from_spec(value: u64) -> Sprite {
        sprite_of(value)
    }
}

impl From<u64> for Sprite {
    fn from(value: u64) -> (s: Sprite) {
        let obj0 = (value % 0x1_0000) as u16;
        let obj1 = ((value / 0x1_0000) % 0x1_0000) as u16;
        let obj2 = ((value / 0x1_0000_0000) % 0x1_0000) as u16;

        Sprite {
            x: obj1 % 512,
            y: (obj0 % 256) as u8,
            rot_scale: (obj0 / 0x100) % 2 == 1,
            double_or_disable: (obj0 / 0x200) % 2 == 1,
            obj_mode: decode_obj_mode((obj0 / 0x400) % 4),
            mosaic: (obj0 / 0x1000) % 2 == 1,
            bpp: (obj0 / 0x2000) % 2 == 1,
            shape: decode_obj_shape(obj0 / 0x4000),
            rot_scale_param: (obj1 / 0x200) % 32,
            h_flip: (obj1 / 0x1000) % 2 == 1,
            v_flip: (obj1 / 0x2000) % 2 == 1,
            size: (obj1 / 0x4000) as u8,
            tile_id: obj2 % 1024,
            prio: ((obj2 / 0x400) % 4) as u8,
            pal_idx: (obj2 / 0x1000) as u8,
        }
    }
}

/// The byte of `mem` at `index`, and 0 where `mem` has no such byte.
pub open spec fn byte_at(mem: Seq<u8>, index: int) -> u8 {
    if 0 <= index < mem.len() {
        mem[index]
    } else {
        0
    }
}

/// The byte of `mem` at `index`, and 0 where `mem` has no such byte.
pub fn read_byte(mem: &[u8], index: usize) -> (r: u8)
    ensures
        r == byte_at(mem@, index as int),
{
    if index < mem.len() {
        mem[index]
    } else {
        0
    }
}

/// The little-endian halfword of `mem` at `index`, missing bytes read as 0.
pub open spec fn half_at(mem: Seq<u8>, index: int) -> u16 {
    (byte_at(mem, index) + 0x100 * byte_at(mem, index + 1)) as u16
}

/// The little-endian halfword of `mem` at `index`, missing bytes read as 0.
pub fn read_half(mem: &[u8], index: usize) -> (r: u16)
    requires
        index < usize::MAX,
    ensures
        r == half_at(mem@, index as int),
{
    read_byte(mem, index) as u16 + 0x100 * (read_byte(mem, index + 1) as u16)
}

/// The 48 attribute bits of entry `k` of object attribute memory, as one
/// number with the first byte lowest.
pub open spec fn attributes_at(oam: Seq<u8>, k: int) -> u64 {
    (half_at(oam, 8 * k) + 0x1_0000 * half_at(oam, 8 * k + 2) + 0x1_0000_0000 * half_at(
        oam,
        8 * k + 4,
    )) as u64
}

/// A 16-bit pattern read as a two's complement number.
pub open spec fn signed16(raw: u16) -> int {
    if raw >= 0x8000 {
        raw - 0x1_0000
    } else {
        raw as int
    }
}

/// A 16-bit pattern read as a two's complement number.
pub fn to_signed16(raw: u16) -> (r: i16)
    ensures
        r == signed16(raw),
{
    if raw >= 0x8000 {
        (raw as i32 - 0x1_0000) as i16
    } else {
        raw as i16
    }
}

/// The size of object attribute memory.
pub const OAM_SIZE: usize = 0x400;

/// Parameter `p` (0 to 3: PA, PB, PC, PD) of rotation group `i`: the
/// signed halfword that lies 6 bytes into entry `4 * i + p`, low byte
/// first.
pub open spec fn rot_scale_param_at(oam: Seq<u8>, i: int, p: int) -> i16 {
    signed16((oam[6 + i * 0x20 + p * 8] + 0x100 * oam[6 + i * 0x20 + p * 8 + 1]) as u16) as i16
}

/// The four parameters of rotation group `i`.
pub open spec fn rot_scale_group_at(oam: Seq<u8>, i: int) -> (i16, i16, i16, i16) {
    (
        rot_scale_param_at(oam, i, 0),
        rot_scale_param_at(oam, i, 1),
        rot_scale_param_at(oam, i, 2),
        rot_scale_param_at(oam, i, 3),
    )
}

/// The 32 rotation groups of object attribute memory.
pub open spec fn rot_scale_groups(oam: Seq<u8>) -> Seq<(i16, i16, i16, i16)> {
    Seq::new(32, |i: int| rot_scale_group_at(oam, i))
}

/// `itertools::Itertools::collect_tuple` on the items of a vector, for
/// tuples of four: the four items in their order where there are exactly
/// four, and nothing where there are fewer or more.
#[verifier::external_body]
fn collect_quad(items: Vec<i16>) -> (r: Option<(i16, i16, i16, i16)>)
    ensures
        r == (if items@.len() == 4 {
            Some((items@[0], items@[1], items@[2], items@[3]))
        } else {
            None::<(i16, i16, i16, i16)>
        }),
{
    items.into_iter().collect_tuple()
}

impl Sprite {
    /// The width of the bounding box in pixels; 0 for a prohibited shape.
    pub open spec fn spec_width(&self) -> u8 {
        match (self.size, self.shape) {
            (0, ObjShape::Square) => 8,
            (0, ObjShape::Vertical) => 8,
            (0, ObjShape::Horizontal) => 16,
            (1, ObjShape::Square) => 16,
            (1, ObjShape::Horizontal) => 32,
            (1, ObjShape::Vertical) => 8,
            (2, ObjShape::Square) => 32,
            (2, ObjShape::Horizontal) => 32,
            (2, ObjShape::Vertical) => 16,
            (3, ObjShape::Square) => 64,
            (3, ObjShape::Horizontal) => 64,
            (3, ObjShape::Vertical) => 32,
            _ => 0,
        }
    }

    /// The height of the bounding box in pixels; 0 for a prohibited shape.
    pub open spec fn spec_height(&self) -> u8 {
        match (self.size, self.shape) {
            (0, ObjShape::Square) => 8,
            (0, ObjShape::Horizontal) => 8,
            (0, ObjShape::Vertical) => 16,
            (1, ObjShape::Square) => 16,
            (1, ObjShape::Horizontal) => 8,
            (1, ObjShape::Vertical) => 32,
            (2, ObjShape::Square) => 32,
            (2, ObjShape::Vertical) => 32,
            (2, ObjShape::Horizontal) => 16,
            (3, ObjShape::Square) => 64,
            (3, ObjShape::Vertical) => 64,
            (3, ObjShape::Horizontal) => 32,
            _ => 0,
        }
    }

    /// The screen line of the sprite's first row: `y`, and `y - 256` from
    /// 160 on, so that a sprite can hang in from above the screen.
    pub open spec fn top(&self) -> int {
        if self.y >= 160 {
            self.y - 256
        } else {
            self.y as int
        }
    }

    /// The number of screen lines the sprite covers: its height, doubled
    /// for an affine sprite of double size.
    pub open spec fn rows(&self) -> int {
        if self.rot_scale && self.double_or_disable {
            2 * self.spec_height()
        } else {
            self.spec_height() as int
        }
    }

    /// Whether the sprite covers screen line `ly`.
    pub open spec fn covers(&self, ly: u8) -> bool {
        self.top() <= ly < self.top() + self.rows()
    }

    #[verifier::when_used_as_spec(spec_width)]
    pub fn width(&self) -> (r: u8)
        ensures
            r == self.spec_width(),
            r <= 64,
    {
        match (self.size, &self.shape) {
            (0, ObjShape::Square) => 8,
            (0, ObjShape::Vertical) => 8,
            (0, ObjShape::Horizontal) => 16,
            (1, ObjShape::Square) => 16,
            (1, ObjShape::Horizontal) => 32,
            (1, ObjShape::Vertical) => 8,
            (2, ObjShape::Square) => 32,
            (2, ObjShape::Horizontal) => 32,
            (2, ObjShape::Vertical) => 16,
            (3, ObjShape::Square) => 64,
            (3, ObjShape::Horizontal) => 64,
            (3, ObjShape::Vertical) => 32,
            _ => 0,
        }
    }

    #[verifier::when_used_as_spec(spec_height)]
    pub fn height(&self) -> (r: u8)
        ensures
            r == self.spec_height(),
            r <= 64,
    {
        match (self.size, &self.shape) {
            (0, ObjShape::Square) => 8,
            (0, ObjShape::Horizontal) => 8,
            (0, ObjShape::Vertical) => 16,
            (1, ObjShape::Square) => 16,
            (1, ObjShape::Horizontal) => 8,
            (1, ObjShape::Vertical) => 32,
            (2, ObjShape::Square) => 32,
            (2, ObjShape::Vertical) => 32,
            (2, ObjShape::Horizontal) => 16,
            (3, ObjShape::Square) => 64,
            (3, ObjShape::Vertical) => 64,
            (3, ObjShape::Horizontal) => 32,
            _ => 0,
        }
    }

    /// Whether the sprite covers screen line `ly`.
    pub fn is_on_line(&self, ly: u8) -> (r: bool)
        ensures
            r == self.covers(ly),
    {
        let signed_start: i16 = if self.y >= 160 {
            self.y as i16 - 256
        } else {
            self.y as i16
        };
        let sprite_height: i16 = if self.rot_scale && self.double_or_disable {
            2 * (self.height() as i16)
        } else {
            self.height() as i16
        };
        let line = ly as i16;
        line >= signed_start && line < signed_start + sprite_height
    }

    /// All sprites in object attribute memory that cover line `ly`, in the
    /// order of their entries. An incomplete entry at the end is passed over.
    pub open spec fn collect_obj_ly_spec(oam: Seq<u8>, ly: u8) -> Seq<Sprite> {
        Seq::new((oam.len() / 8) as nat, |k: int| sprite_of(attributes_at(oam, k))).filter(
            |s: Sprite| s.covers(ly),
        )
    }

    /// Collect the sprites of object attribute memory that cover line `ly`.
    pub fn collect_obj_ly(oam: &[u8], ly: u8) -> (sprites: Vec<Sprite>)
        ensures
            sprites@ == Self::collect_obj_ly_spec(oam@, ly),
    {
        let mut sprites: Vec<Sprite> = Vec::new();
        let count: usize = oam.len() / 8;
        let ghost all = Seq::new(count as nat, |k: int| sprite_of(attributes_at(oam@, k)));
        let ghost pred = |s: Sprite| s.covers(ly);
        let mut k: usize = 0;
        proof {
            reveal(Seq::filter);
            assert(all.take(0) =~= Seq::<Sprite>::empty());
        }
        while k < count
            invariant
                k <= count,
                count == oam.len() / 8,
                all == Seq::new(count as nat, |k: int| sprite_of(attributes_at(oam@, k))),
                pred == (|s: Sprite| s.covers(ly)),
                sprites@ == all.take(k as int).filter(pred),
            decreases count - k,
        {
            let base = 8 * k;
            let attr: u64 = read_half(oam, base) as u64 + 0x1_0000 * (read_half(oam, base + 2) as u64)
                + 0x1_0000_0000 * (read_half(oam, base + 4) as u64);
            let sprite = Sprite::from(attr);
            proof {
                reveal(Seq::filter);
                assert(all.take(k + 1).drop_last() =~= all.take(k as int));
                assert(all.take(k + 1).last() == sprite);
            }
            if sprite.is_on_line(ly) {
                sprites.push(sprite);
            }
            k += 1;
        }
        proof {
            assert(all.take(count as int) =~= all);
        }
        sprites
    }

    /// The 32 groups of rotation and scaling parameters of an object
    /// attribute memory of 1 KiB or more.
    pub fn collect_rot_scale_params(oam: &[u8]) -> (params: Vec<(i16, i16, i16, i16)>)
        requires
            oam@.len() >= OAM_SIZE,
        ensures
            params@ == rot_scale_groups(oam@),
    {
        let mut params: Vec<(i16, i16, i16, i16)> = Vec::new();
        let mut i: usize = 0;
        while i < 32
            invariant
                i <= 32,
                oam@.len() >= OAM_SIZE,
                params@.len() == i,
                forall|j: int| 0 <= j < i ==> #[trigger] params@[j] == rot_scale_group_at(oam@, j),
            decreases 32 - i,
        {
            let mut group: Vec<i16> = Vec::new();
            let mut p: usize = 0;
            while p < 4
                invariant
                    p <= 4,
                    i < 32,
                    oam@.len() >= OAM_SIZE,
                    group@.len() == p,
                    forall|q: int| 0 <= q < p ==> #[trigger] group@[q] == rot_scale_param_at(oam@, i as int, q),
                decreases 4 - p,
            {
                let oam_idx = 6 + i * 0x20 + p * 8;
                group.push(to_signed16(oam[oam_idx] as u16 + 0x100 * (oam[oam_idx + 1] as u16)));
                p += 1;
            }
            if let Some(x) = collect_quad(group) {
                params.push(x);
            }
            i += 1;
        }
        proof {
            assert(params@ =~= rot_scale_groups(oam@));
        }
        params
    }
}

} // verus!
