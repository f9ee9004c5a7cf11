//! Bit-field register values for the display and object engines.
//!
//! Each type views one sixteen-bit register as a set of named, disjoint bit
//! ranges. Getters extract and right-justify a range; `with_` setters return
//! a new value with exactly that range replaced and every other bit
//! preserved bit-for-bit. Enumerated fields map a closed set of patterns to
//! variants; a pattern outside the declared set is read as absent and
//! round-trips through the value untouched.

use vstd::prelude::*;

use crate::bits::{get_bit16, get_field16, set_bit16, set_field16, u16_get_bit, u16_get_field,
    u16_set_bit, u16_set_field};
use crate::vol::VolBlock;

verus! {

/// The display control register: the video mode and which layers are shown.
#[derive(Clone, Copy, Debug, PartialEq, Eq, Structural)]
pub struct DisplayControl(u16);

impl DisplayControl {
    /// The raw register value.
    pub closed spec fn bits(self) -> u16 {
        self.0
    }

    /// The value with every field zero: mode zero, no layer displayed.
    pub fn new() -> (r: Self)
        ensures
            r.bits() == 0,
    {
        DisplayControl(0)
    }

    /// The value whose bits are exactly `u`.
    pub fn from_bits(u: u16) -> (r: Self)
        ensures
            r.bits() == u,
    {
        DisplayControl(u)
    }

    /// The raw register value.
    pub fn to_bits(self) -> (r: u16)
        ensures
            r == self.bits(),
    {
        self.0
    }

    /// The background video mode.
    pub fn video_mode(self) -> (r: u16)
        ensures
            r == u16_get_field(self.bits(), 0, 3),
    {
        get_field16(self.0, 0, 3)
    }

    /// The value with the video-mode field set to the low bits of `x`, all
    /// other fields kept.
    pub fn with_video_mode(self, x: u16) -> (r: Self)
        ensures
            r.bits() == u16_set_field(self.bits(), 0, 3, x),
    {
        DisplayControl(set_field16(self.0, 0, 3, x))
    }

    /// Whether the second frame buffer is shown in the bitmap modes.
    pub fn show_frame1(self) -> (r: bool)
        ensures
            r == u16_get_bit(self.bits(), 4),
    {
        get_bit16(self.0, 4)
    }

    /// The value with the frame-select bit set to `x`, all others kept.
    pub fn with_show_frame1(self, x: bool) -> (r: Self)
        ensures
            r.bits() == u16_set_bit(self.bits(), 4, x),
    {
        DisplayControl(set_bit16(self.0, 4, x))
    }

    /// Whether object memory may be accessed during the horizontal blank.
    pub fn hblank_oam_free(self) -> (r: bool)
        ensures
            r == u16_get_bit(self.bits(), 5),
    {
        get_bit16(self.0, 5)
    }

    /// The value with the horizontal-blank access bit set to `x`, all others
    /// kept.
    pub fn with_hblank_oam_free(self, x: bool) -> (r: Self)
        ensures
            r.bits() == u16_set_bit(self.bits(), 5, x),
    {
        DisplayControl(set_bit16(self.0, 5, x))
    }

    /// Whether object tiles are laid out one-dimensionally.
    pub fn obj_vram_1d(self) -> (r: bool)
        ensures
            r == u16_get_bit(self.bits(), 6),
    {
        get_bit16(self.0, 6)
    }

    /// The value with the object layout bit set to `x`, all others kept.
    pub fn with_obj_vram_1d(self, x: bool) -> (r: Self)
        ensures
            r.bits() == u16_set_bit(self.bits(), 6, x),
    {
        DisplayControl(set_bit16(self.0, 6, x))
    }

    /// Whether the display is forced blank: the screen stays white and the
    /// display cycle does not run.
    pub fn forced_blank(self) -> (r: bool)
        ensures
            r == u16_get_bit(self.bits(), 7),
    {
        get_bit16(self.0, 7)
    }

    /// The value with the forced-blank bit set to `x`, all others kept.
    pub fn with_forced_blank(self, x: bool) -> (r: Self)
        ensures
            r.bits() == u16_set_bit(self.bits(), 7, x),
    {
        DisplayControl(set_bit16(self.0, 7, x))
    }

    /// Whether the first tiled background layer is displayed.
    pub fn display_bg0(self) -> (r: bool)
        ensures
            r == u16_get_bit(self.bits(), 8),
    {
        get_bit16(self.0, 8)
    }

    /// The value with the first background's display bit set to `x`, all
    /// others kept.
    pub fn with_display_bg0(self, x: bool) -> (r: Self)
        ensures
            r.bits() == u16_set_bit(self.bits(), 8, x),
    {
        DisplayControl(set_bit16(self.0, 8, x))
    }

    /// Whether the second tiled background layer is displayed.
    pub fn display_bg1(self) -> (r: bool)
        ensures
            r == u16_get_bit(self.bits(), 9),
    {
        get_bit16(self.0, 9)
    }

    /// The value with the second background's display bit set to `x`, all
    /// others kept.
    pub fn with_display_bg1(self, x: bool) -> (r: Self)
        ensures
            r.bits() == u16_set_bit(self.bits(), 9, x),
    {
        DisplayControl(set_bit16(self.0, 9, x))
    }

    /// Whether the third tiled background layer is displayed.
    pub fn display_bg2(self) -> (r: bool)
        ensures
            r == u16_get_bit(self.bits(), 10),
    {
        get_bit16(self.0, 10)
    }

    /// The value with the third background's display bit set to `x`, all
    /// others kept.
    pub fn with_display_bg2(self, x: bool) -> (r: Self)
        ensures
            r.bits() == u16_set_bit(self.bits(), 10, x),
    {
        DisplayControl(set_bit16(self.0, 10, x))
    }

    /// Whether the fourth tiled background layer is displayed.
    pub fn display_bg3(self) -> (r: bool)
        ensures
            r == u16_get_bit(self.bits(), 11),
    {
        get_bit16(self.0, 11)
    }

    /// The value with the fourth background's display bit set to `x`, all
    /// others kept.
    pub fn with_display_bg3(self, x: bool) -> (r: Self)
        ensures
            r.bits() == u16_set_bit(self.bits(), 11, x),
    {
        DisplayControl(set_bit16(self.0, 11, x))
    }

    /// Whether the object layer is displayed.
    pub fn display_obj(self) -> (r: bool)
        ensures
            r == u16_get_bit(self.bits(), 12),
    {
        get_bit16(self.0, 12)
    }

    /// The value with the object layer's display bit set to `x`, all others
    /// kept.
    pub fn with_display_obj(self, x: bool) -> (r: Self)
        ensures
            r.bits() == u16_set_bit(self.bits(), 12, x),
    {
        DisplayControl(set_bit16(self.0, 12, x))
    }
}

/// A background layer's control register: its priority, tile sources and
/// size.
#[derive(Clone, Copy, Debug, PartialEq, Eq, Structural)]
pub struct BgControl(u16);

impl BgControl {
    /// The raw register value.
    pub closed spec fn bits(self) -> u16 {
        self.0
    }

    /// The value with every field zero.
    pub fn new() -> (r: Self)
        ensures
            r.bits() == 0,
    {
        BgControl(0)
    }

    /// The value whose bits are exactly `u`.
    pub fn from_bits(u: u16) -> (r: Self)
        ensures
            r.bits() == u,
    {
        BgControl(u)
    }

    /// The raw register value.
    pub fn to_bits(self) -> (r: u16)
        ensures
            r == self.bits(),
    {
        self.0
    }

    /// The layer's drawing priority.
    pub fn z_index(self) -> (r: u16)
        ensures
            r == u16_get_field(self.bits(), 0, 2),
    {
        get_field16(self.0, 0, 2)
    }

    /// The value with the priority field set to the low bits of `x`, all
    /// other fields kept.
    pub fn with_z_index(self, x: u16) -> (r: Self)
        ensures
            r.bits() == u16_set_field(self.bits(), 0, 2, x),
    {
        BgControl(set_field16(self.0, 0, 2, x))
    }

    /// Which character block holds the layer's tile art.
    pub fn charblock(self) -> (r: u16)
        ensures
            r == u16_get_field(self.bits(), 2, 2),
    {
        get_field16(self.0, 2, 2)
    }

    /// The value with the character-block field set to the low bits of `x`,
    /// all other fields kept.
    pub fn with_charblock(self, x: u16) -> (r: Self)
        ensures
            r.bits() == u16_set_field(self.bits(), 2, 2, x),
    {
        BgControl(set_field16(self.0, 2, 2, x))
    }

    /// Whether the mosaic effect applies to the layer.
    pub fn mosaic(self) -> (r: bool)
        ensures
            r == u16_get_bit(self.bits(), 6),
    {
        get_bit16(self.0, 6)
    }

    /// The value with the mosaic bit set to `x`, all others kept.
    pub fn with_mosaic(self, x: bool) -> (r: Self)
        ensures
            r.bits() == u16_set_bit(self.bits(), 6, x),
    {
        BgControl(set_bit16(self.0, 6, x))
    }

    /// Whether the layer's tiles use eight bits per pixel.
    pub fn is_8bpp(self) -> (r: bool)
        ensures
            r == u16_get_bit(self.bits(), 7),
    {
        get_bit16(self.0, 7)
    }

    /// The value with the bit-depth bit set to `x`, all others kept.
    pub fn with_8bpp(self, x: bool) -> (r: Self)
        ensures
            r.bits() == u16_set_bit(self.bits(), 7, x),
    {
        BgControl(set_bit16(self.0, 7, x))
    }

    /// Which screen block holds the layer's map entries.
    pub fn screenblock(self) -> (r: u16)
        ensures
            r == u16_get_field(self.bits(), 8, 5),
    {
        get_field16(self.0, 8, 5)
    }

    /// The value with the screen-block field set to the low bits of `x`, all
    /// other fields kept.
    pub fn with_screenblock(self, x: u16) -> (r: Self)
        ensures
            r.bits() == u16_set_field(self.bits(), 8, 5, x),
    {
        BgControl(set_field16(self.0, 8, 5, x))
    }

    /// Whether an affine layer wraps at its edges.
    pub fn affine_wrap(self) -> (r: bool)
        ensures
            r == u16_get_bit(self.bits(), 13),
    {
        get_bit16(self.0, 13)
    }

    /// The value with the affine-wrap bit set to `x`, all others kept.
    pub fn with_affine_wrap(self, x: bool) -> (r: Self)
        ensures
            r.bits() == u16_set_bit(self.bits(), 13, x),
    {
        BgControl(set_bit16(self.0, 13, x))
    }

    /// The layer's screen size selection.
    pub fn screen_size(self) -> (r: u16)
        ensures
            r == u16_get_field(self.bits(), 14, 2),
    {
        get_field16(self.0, 14, 2)
    }

    /// The value with the screen-size field set to the low bits of `x`, all
    /// other fields kept.
    pub fn with_screen_size(self, x: u16) -> (r: Self)
        ensures
            r.bits() == u16_set_field(self.bits(), 14, 2, x),
    {
        BgControl(set_field16(self.0, 14, 2, x))
    }
}

/// How an object is blended into the scene.
#[derive(Clone, Copy, Debug, PartialEq, Eq, Structural)]
pub enum ObjMode {
    Normal,
    SemiTransparent,
    Window,
}

/// The pattern an object-mode variant occupies in its two-bit field.
pub open spec fn obj_mode_bits(m: ObjMode) -> u16 {
    match m {
        ObjMode::Normal => 0,
        ObjMode::SemiTransparent => 1,
        ObjMode::Window => 2,
    }
}

/// The variant a two-bit object-mode pattern denotes, when it denotes one:
/// one pattern of the field is outside the closed set and maps to nothing.
pub open spec fn obj_mode_of_bits(x: u16) -> Option<ObjMode> {
    if x == 0 {
        Some(ObjMode::Normal)
    } else if x == 1 {
        Some(ObjMode::SemiTransparent)
    } else if x == 2 {
        Some(ObjMode::Window)
    } else {
        None
    }
}

/// The coarse shape of an object's tile rectangle.
#[derive(Clone, Copy, Debug, PartialEq, Eq, Structural)]
pub enum ObjShape {
    Square,
    Horizontal,
    Vertical,
}

/// The pattern an object-shape variant occupies in its two-bit field.
pub open spec fn obj_shape_bits(s: ObjShape) -> u16 {
    match s {
        ObjShape::Square => 0,
        ObjShape::Horizontal => 1,
        ObjShape::Vertical => 2,
    }
}

/// The variant a two-bit object-shape pattern denotes, when it denotes one.
pub open spec fn obj_shape_of_bits(x: u16) -> Option<ObjShape> {
    if x == 0 {
        Some(ObjShape::Square)
    } else if x == 1 {
        Some(ObjShape::Horizontal)
    } else if x == 2 {
        Some(ObjShape::Vertical)
    } else {
        None
    }
}

/// The first attribute register of an object: vertical position, rendering
/// mode and shape.
#[derive(Clone, Copy, Debug, PartialEq, Eq, Structural)]
pub struct ObjAttr0(u16);

impl ObjAttr0 {
    /// The raw register value.
    pub closed spec fn bits(self) -> u16 {
        self.0
    }

    /// The value with every field zero.
    pub fn new() -> (r: Self)
        ensures
            r.bits() == 0,
    {
        ObjAttr0(0)
    }

    /// The value whose bits are exactly `u`.
    pub fn from_bits(u: u16) -> (r: Self)
        ensures
            r.bits() == u,
    {
        ObjAttr0(u)
    }

    /// The raw register value.
    pub fn to_bits(self) -> (r: u16)
        ensures
            r == self.bits(),
    {
        self.0
    }

    /// The object's vertical screen position.
    pub fn y(self) -> (r: u16)
        ensures
            r == u16_get_field(self.bits(), 0, 8),
    {
        get_field16(self.0, 0, 8)
    }

    /// The value with the vertical-position field set to the low bits of
    /// `x`, all other fields kept.
    pub fn with_y(self, x: u16) -> (r: Self)
        ensures
            r.bits() == u16_set_field(self.bits(), 0, 8, x),
    {
        ObjAttr0(set_field16(self.0, 0, 8, x))
    }

    /// Whether the object is affine-transformed.
    pub fn affine(self) -> (r: bool)
        ensures
            r == u16_get_bit(self.bits(), 8),
    {
        get_bit16(self.0, 8)
    }

    /// The value with the affine bit set to `x`, all others kept.
    pub fn with_affine(self, x: bool) -> (r: Self)
        ensures
            r.bits() == u16_set_bit(self.bits(), 8, x),
    {
        ObjAttr0(set_bit16(self.0, 8, x))
    }

    /// Whether a non-affine object is hidden. This bit is shared with the
    /// double-size flag, which gives it its meaning for affine objects.
    pub fn disabled(self) -> (r: bool)
        ensures
            r == u16_get_bit(self.bits(), 9),
    {
        get_bit16(self.0, 9)
    }

    /// The value with the disable bit set to `x`, all others kept.
    pub fn with_disabled(self, x: bool) -> (r: Self)
        ensures
            r.bits() == u16_set_bit(self.bits(), 9, x),
    {
        ObjAttr0(set_bit16(self.0, 9, x))
    }

    /// Whether an affine object renders in a doubled window. This bit is
    /// shared with the disable flag, which gives it its meaning for
    /// non-affine objects.
    pub fn affine_double_size(self) -> (r: bool)
        ensures
            r == u16_get_bit(self.bits(), 9),
    {
        get_bit16(self.0, 9)
    }

    /// The value with the double-size bit set to `x`, all others kept.
    pub fn with_affine_double_size(self, x: bool) -> (r: Self)
        ensures
            r.bits() == u16_set_bit(self.bits(), 9, x),
    {
        ObjAttr0(set_bit16(self.0, 9, x))
    }

    /// The object's rendering mode, when its two-bit pattern lies in the
    /// declared set; the undeclared pattern reads as absent and is passed
    /// through the value untouched.
    pub fn mode(self) -> (r: Option<ObjMode>)
        ensures
            r == obj_mode_of_bits(u16_get_field(self.bits(), 10, 2)),
    {
        let x = get_field16(self.0, 10, 2);
        if x == 0 {
            Some(ObjMode::Normal)
        } else if x == 1 {
            Some(ObjMode::SemiTransparent)
        } else if x == 2 {
            Some(ObjMode::Window)
        } else {
            None
        }
    }

    /// The value with the mode field set to `m`'s pattern, all other fields
    /// kept.
    pub fn with_mode(self, m: ObjMode) -> (r: Self)
        ensures
            r.bits() == u16_set_field(self.bits(), 10, 2, obj_mode_bits(m)),
    {
        let x: u16 = match m {
            ObjMode::Normal => 0,
            ObjMode::SemiTransparent => 1,
            ObjMode::Window => 2,
        };
        ObjAttr0(set_field16(self.0, 10, 2, x))
    }

    /// Whether the mosaic effect applies to the object.
    pub fn mosaic(self) -> (r: bool)
        ensures
            r == u16_get_bit(self.bits(), 12),
    {
        get_bit16(self.0, 12)
    }

    /// The value with the mosaic bit set to `x`, all others kept.
    pub fn with_mosaic(self, x: bool) -> (r: Self)
        ensures
            r.bits() == u16_set_bit(self.bits(), 12, x),
    {
        ObjAttr0(set_bit16(self.0, 12, x))
    }

    /// Whether the object's tiles use eight bits per pixel.
    pub fn is_8bpp(self) -> (r: bool)
        ensures
            r == u16_get_bit(self.bits(), 13),
    {
        get_bit16(self.0, 13)
    }

    /// The value with the bit-depth bit set to `x`, all others kept.
    pub fn with_is_8bpp(self, x: bool) -> (r: Self)
        ensures
            r.bits() == u16_set_bit(self.bits(), 13, x),
    {
        ObjAttr0(set_bit16(self.0, 13, x))
    }

    /// The object's shape, when its two-bit pattern lies in the declared
    /// set; the undeclared pattern reads as absent and is passed through the
    /// value untouched.
    pub fn shape(self) -> (r: Option<ObjShape>)
        ensures
            r == obj_shape_of_bits(u16_get_field(self.bits(), 14, 2)),
    {
        let x = get_field16(self.0, 14, 2);
        if x == 0 {
            Some(ObjShape::Square)
        } else if x == 1 {
            Some(ObjShape::Horizontal)
        } else if x == 2 {
            Some(ObjShape::Vertical)
        } else {
            None
        }
    }

    /// The value with the shape field set to `s`'s pattern, all other fields
    /// kept.
    pub fn with_shape(self, s: ObjShape) -> (r: Self)
        ensures
            r.bits() == u16_set_field(self.bits(), 14, 2, obj_shape_bits(s)),
    {
        let x: u16 = match s {
            ObjShape::Square => 0,
            ObjShape::Horizontal => 1,
            ObjShape::Vertical => 2,
        };
        ObjAttr0(set_field16(self.0, 14, 2, x))
    }
}

/// The second attribute register of an object: horizontal position, affine
/// parameter selection, flips and size.
#[derive(Clone, Copy, Debug, PartialEq, Eq, Structural)]
pub struct ObjAttr1(u16);

impl ObjAttr1 {
    /// The raw register value.
    pub closed spec fn bits(self) -> u16 {
        self.0
    }

    /// The value with every field zero.
    pub fn new() -> (r: Self)
        ensures
            r.bits() == 0,
    {
        ObjAttr1(0)
    }

    /// The value whose bits are exactly `u`.
    pub fn from_bits(u: u16) -> (r: Self)
        ensures
            r.bits() == u,
    {
        ObjAttr1(u)
    }

    /// The raw register value.
    pub fn to_bits(self) -> (r: u16)
        ensures
            r == self.bits(),
    {
        self.0
    }

    /// The object's horizontal screen position.
    pub fn x(self) -> (r: u16)
        ensures
            r == u16_get_field(self.bits(), 0, 9),
    {
        get_field16(self.0, 0, 9)
    }

    /// The value with the horizontal-position field set to the low bits of
    /// `x`, all other fields kept.
    pub fn with_x(self, x: u16) -> (r: Self)
        ensures
            r.bits() == u16_set_field(self.bits(), 0, 9, x),
    {
        ObjAttr1(set_field16(self.0, 0, 9, x))
    }

    /// Which affine parameter set an affine object uses. The field overlaps
    /// the flip bits, which give those bits their meaning for non-affine
    /// objects.
    pub fn affine_index(self) -> (r: u16)
        ensures
            r == u16_get_field(self.bits(), 9, 5),
    {
        get_field16(self.0, 9, 5)
    }

    /// The value with the affine-parameter field set to the low bits of `x`,
    /// all other fields kept.
    pub fn with_affine_index(self, x: u16) -> (r: Self)
        ensures
            r.bits() == u16_set_field(self.bits(), 9, 5, x),
    {
        ObjAttr1(set_field16(self.0, 9, 5, x))
    }

    /// Whether a non-affine object is mirrored horizontally. The bit lies
    /// inside the affine-parameter field.
    pub fn hflip(self) -> (r: bool)
        ensures
            r == u16_get_bit(self.bits(), 12),
    {
        get_bit16(self.0, 12)
    }

    /// The value with the horizontal-flip bit set to `x`, all others kept.
    pub fn with_hflip(self, x: bool) -> (r: Self)
        ensures
            r.bits() == u16_set_bit(self.bits(), 12, x),
    {
        ObjAttr1(set_bit16(self.0, 12, x))
    }

    /// Whether a non-affine object is mirrored vertically. The bit lies
    /// inside the affine-parameter field.
    pub fn vflip(self) -> (r: bool)
        ensures
            r == u16_get_bit(self.bits(), 13),
    {
        get_bit16(self.0, 13)
    }

    /// The value with the vertical-flip bit set to `x`, all others kept.
    pub fn with_vflip(self, x: bool) -> (r: Self)
        ensures
            r.bits() == u16_set_bit(self.bits(), 13, x),
    {
        ObjAttr1(set_bit16(self.0, 13, x))
    }

    /// The object's size selection, interpreted together with its shape.
    pub fn obj_size(self) -> (r: u16)
        ensures
            r == u16_get_field(self.bits(), 14, 2),
    {
        get_field16(self.0, 14, 2)
    }

    /// The value with the size field set to the low bits of `x`, all other
    /// fields kept.
    pub fn with_obj_size(self, x: u16) -> (r: Self)
        ensures
            r.bits() == u16_set_field(self.bits(), 14, 2, x),
    {
        ObjAttr1(set_field16(self.0, 14, 2, x))
    }
}

/// The third attribute register of an object: tile base, priority and
/// palette bank.
#[derive(Clone, Copy, Debug, PartialEq, Eq, Structural)]
pub struct ObjAttr2(u16);

impl ObjAttr2 {
    /// The raw register value.
    pub closed spec fn bits(self) -> u16 {
        self.0
    }

    /// The value with every field zero.
    pub fn new() -> (r: Self)
        ensures
            r.bits() == 0,
    {
        ObjAttr2(0)
    }

    /// The value whose bits are exactly `u`.
    pub fn from_bits(u: u16) -> (r: Self)
        ensures
            r.bits() == u,
    {
        ObjAttr2(u)
    }

    /// The raw register value.
    pub fn to_bits(self) -> (r: u16)
        ensures
            r == self.bits(),
    {
        self.0
    }

    /// The index of the object's first tile.
    pub fn base_tile(self) -> (r: u16)
        ensures
            r == u16_get_field(self.bits(), 0, 10),
    {
        get_field16(self.0, 0, 10)
    }

    /// The value with the tile-base field set to the low bits of `x`, all
    /// other fields kept.
    pub fn with_base_tile(self, x: u16) -> (r: Self)
        ensures
            r.bits() == u16_set_field(self.bits(), 0, 10, x),
    {
        ObjAttr2(set_field16(self.0, 0, 10, x))
    }

    /// The object's drawing priority.
    pub fn z_index(self) -> (r: u16)
        ensures
            r == u16_get_field(self.bits(), 10, 2),
    {
        get_field16(self.0, 10, 2)
    }

    /// The value with the priority field set to the low bits of `x`, all
    /// other fields kept.
    pub fn with_z_index(self, x: u16) -> (r: Self)
        ensures
            r.bits() == u16_set_field(self.bits(), 10, 2, x),
    {
        ObjAttr2(set_field16(self.0, 10, 2, x))
    }

    /// Which sixteen-color palette bank the object uses.
    pub fn palbank(self) -> (r: u16)
        ensures
            r == u16_get_field(self.bits(), 12, 4),
    {
        get_field16(self.0, 12, 4)
    }

    /// The value with the palette-bank field set to the low bits of `x`, all
    /// other fields kept.
    pub fn with_palbank(self, x: u16) -> (r: Self)
        ensures
            r.bits() == u16_set_field(self.bits(), 12, 4, x),
    {
        ObjAttr2(set_field16(self.0, 12, 4, x))
    }
}

/// One object's three attribute registers together.
#[derive(Clone, Copy, Debug, PartialEq, Eq, Structural)]
pub struct Obj(pub ObjAttr0, pub ObjAttr1, pub ObjAttr2);

/// A screen block interpreted as an affine map of the smallest size: a run
/// of one-byte entries.
pub type AffineScreenblockS0 = VolBlock<1, true, true, 256>;

/// A screen block interpreted as an affine map of the second size.
pub type AffineScreenblockS1 = VolBlock<1, true, true, 1024>;

/// A screen block interpreted as an affine map of the third size.
pub type AffineScreenblockS2 = VolBlock<1, true, true, 4096>;

/// A screen block interpreted as an affine map of the largest size.
pub type AffineScreenblockS3 = VolBlock<1, true, true, 16384>;

/// The affine map of the smallest size in screen block slot `N`, for `N`
/// below 32.
pub fn affine_screenblock_s0<const N: usize>() -> (r: AffineScreenblockS0)
    requires
        N < 32,
    ensures
        r.spec_base() == 0x0600_0000 + N * 2048,
{
    VolBlock::new(0x0600_0000 + N * 2048)
}

/// The affine map of the second size in screen block slot `N`, for `N` below
/// 32.
pub fn affine_screenblock_s1<const N: usize>() -> (r: AffineScreenblockS1)
    requires
        N < 32,
    ensures
        r.spec_base() == 0x0600_0000 + N * 2048,
{
    VolBlock::new(0x0600_0000 + N * 2048)
}

/// The affine map of the third size in screen block slot `N`, for `N` below
/// 30: the map itself spans several slots.
pub fn affine_screenblock_s2<const N: usize>() -> (r: AffineScreenblockS2)
    requires
        N < 30,
    ensures
        r.spec_base() == 0x0600_0000 + N * 2048,
{
    VolBlock::new(0x0600_0000 + N * 2048)
}

/// The affine map of the largest size in screen block slot `N`, for `N`
/// below 24: the map itself spans several slots.
pub fn affine_screenblock_s3<const N: usize>() -> (r: AffineScreenblockS3)
    requires
        N < 24,
    ensures
        r.spec_base() == 0x0600_0000 + N * 2048,
{
    VolBlock::new(0x0600_0000 + N * 2048)
}

} // verus!
