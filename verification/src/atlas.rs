//! The sprite atlas: named rectangles of one sheet of images.
//!
//! The atlas holds what the sheet's description says, in whole pixels. It
//! finds a frame by its name and cuts a sprite out of the sheet; drawing the
//! sprite is left to whoever holds the image.

use vstd::prelude::*;
use crate::collision::BoundingBox;
use crate::fixed::{sat_mul, saturate};
use crate::vector::Vector2;

verus! {

/// Width and height of the sheet, in pixels.
#[derive(Clone, Copy, Debug, PartialEq, Eq, Structural)]
pub struct AtlasSize {
    pub w: i32,
    pub h: i32,
}

/// What the sheet's description says of the sheet as a whole.
#[derive(Clone, Copy, Debug, PartialEq, Eq, Structural)]
pub struct Meta {
    pub size: AtlasSize,
}

/// A rectangle of the sheet, in pixels.
#[derive(Clone, Copy, Debug, PartialEq, Eq, Structural)]
pub struct JsonRect {
    pub x: i32,
    pub y: i32,
    pub w: i32,
    pub h: i32,
}

/// One named frame of the sheet.
#[derive(Debug)]
pub struct SpriteData {
    pub filename: String,
    pub frame: JsonRect,
}

/// What a [`SpriteData`] is, as a plain value.
pub struct SpriteDataView {
    pub filename: Seq<char>,
    pub frame: JsonRect,
}

impl View for SpriteData {
    type V = SpriteDataView;

    open spec fn view(&self) -> SpriteDataView {
        SpriteDataView { filename: self.filename@, frame: self.frame }
    }
}

/// A sprite: a rectangle cut out of the sheet, and the size to draw it at.
#[derive(Clone, Copy, Debug, PartialEq, Eq, Structural)]
pub struct Sprite {
    /// The rectangle to cut out of the sheet, in pixels.
    pub rect: JsonRect,
    /// The size of the sheet that `rect` is a part of.
    pub sheet: AtlasSize,
    /// Factors by which the sprite is stretched along each axis.
    pub scale: Vector2,
    pub width: i32,
    pub height: i32,
}

impl Sprite {
    /// The unscaled sprite of the given size that shows `rect` of a sheet.
    pub open spec fn cut(rect: JsonRect, sheet: AtlasSize, width: i32, height: i32) -> Sprite {
        Sprite { rect, sheet, scale: Vector2 { x: 1, y: 1 }, width, height }
    }

    /// The box that the scaled sprite covers when drawn at the origin.
    pub open spec fn bound_box(self) -> BoundingBox {
        BoundingBox {
            x: 0,
            y: 0,
            width: saturate(self.width * self.scale.x),
            height: saturate(self.height * self.scale.y),
        }
    }

    /// The unscaled sprite of the given size that shows `rect` of a sheet.
    pub fn new(rect: JsonRect, sheet: AtlasSize, width: i32, height: i32) -> (sprite: Sprite)
        ensures
            sprite == Sprite::cut(rect, sheet, width, height),
    {
        Self { rect, sheet, scale: Vector2 { x: 1, y: 1 }, width, height }
    }

    /// Returns the bounding box for this sprite.
    pub fn get_bound_box(&self) -> (r: BoundingBox)
        ensures
            r == self.bound_box(),
    {
        BoundingBox {
            x: 0,
            y: 0,
            width: sat_mul(self.width as i64, self.scale.x),
            height: sat_mul(self.height as i64, self.scale.y),
        }
    }
}

/// What an [`Atlas`] is, as a plain value.
pub struct AtlasView {
    pub frames: Seq<SpriteDataView>,
    pub size: AtlasSize,
}

impl AtlasView {
    /// The index of the first frame at or after `from` that is called `name`;
    /// the number of frames if there is none.
    pub open spec fn position_from(self, name: Seq<char>, from: int) -> int
        decreases self.frames.len() - from,
    {
        if from < 0 || from >= self.frames.len() {
            self.frames.len() as int
        } else if self.frames[from].filename == name {
            from
        } else {
            self.position_from(name, from + 1)
        }
    }

    /// Whether a frame is called `name`.
    pub open spec fn contains(self, name: Seq<char>) -> bool {
        self.position_from(name, 0) < self.frames.len()
    }

    /// The sprite of the first frame called `name`, at the frame's own size.
    pub open spec fn sprite(self, name: Seq<char>) -> Sprite {
        let frame = self.frames[self.position_from(name, 0)].frame;
        Sprite::cut(frame, self.size, frame.w, frame.h)
    }
}

/// The first frame of a name is a frame of that name, and no frame before it
/// has the name.
pub proof fn lemma_position(atlas: AtlasView, name: Seq<char>, from: int)
    requires
        0 <= from <= atlas.frames.len(),
    ensures
        from <= atlas.position_from(name, from) <= atlas.frames.len(),
        forall|k: int|
            from <= k < atlas.position_from(name, from) ==> (#[trigger] atlas.frames[k]).filename
                != name,
        atlas.position_from(name, from) < atlas.frames.len() ==> atlas.frames[atlas.position_from(
            name,
            from,
        )].filename == name,
    decreases atlas.frames.len() - from,
{
    if from < atlas.frames.len() && atlas.frames[from].filename != name {
        lemma_position(atlas, name, from + 1);
    }
}

/// The description of one sheet of images.
pub struct Atlas {
    frames: Vec<SpriteData>,
    meta: Meta,
}

impl View for Atlas {
    type V = AtlasView;

    closed spec fn view(&self) -> AtlasView {
        AtlasView {
            frames: Seq::new(self.frames@.len(), |k: int| self.frames@[k]@),
            size: self.meta.size,
        }
    }
}

impl Atlas {
    /// The atlas of the given frames.
    pub fn new(frames: Vec<SpriteData>, meta: Meta) -> (atlas: Atlas)
        ensures
            atlas@.size == meta.size,
            atlas@.frames.len() == frames@.len(),
            forall|k: int| 0 <= k < frames@.len() ==> atlas@.frames[k] == (#[trigger] frames@[k])@,
    {
        Atlas { frames, meta }
    }

    /// The sprite of the first frame called `sprite_name`, if there is one.
    pub fn find_sprite(&self, sprite_name: &str) -> (found: Option<Sprite>)
        ensures
            found is Some <==> self@.contains(sprite_name@),
            found is Some ==> found->Some_0 == self@.sprite(sprite_name@),
    {
        let wanted: String = sprite_name.to_owned();
        let mut k: usize = 0;
        while k < self.frames.len()
            invariant
                k <= self.frames@.len(),
                wanted@ == sprite_name@,
                self@.position_from(sprite_name@, 0) == self@.position_from(
                    sprite_name@,
                    k as int,
                ),
            decreases self.frames@.len() - k,
        {
            let sprite_data = &self.frames[k];
            assert(self@.frames[k as int] == sprite_data@);
            if sprite_data.filename == wanted {
                return Some(
                    Sprite::new(
                        sprite_data.frame,
                        self.meta.size,
                        sprite_data.frame.w,
                        sprite_data.frame.h,
                    ),
                );
            }
            k += 1;
        }
        None
    }

    /// The sprite of the first frame called `sprite_name`. The atlas must
    /// hold such a frame.
    pub fn create_sprite(&self, sprite_name: &str) -> (sprite: Sprite)
        requires
            self@.contains(sprite_name@),
        ensures
            sprite == self@.sprite(sprite_name@),
    {
        self.find_sprite(sprite_name).unwrap()
    }

    /// The frames of the sheet, in the order of its description.
    pub fn frames(&self) -> (frames: &Vec<SpriteData>)
        ensures
            frames@.len() == self@.frames.len(),
            forall|k: int| 0 <= k < frames@.len() ==> (#[trigger] frames@[k])@ == self@.frames[k],
    {
        &self.frames
    }

    /// Width and height of the sheet.
    pub fn size(&self) -> (size: AtlasSize)
        ensures
            size == self@.size,
    {
        self.meta.size
    }
}

} // verus!
