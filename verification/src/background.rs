//! The parallax background: a biome is a fixed set of sections, each with a
//! size, a depth, a texture and a transparency. Per frame each layer's
//! x-position follows the camera, scaled down by how deep the layer sits:
//! deeper layers move less.

use vstd::prelude::*;

use crate::level::ImageHandleId;
use crate::math::{div_trunc, div_trunc_i64, Vec2i};

verus! {

/// A set of background sections with a shared visual theme.
#[derive(Clone, Copy, Debug, PartialEq, Eq, Structural)]
pub enum Biome {
    Swamp,
}

/// One visual layer of the parallax background.
#[derive(Clone, Copy, Debug, PartialEq, Eq, Structural)]
pub enum BackgroundSection {
    SwampHills0,
    SwampHills1,
    SwampHills2,
    SwampIsland0,
    SwampIsland1,
    SwampIsland2,
    SwampKelp0,
    SwampKelp1,
    SwampPond,
}

/// Every section, in the order layers are spawned.
pub open spec fn all_sections() -> Seq<BackgroundSection> {
    seq![
        BackgroundSection::SwampHills0,
        BackgroundSection::SwampHills1,
        BackgroundSection::SwampHills2,
        BackgroundSection::SwampIsland0,
        BackgroundSection::SwampIsland1,
        BackgroundSection::SwampIsland2,
        BackgroundSection::SwampKelp0,
        BackgroundSection::SwampKelp1,
        BackgroundSection::SwampPond,
    ]
}

impl BackgroundSection {
    /// Every section, in spawn order.
    pub fn enumerate() -> (sections: Vec<BackgroundSection>)
        ensures
            sections@ == all_sections(),
    {
        let sections = vec![
            BackgroundSection::SwampHills0,
            BackgroundSection::SwampHills1,
            BackgroundSection::SwampHills2,
            BackgroundSection::SwampIsland0,
            BackgroundSection::SwampIsland1,
            BackgroundSection::SwampIsland2,
            BackgroundSection::SwampKelp0,
            BackgroundSection::SwampKelp1,
            BackgroundSection::SwampPond,
        ];
        proof {
            assert(sections@ =~= all_sections());
        }
        sections
    }

    /// The layer's size in milliunits; every section of the swamp shares one
    /// size.
    pub fn size(&self) -> (s: Vec2i)
        ensures
            s.x == 2_048_000,
            s.y == 540_000,
    {
        Vec2i::new(2_048_000, 540_000)
    }

    /// The depth the section draws at.
    pub open spec fn z_spec(self) -> int {
        match self {
            BackgroundSection::SwampHills0 => 2,
            BackgroundSection::SwampHills1 => 1,
            BackgroundSection::SwampHills2 => 0,
            BackgroundSection::SwampIsland0 => 5,
            BackgroundSection::SwampIsland1 => 5,
            BackgroundSection::SwampIsland2 => 5,
            BackgroundSection::SwampKelp0 => 6,
            BackgroundSection::SwampKelp1 => 7,
            BackgroundSection::SwampPond => 8,
        }
    }

    /// The depth the section draws at: larger is closer to the camera, up to
    /// `BG_MAX`.
    pub fn z(&self) -> (z: i64)
        ensures
            z == self.z_spec(),
            0 <= z <= crate::BG_MAX,
    {
        match self {
            BackgroundSection::SwampHills0 => 2,
            BackgroundSection::SwampHills1 => 1,
            BackgroundSection::SwampHills2 => 0,
            BackgroundSection::SwampIsland0 => 5,
            BackgroundSection::SwampIsland1 => 5,
            BackgroundSection::SwampIsland2 => 5,
            BackgroundSection::SwampKelp0 => 6,
            BackgroundSection::SwampKelp1 => 7,
            BackgroundSection::SwampPond => 8,
        }
    }

    /// The section's transparency, in thousandths of full opacity.
    pub open spec fn transparency_spec(self) -> int {
        match self {
            BackgroundSection::SwampHills0 => 150,
            BackgroundSection::SwampHills1 => 150,
            BackgroundSection::SwampHills2 => 150,
            BackgroundSection::SwampIsland0 => 0,
            BackgroundSection::SwampIsland1 => 100,
            BackgroundSection::SwampIsland2 => 100,
            BackgroundSection::SwampKelp0 => 0,
            BackgroundSection::SwampKelp1 => 150,
            BackgroundSection::SwampPond => 0,
        }
    }

    /// The section's transparency, in thousandths; at most 150.
    pub fn transparency(&self) -> (t: i64)
        ensures
            t == self.transparency_spec(),
            0 <= t <= 150,
    {
        match self {
            BackgroundSection::SwampHills0 => 150,
            BackgroundSection::SwampHills1 => 150,
            BackgroundSection::SwampHills2 => 150,
            BackgroundSection::SwampIsland0 => 0,
            BackgroundSection::SwampIsland1 => 100,
            BackgroundSection::SwampIsland2 => 100,
            BackgroundSection::SwampKelp0 => 0,
            BackgroundSection::SwampKelp1 => 150,
            BackgroundSection::SwampPond => 0,
        }
    }

    /// The image-handle slot the section's texture is kept under.
    pub fn image_handle_id(&self) -> (id: ImageHandleId)
        ensures
            id == match *self {
                BackgroundSection::SwampHills0 => ImageHandleId::BackgroundSwampHills0,
                BackgroundSection::SwampHills1 => ImageHandleId::BackgroundSwampHills1,
                BackgroundSection::SwampHills2 => ImageHandleId::BackgroundSwampHills2,
                BackgroundSection::SwampIsland0 => ImageHandleId::BackgroundSwampIsland0,
                BackgroundSection::SwampIsland1 => ImageHandleId::BackgroundSwampIsland1,
                BackgroundSection::SwampIsland2 => ImageHandleId::BackgroundSwampIsland2,
                BackgroundSection::SwampKelp0 => ImageHandleId::BackgroundSwampKelp0,
                BackgroundSection::SwampKelp1 => ImageHandleId::BackgroundSwampKelp1,
                BackgroundSection::SwampPond => ImageHandleId::BackgroundSwampPond,
            },
    {
        match self {
            BackgroundSection::SwampHills0 => ImageHandleId::BackgroundSwampHills0,
            BackgroundSection::SwampHills1 => ImageHandleId::BackgroundSwampHills1,
            BackgroundSection::SwampHills2 => ImageHandleId::BackgroundSwampHills2,
            BackgroundSection::SwampIsland0 => ImageHandleId::BackgroundSwampIsland0,
            BackgroundSection::SwampIsland1 => ImageHandleId::BackgroundSwampIsland1,
            BackgroundSection::SwampIsland2 => ImageHandleId::BackgroundSwampIsland2,
            BackgroundSection::SwampKelp0 => ImageHandleId::BackgroundSwampKelp0,
            BackgroundSection::SwampKelp1 => ImageHandleId::BackgroundSwampKelp1,
            BackgroundSection::SwampPond => ImageHandleId::BackgroundSwampPond,
        }
    }

    /// The asset path of the section's texture.
    pub fn texture_path(&self) -> (path: &'static str)
        ensures
            *self is SwampHills0 ==> path@ == "backgrounds/swamp/hills0.png"@,
            *self is SwampHills1 ==> path@ == "backgrounds/swamp/hills1.png"@,
            *self is SwampHills2 ==> path@ == "backgrounds/swamp/hills2.png"@,
            *self is SwampIsland0 ==> path@ == "backgrounds/swamp/island0.png"@,
            *self is SwampIsland1 ==> path@ == "backgrounds/swamp/island1.png"@,
            *self is SwampIsland2 ==> path@ == "backgrounds/swamp/island2.png"@,
            *self is SwampKelp0 ==> path@ == "backgrounds/swamp/kelp0.png"@,
            *self is SwampKelp1 ==> path@ == "backgrounds/swamp/kelp1.png"@,
            *self is SwampPond ==> path@ == "backgrounds/swamp/pond.png"@,
    {
        match self {
            BackgroundSection::SwampHills0 => "backgrounds/swamp/hills0.png",
            BackgroundSection::SwampHills1 => "backgrounds/swamp/hills1.png",
            BackgroundSection::SwampHills2 => "backgrounds/swamp/hills2.png",
            BackgroundSection::SwampIsland0 => "backgrounds/swamp/island0.png",
            BackgroundSection::SwampIsland1 => "backgrounds/swamp/island1.png",
            BackgroundSection::SwampIsland2 => "backgrounds/swamp/island2.png",
            BackgroundSection::SwampKelp0 => "backgrounds/swamp/kelp0.png",
            BackgroundSection::SwampKelp1 => "backgrounds/swamp/kelp1.png",
            BackgroundSection::SwampPond => "backgrounds/swamp/pond.png",
        }
    }
}

impl Biome {
    /// The sections the biome draws, in spawn order.
    pub fn sections(&self) -> (sections: Vec<BackgroundSection>)
        ensures
            sections@ == all_sections(),
    {
        match self {
            Biome::Swamp => BackgroundSection::enumerate(),
        }
    }
}

/// The background component of a spawned layer entity.
#[derive(Clone, Copy, Debug, PartialEq, Eq, Structural)]
pub struct Background {
    pub section: BackgroundSection,
}

/// Where a layer of depth `z` and width `width` sits when the camera is at
/// `global_x`: the camera offset scaled down by the layer's remaining depth
/// (deeper layers move less), shifted right by a fifth of the layer's width.
pub open spec fn parallax_x(global_x: int, z: int, width: int) -> int {
    div_trunc(-global_x * (crate::BG_MAX - z), 42) + width / 5
}

impl Background {
    /// The layer's x-position for a camera at `global_x`.
    pub fn new_position(&self, global_x: i64) -> (x: i64)
        requires
            crate::in_world(global_x),
        ensures
            x == parallax_x(global_x as int, self.section.z_spec(), 2_048_000),
    {
        let z = self.section.z();
        proof {
            assert(-8_000_000_000 <= -global_x * (crate::BG_MAX - z) <= 8_000_000_000)
                by (nonlinear_arith)
                requires
                    -1_000_000_000 <= global_x <= 1_000_000_000,
                    0 <= crate::BG_MAX - z <= 8;
        }
        let offset = div_trunc_i64(-global_x * (crate::BG_MAX - z), 42);
        offset + self.size_width() / 5
    }

    /// The layer's width in milliunits.
    fn size_width(&self) -> (w: i64)
        ensures
            w == 2_048_000,
    {
        self.section.size().x
    }
}

/// The lightness the clear-color tint takes for a layer of transparency `t`
/// (in thousandths, at most 150): transparency 150 maps to the nominal
/// lightness of 100 thousandths, transparency 0 to the opaque 420
/// thousandths, linearly.
pub fn map_transparency(t: i64) -> (lightness: i64)
    requires
        0 <= t <= 150,
    ensures
        lightness == 100 + (320 * (150 - t)) / 150,
        100 <= lightness <= 420,
{
    100 + (320 * (150 - t)) / 150
}

} // verus!
