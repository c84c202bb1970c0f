//! The choices made once while the window's output is set up: which queue
//! family carries the frames, which surface format is presented, how many
//! images the swapchain asks for and how large the shared texture is.

use crate::extent::Extent;
use vstd::prelude::*;
use vstd::utf8::encode_utf8;

verus! {

/// What the bridge needs to know of one queue family of the device.
#[derive(Clone, Copy, Debug, PartialEq, Eq, Structural)]
pub struct QueueFamily {
    /// The family executes transfer commands.
    pub transfer: bool,
    /// The family can present to the window system.
    pub presents: bool,
}

/// Size of a texture shared with the compositor. The bridge only ever asks
/// for two-dimensional textures.
#[derive(Clone, Copy, Debug, PartialEq, Eq, Structural)]
pub enum TextureSize {
    Dim2D { width: u32, height: u32 },
}

/// The parameters of an output that follow from the window and its surface.
#[derive(Clone, Copy, Debug, PartialEq, Eq, Structural)]
pub struct OutputPlan {
    /// Position of the chosen format in the list the surface offered.
    pub format: usize,
    /// The least number of images to ask the swapchain for.
    pub min_image_count: u32,
    /// Extent of the swapchain images.
    pub surface_extent: Extent,
    /// Size of the texture to share with the compositor.
    pub shared_size: TextureSize,
}

/// Why no output can be planned.
#[derive(Clone, Copy, Debug, PartialEq, Eq, Structural)]
pub enum PlanError {
    /// The surface offers no sRGB format.
    NoSrgbFormat,
}

/// A swapchain of the bridge never asks for fewer images than this.
pub const MIN_SWAPCHAIN_IMAGES: u32 = 2;

impl QueueFamily {
    /// A family can carry the bridge's frames if it both transfers and
    /// presents.
    pub open spec fn fits(self) -> bool {
        self.transfer && self.presents
    }
}

impl TextureSize {
    /// Width and height of the texture.
    pub open spec fn spec_extent(self) -> Extent {
        match self {
            TextureSize::Dim2D { width, height } => Extent { width, height },
        }
    }

    /// Width and height of the texture.
    pub fn extent(&self) -> (e: Extent)
        ensures
            e == self.spec_extent(),
    {
        match self {
            TextureSize::Dim2D { width, height } => Extent { width: *width, height: *height },
        }
    }
}

/// `i` is the position of the first family of `families` that fits, or their
/// number if none does.
pub open spec fn is_first_fit(families: Seq<QueueFamily>, i: int) -> bool {
    &&& 0 <= i <= families.len()
    &&& i < families.len() ==> families[i].fits()
    &&& forall|j: int| 0 <= j < i ==> !(#[trigger] families[j]).fits()
}

/// Picks the queue family for the bridge: the first one that both transfers
/// and presents.
pub fn select_queue_family(families: &Vec<QueueFamily>) -> (r: Option<usize>)
    ensures
        match r {
            Some(i) => i < families@.len() && is_first_fit(families@, i as int),
            None => is_first_fit(families@, families@.len() as int),
        },
{
    let mut i: usize = 0;
    while i < families.len()
        invariant
            i <= families@.len(),
            forall|j: int| 0 <= j < i ==> !(#[trigger] families@[j]).fits(),
        decreases families@.len() - i,
    {
        if families[i].transfer && families[i].presents {
            return Some(i);
        }
        i += 1;
    }
    None
}

/// The bytes `S`, `R`, `G`, `B` stand in `bytes` from position `i` on.
pub open spec fn srgb_at(bytes: Seq<u8>, i: int) -> bool {
    &&& 0 <= i
    &&& i + 4 <= bytes.len()
    &&& bytes[i] == 0x53
    &&& bytes[i + 1] == 0x52
    &&& bytes[i + 2] == 0x47
    &&& bytes[i + 3] == 0x42
}

/// The text `SRGB` occurs somewhere in `bytes`.
pub open spec fn mentions_srgb(bytes: Seq<u8>) -> bool {
    exists|i: int| srgb_at(bytes, i)
}

/// A format's name says that it is an sRGB format exactly if the name, as
/// UTF-8, contains `SRGB`.
pub open spec fn is_srgb_name(name: Seq<char>) -> bool {
    mentions_srgb(encode_utf8(name))
}

/// Tells from a format's name whether it is an sRGB format.
pub fn names_srgb(name: &str) -> (b: bool)
    ensures
        b == is_srgb_name(name@),
{
    let bytes = name.as_bytes();
    let n = bytes.len();
    if n < 4 {
        return false;
    }
    let mut i: usize = 0;
    while i <= n - 4
        invariant
            n == bytes@.len(),
            bytes@ == encode_utf8(name@),
            n >= 4,
            i <= n - 3,
            forall|j: int| 0 <= j < i ==> !srgb_at(bytes@, j),
        decreases n - i,
    {
        if bytes[i] == 0x53 && bytes[i + 1] == 0x52 && bytes[i + 2] == 0x47 && bytes[i + 3]
            == 0x42 {
            assert(srgb_at(bytes@, i as int));
            return true;
        }
        i += 1;
    }
    false
}

/// `i` is the position of the first name of `names` that mentions `SRGB`, or
/// their number if none does.
pub open spec fn is_first_srgb(names: Seq<String>, i: int) -> bool {
    &&& 0 <= i <= names.len()
    &&& i < names.len() ==> is_srgb_name(names[i]@)
    &&& forall|j: int| 0 <= j < i ==> !is_srgb_name(#[trigger] names[j]@)
}

/// Picks the surface format to present in: the first offered format whose
/// name says that it is an sRGB format.
pub fn select_surface_format(names: &Vec<String>) -> (r: Option<usize>)
    ensures
        match r {
            Some(i) => i < names@.len() && is_first_srgb(names@, i as int),
            None => is_first_srgb(names@, names@.len() as int),
        },
{
    let mut i: usize = 0;
    while i < names.len()
        invariant
            i <= names@.len(),
            forall|j: int| 0 <= j < i ==> !is_srgb_name(#[trigger] names@[j]@),
        decreases names@.len() - i,
    {
        if names_srgb(names[i].as_str()) {
            return Some(i);
        }
        i += 1;
    }
    None
}

/// The number of images to ask a swapchain for, given the least number the
/// surface supports: that number, but never fewer than two.
pub open spec fn spec_image_count(surface_min: u32) -> u32 {
    if surface_min < MIN_SWAPCHAIN_IMAGES {
        MIN_SWAPCHAIN_IMAGES
    } else {
        surface_min
    }
}

/// The number of images to ask a swapchain for.
pub fn image_count(surface_min: u32) -> (n: u32)
    ensures
        n == spec_image_count(surface_min),
{
    if surface_min < MIN_SWAPCHAIN_IMAGES {
        MIN_SWAPCHAIN_IMAGES
    } else {
        surface_min
    }
}

/// Plans the output for a window of extent `window` on a surface that
/// supports at least `surface_min` images and offers the formats `names`.
///
/// The swapchain images and the shared texture both get the extent of the
/// window, so that a frame is copied pixel for pixel unless the window has
/// changed since.
pub fn plan_output(window: Extent, surface_min: u32, names: &Vec<String>) -> (r: Result<
    OutputPlan,
    PlanError,
>)
    ensures
        match r {
            Ok(plan) => {
                &&& plan.format < names@.len()
                &&& is_first_srgb(names@, plan.format as int)
                &&& plan.min_image_count == spec_image_count(surface_min)
                &&& plan.surface_extent == window
                &&& plan.shared_size == (TextureSize::Dim2D {
                    width: window.width,
                    height: window.height,
                })
            },
            Err(e) => e == PlanError::NoSrgbFormat && is_first_srgb(names@, names@.len() as int),
        },
{
    match select_surface_format(names) {
        None => Err(PlanError::NoSrgbFormat),
        Some(format) => Ok(
            OutputPlan {
                format,
                min_image_count: image_count(surface_min),
                surface_extent: window,
                shared_size: TextureSize::Dim2D { width: window.width, height: window.height },
            },
        ),
    }
}

} // verus!
