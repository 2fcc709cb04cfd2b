use vstd::prelude::*;
use vstd::string::*;

use crate::decimal::{decimal, push_decimal};

verus! {

/// Vulkan's code for the `B8G8R8A8_SRGB` image format.
pub const FORMAT_B8G8R8A8_SRGB: u32 = 50;

/// Vulkan's code for the `SRGB_NONLINEAR` color space.
pub const COLOR_SPACE_SRGB_NONLINEAR: u32 = 0;

/// A format and color space pair that a surface supports, both as Vulkan
/// enumeration codes.
#[derive(Clone, Copy, Debug, PartialEq, Eq, Structural)]
pub struct SurfaceFormat {
    pub format: u32,
    pub color_space: u32,
}

/// The pair preferred for presenting: `B8G8R8A8_SRGB` in sRGB non-linear.
pub open spec fn is_preferred(f: SurfaceFormat) -> bool {
    f.format == FORMAT_B8G8R8A8_SRGB && f.color_space == COLOR_SPACE_SRGB_NONLINEAR
}

/// `i` is the position chosen in `s`: the first preferred pair, or the
/// first pair when none is preferred.
pub open spec fn is_pick(s: Seq<SurfaceFormat>, i: int) -> bool {
    &&& 0 <= i < s.len()
    &&& if is_preferred(s[i]) {
        forall|j: int| 0 <= j < i ==> !is_preferred(#[trigger] s[j])
    } else {
        i == 0 && forall|j: int| 0 <= j < s.len() ==> !is_preferred(#[trigger] s[j])
    }
}

/// The line that announces the chosen pair.
pub open spec fn choice_text(f: SurfaceFormat) -> Seq<char> {
    if is_preferred(f) {
        "Using B8G8R8A8_SRGB format in SrgbNonLinear color space"@
    } else {
        "Using fallback format "@ + decimal(f.format as nat)
    }
}

/// A non-empty list has exactly one chosen position.
pub proof fn lemma_pick_unique(s: Seq<SurfaceFormat>, i: int, k: int)
    requires
        is_pick(s, i),
        is_pick(s, k),
    ensures
        i == k,
{
    if i < k {
        assert(!is_preferred(s[i]));
    } else if k < i {
        assert(!is_preferred(s[k]));
    }
}

/// The position of the pair to present with: the first
/// `B8G8R8A8_SRGB` / sRGB non-linear pair, else the first pair.
pub fn pick_format_index(supported_formats: &Vec<SurfaceFormat>) -> (r: usize)
    requires
        supported_formats@.len() > 0,
    ensures
        is_pick(supported_formats@, r as int),
{
    let mut i: usize = 0;
    while i < supported_formats.len()
        invariant
            0 <= i <= supported_formats@.len(),
            forall|j: int| 0 <= j < i ==> !is_preferred(#[trigger] supported_formats@[j]),
        decreases supported_formats@.len() - i,
    {
        let f = supported_formats[i];
        if f.format == FORMAT_B8G8R8A8_SRGB && f.color_space == COLOR_SPACE_SRGB_NONLINEAR {
            return i;
        }
        i = i + 1;
    }
    0
}

/// The pair to present with, and the line that announces it.
pub fn pick_format(supported_formats: &Vec<SurfaceFormat>) -> (r: (SurfaceFormat, String))
    requires
        supported_formats@.len() > 0,
    ensures
        exists|i: int| is_pick(supported_formats@, i) && r.0 == supported_formats@[i],
        r.1@ == choice_text(r.0),
{
    let i = pick_format_index(supported_formats);
    let f = supported_formats[i];
    (f, choice_message(f))
}

/// The line that announces `f` as the chosen pair.
pub fn choice_message(f: SurfaceFormat) -> (r: String)
    ensures
        r@ == choice_text(f),
{
    if f.format == FORMAT_B8G8R8A8_SRGB && f.color_space == COLOR_SPACE_SRGB_NONLINEAR {
        String::from_str("Using B8G8R8A8_SRGB format in SrgbNonLinear color space")
    } else {
        let mut s = String::from_str("Using fallback format ");
        push_decimal(&mut s, f.format as u64);
        s
    }
}

} // verus!
