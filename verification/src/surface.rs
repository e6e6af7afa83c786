//! Choosing how the drawable surface is configured from what it reports as
//! supported.

use vstd::prelude::*;
use wgpu::CompositeAlphaMode;
use wgpu::PresentMode;
use wgpu::TextureFormat;

verus! {

/// `wgpu::TextureFormat`, a pixel format, carried through as an opaque value.
#[verifier::external_type_specification]
#[verifier::external_body]
pub struct ExTextureFormat(TextureFormat);

/// `wgpu::PresentMode`, carried through as an opaque value.
#[verifier::external_type_specification]
#[verifier::external_body]
pub struct ExPresentMode(PresentMode);

/// `wgpu::CompositeAlphaMode`, carried through as an opaque value.
#[verifier::external_type_specification]
#[verifier::external_body]
pub struct ExCompositeAlphaMode(CompositeAlphaMode);

/// What `wgpu::TextureFormat::is_srgb` answers for a format. Nothing is
/// proved of it: which formats are sRGB is the GPU library's knowledge.
pub uninterp spec fn is_srgb(format: TextureFormat) -> bool;

/// Calls `wgpu::TextureFormat::is_srgb`, which tells whether a format stores
/// its colors sRGB-encoded. Believed, not proved: the call returns, and its
/// answer depends on the format alone.
#[verifier::external_body]
fn format_is_srgb(format: &TextureFormat) -> (srgb: bool)
    ensures
        srgb == is_srgb(*format),
{
    format.is_srgb()
}

/// Position of the first sRGB format in a list, if it has one.
pub open spec fn first_srgb(formats: Seq<TextureFormat>) -> Option<int>
    decreases formats.len(),
{
    if formats.len() == 0 {
        None
    } else if is_srgb(formats.first()) {
        Some(0)
    } else {
        match first_srgb(formats.drop_first()) {
            Some(i) => Some(i + 1),
            None => None,
        }
    }
}

/// The format to render in: the first sRGB format listed, or the first format
/// of all when none is sRGB.
pub open spec fn preferred_format(formats: Seq<TextureFormat>) -> TextureFormat
    recommends
        formats.len() > 0,
{
    match first_srgb(formats) {
        Some(i) => formats[i],
        None => formats[0],
    }
}

/// `first_srgb` finds an sRGB format that no sRGB format precedes, and finds
/// none only where the list holds none.
pub proof fn lemma_first_srgb(formats: Seq<TextureFormat>)
    ensures
        match first_srgb(formats) {
            Some(i) => {
                &&& 0 <= i < formats.len()
                &&& is_srgb(formats[i])
                &&& forall|j: int| 0 <= j < i ==> !is_srgb(#[trigger] formats[j])
            },
            None => forall|j: int| 0 <= j < formats.len() ==> !is_srgb(#[trigger] formats[j]),
        },
    decreases formats.len(),
{
    if formats.len() > 0 && !is_srgb(formats.first()) {
        let rest = formats.drop_first();
        lemma_first_srgb(rest);
        assert(forall|j: int| 0 <= j < rest.len() ==> rest[j] == formats[j + 1]);
        match first_srgb(rest) {
            Some(i) => {
                assert forall|j: int| 0 <= j < i + 1 implies !is_srgb(#[trigger] formats[j]) by {
                    if j > 0 {
                        assert(rest[j - 1] == formats[j]);
                    }
                }
            },
            None => {
                assert forall|j: int| 0 <= j < formats.len() implies !is_srgb(
                    #[trigger] formats[j],
                ) by {
                    if j > 0 {
                        assert(rest[j - 1] == formats[j]);
                    }
                }
            },
        }
    }
}

/// Whatever the position of the first sRGB format in a list, that format is
/// the preferred one.
pub proof fn preferred_format_is_first_srgb(formats: Seq<TextureFormat>, i: int)
    requires
        0 <= i < formats.len(),
        is_srgb(formats[i]),
        forall|j: int| 0 <= j < i ==> !is_srgb(#[trigger] formats[j]),
    ensures
        preferred_format(formats) == formats[i],
{
    lemma_first_srgb(formats);
}

/// With no sRGB format in a list, its first entry is the preferred one.
pub proof fn preferred_format_falls_back_to_first(formats: Seq<TextureFormat>)
    requires
        formats.len() > 0,
        forall|j: int| 0 <= j < formats.len() ==> !is_srgb(#[trigger] formats[j]),
    ensures
        preferred_format(formats) == formats[0],
{
    lemma_first_srgb(formats);
}

/// Picks the surface's color format from the formats it supports.
pub fn choose_format(formats: &Vec<TextureFormat>) -> (format: TextureFormat)
    requires
        formats@.len() > 0,
    ensures
        format == preferred_format(formats@),
{
    let mut i: usize = 0;
    while i < formats.len()
        invariant
            i <= formats@.len(),
            forall|j: int| 0 <= j < i ==> !is_srgb(#[trigger] formats@[j]),
        decreases formats@.len() - i,
    {
        if format_is_srgb(&formats[i]) {
            proof {
                preferred_format_is_first_srgb(formats@, i as int);
            }
            return formats[i];
        }
        i = i + 1;
    }
    proof {
        preferred_format_falls_back_to_first(formats@);
    }
    formats[0]
}

/// Upper bound on frames queued for presentation.
pub const MAX_FRAME_LATENCY: u32 = 2;

/// How the surface is to be configured.
#[derive(Clone, Copy, Debug)]
pub struct SurfaceSettings {
    pub format: TextureFormat,
    pub width: u32,
    pub height: u32,
    pub present_mode: PresentMode,
    pub alpha_mode: CompositeAlphaMode,
    pub desired_maximum_frame_latency: u32,
}

/// Settles the surface's configuration: the preferred color format, the given
/// size, the first presentation mode and the first alpha mode that the
/// surface reports, and the fixed frame latency.
pub fn plan_surface(
    formats: &Vec<TextureFormat>,
    present_modes: &Vec<PresentMode>,
    alpha_modes: &Vec<CompositeAlphaMode>,
    width: u32,
    height: u32,
) -> (settings: SurfaceSettings)
    requires
        formats@.len() > 0,
        present_modes@.len() > 0,
        alpha_modes@.len() > 0,
    ensures
        settings.format == preferred_format(formats@),
        settings.width == width,
        settings.height == height,
        settings.present_mode == present_modes@[0],
        settings.alpha_mode == alpha_modes@[0],
        settings.desired_maximum_frame_latency == MAX_FRAME_LATENCY,
{
    SurfaceSettings {
        format: choose_format(formats),
        width,
        height,
        present_mode: present_modes[0],
        alpha_mode: alpha_modes[0],
        desired_maximum_frame_latency: MAX_FRAME_LATENCY,
    }
}

} // verus!
