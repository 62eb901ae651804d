//! Surface settings and the choice of a surface format.

use vstd::prelude::*;

verus! {

/// wgpu's texture format, carried through unread.
#[verifier::external_type_specification]
#[verifier::external_body]
pub struct ExTextureFormat(wgpu::TextureFormat);

/// wgpu's present mode, carried through unread.
#[verifier::external_type_specification]
#[verifier::external_body]
pub struct ExPresentMode(wgpu::PresentMode);

/// wgpu's alpha compositing mode, carried through unread.
#[verifier::external_type_specification]
#[verifier::external_body]
pub struct ExCompositeAlphaMode(wgpu::CompositeAlphaMode);

/// Whether wgpu counts a texture format as sRGB.
pub uninterp spec fn srgb_format(f: wgpu::TextureFormat) -> bool;

/// Relies on wgpu::TextureFormat::is_srgb, whose answer depends on the format alone.
pub assume_specification[ wgpu::TextureFormat::is_srgb ](f: &wgpu::TextureFormat) -> (r: bool)
    ensures
        r == srgb_format(*f),
;

/// The most frames that may be queued for presentation ahead of the display.
pub const MAX_FRAME_LATENCY: u32 = 2;

/// What the surface is configured with.
#[derive(Clone, Copy, Debug, PartialEq, Eq)]
pub struct SurfaceSettings {
    pub format: wgpu::TextureFormat,
    pub width: u32,
    pub height: u32,
    pub present_mode: wgpu::PresentMode,
    pub alpha_mode: wgpu::CompositeAlphaMode,
    pub max_frame_latency: u32,
}

/// The first position that holds `true`, searching from `i`.
pub open spec fn first_true_from(flags: Seq<bool>, i: int) -> Option<int>
    decreases flags.len() - i,
{
    if i < 0 || i >= flags.len() {
        None
    } else if flags[i] {
        Some(i)
    } else {
        first_true_from(flags, i + 1)
    }
}

/// The position of the preferred entry: the first flagged one, or else the
/// first one; none for an empty sequence.
pub open spec fn preferred_position(flags: Seq<bool>) -> Option<int> {
    if flags.len() == 0 {
        None
    } else {
        match first_true_from(flags, 0) {
            Some(i) => Some(i),
            None => Some(0),
        }
    }
}

/// The sRGB flag of each format.
pub open spec fn srgb_flags(formats: Seq<wgpu::TextureFormat>) -> Seq<bool> {
    formats.map_values(|f: wgpu::TextureFormat| srgb_format(f))
}

/// The first sRGB format, or else the first format.
pub open spec fn preferred_format(formats: Seq<wgpu::TextureFormat>) -> Option<wgpu::TextureFormat> {
    match preferred_position(srgb_flags(formats)) {
        Some(i) => Some(formats[i]),
        None => None,
    }
}

proof fn lemma_first_true_in_range(flags: Seq<bool>, i: int)
    requires
        0 <= i,
    ensures
        first_true_from(flags, i) matches Some(j) ==> i <= j < flags.len() && flags[j],
        first_true_from(flags, i) is None ==> forall|k: int| i <= k < flags.len() ==> !flags[k],
    decreases flags.len() - i,
{
    if i < flags.len() && !flags[i] {
        lemma_first_true_in_range(flags, i + 1);
    }
}

/// Picks the preferred entry of a list of flags: the first `true`, or else
/// the first entry. `None` only for an empty list.
pub fn preferred_index(flags: &Vec<bool>) -> (r: Option<usize>)
    ensures
        r matches Some(i) ==> i < flags@.len() && preferred_position(flags@) == Some(i as int),
        r is None <==> preferred_position(flags@) is None,
        r is None <==> flags@.len() == 0,
{
    if flags.len() == 0 {
        return None;
    }
    let mut i: usize = 0;
    while i < flags.len()
        invariant
            0 <= i <= flags@.len(),
            first_true_from(flags@, 0) == first_true_from(flags@, i as int),
        decreases flags@.len() - i,
    {
        if flags[i] {
            return Some(i);
        }
        i = i + 1;
    }
    proof {
        lemma_first_true_in_range(flags@, 0);
    }
    Some(0)
}

/// The first sRGB format of the list, or else its first format.
pub fn choose_surface_format(formats: &Vec<wgpu::TextureFormat>) -> (r: Option<wgpu::TextureFormat>)
    ensures
        r == preferred_format(formats@),
        r is None <==> formats@.len() == 0,
{
    let mut flags: Vec<bool> = Vec::new();
    let mut i: usize = 0;
    while i < formats.len()
        invariant
            0 <= i <= formats@.len(),
            flags@ == srgb_flags(formats@.subrange(0, i as int)),
        decreases formats@.len() - i,
    {
        let srgb = formats[i].is_srgb();
        flags.push(srgb);
        assert(formats@.subrange(0, i + 1) == formats@.subrange(0, i as int).push(formats@[i as int]));
        i = i + 1;
    }
    assert(formats@.subrange(0, formats@.len() as int) == formats@);
    match preferred_index(&flags) {
        Some(j) => Some(formats[j]),
        None => None,
    }
}

} // verus!
