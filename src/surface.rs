use vstd::prelude::*;

verus! {

#[verifier::external_type_specification]
#[verifier::external_body]
pub struct ExTextureFormat(wgpu::TextureFormat);

/// Relies on wgpu's `TextureFormat::is_srgb`, which tells whether a format
/// stores color sRGB-encoded. Nothing is stated of its answer.
pub assume_specification[ wgpu::TextureFormat::is_srgb ](f: &wgpu::TextureFormat) -> bool;

/// Index of the format to configure a surface with, given which of the
/// offered formats are sRGB: the first sRGB one, or the first of all where
/// none is; `None` where nothing is offered.
pub fn pick_format_index(srgb: &Vec<bool>) -> (r: Option<usize>)
    ensures
        r is None <==> srgb@.len() == 0,
        r matches Some(i) ==> i < srgb@.len() && ({
            ||| srgb@[i as int] && forall|j: int| 0 <= j < i ==> !srgb@[j]
            ||| i == 0 && forall|j: int| 0 <= j < srgb@.len() ==> !srgb@[j]
        }),
{
    if srgb.len() == 0 {
        return None;
    }
    let mut i: usize = 0;
    while i < srgb.len()
        invariant
            i <= srgb@.len(),
            forall|j: int| 0 <= j < i ==> !srgb@[j],
        decreases srgb@.len() - i,
    {
        if srgb[i] {
            return Some(i);
        }
        i = i + 1;
    }
    Some(0)
}

/// The format to configure the surface with, out of those it offers: the
/// first sRGB format, or else the first one; `None` where none is offered.
pub fn choose_surface_format(formats: &Vec<wgpu::TextureFormat>) -> (r: Option<wgpu::TextureFormat>)
    ensures
        r is None <==> formats@.len() == 0,
        r matches Some(f) ==> exists|i: int| 0 <= i < formats@.len() && formats@[i] == f,
{
    let mut srgb: Vec<bool> = Vec::new();
    let mut i: usize = 0;
    while i < formats.len()
        invariant
            i <= formats@.len(),
            srgb@.len() == i,
        decreases formats@.len() - i,
    {
        srgb.push(formats[i].is_srgb());
        i = i + 1;
    }
    match pick_format_index(&srgb) {
        Some(k) => Some(formats[k]),
        None => None,
    }
}

} // verus!
