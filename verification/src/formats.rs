//! Choosing the surface format: out of the formats the surface supports,
//! the first sRGB-capable one is preferred, falling back to the first
//! supported format when none is.

use vstd::prelude::*;

verus! {

/// Declares wgpu's texture-format enum so that verified code can hold and
/// pass such values; the library treats them as opaque and asks wgpu
/// which ones are sRGB.
#[verifier::external_type_specification]
#[verifier::external_body]
pub struct ExTextureFormat(wgpu::TextureFormat);

/// Whether a texture format is one of the sRGB formats; a function of the
/// format value alone.
pub uninterp spec fn format_is_srgb(f: wgpu::TextureFormat) -> bool;

/// Relies on wgpu::TextureFormat::is_srgb: returns true exactly for the
/// sRGB formats, depending on the format value alone.
pub assume_specification[ wgpu::TextureFormat::is_srgb ](f: &wgpu::TextureFormat) -> (r: bool)
    ensures
        r == format_is_srgb(*f),
;

/// Position of the format the surface will be configured with: the first
/// sRGB-capable entry of the supported formats, or the first entry when
/// none is sRGB-capable.
pub fn select_surface_format_index(formats: &Vec<wgpu::TextureFormat>) -> (i: usize)
    requires
        formats@.len() > 0,
    ensures
        i < formats@.len(),
        (exists|j: int| 0 <= j < formats@.len() && format_is_srgb(formats@[j])) ==> {
            &&& format_is_srgb(formats@[i as int])
            &&& forall|j: int| 0 <= j < i ==> !format_is_srgb(formats@[j])
        },
        !(exists|j: int| 0 <= j < formats@.len() && format_is_srgb(formats@[j])) ==> i == 0,
{
    let n: usize = formats.len();
    let mut k: usize = 0;
    while k < n
        invariant
            k <= n,
            n == formats@.len(),
            forall|j: int| 0 <= j < k ==> !format_is_srgb(formats@[j]),
        decreases n - k,
    {
        if formats[k].is_srgb() {
            return k;
        }
        k = k + 1;
    }
    0
}

} // verus!
