//! The size a presentable surface is configured with.

use vstd::prelude::*;

verus! {

/// A width and a height in physical pixels.
#[derive(Clone, Copy, Debug, PartialEq, Eq, Structural)]
pub struct Extent {
    pub width: u32,
    pub height: u32,
}

impl Extent {
    /// A surface can be configured with this size: neither side is zero.
    pub open spec fn configurable(self) -> bool {
        self.width > 0 && self.height > 0
    }

    /// Whether a surface can be configured with this size.
    pub fn is_configurable(&self) -> (yes: bool)
        ensures
            yes == self.configurable(),
    {
        self.width > 0 && self.height > 0
    }
}

/// The size after a resize request: the requested size where a surface can
/// be configured with it, the current size otherwise.
pub open spec fn resized(current: Extent, requested: Extent) -> Extent {
    if requested.configurable() {
        requested
    } else {
        current
    }
}

/// Picks the format of the surface among those it supports, given for each
/// whether it is an sRGB format: the first sRGB format, or the very first
/// format where none is sRGB.
pub fn select_format(srgb: &[bool]) -> (index: usize)
    requires
        srgb@.len() > 0,
    ensures
        index < srgb@.len(),
        forall|i: int| 0 <= i < index ==> !srgb@[i],
        srgb@[index as int] || (index == 0 && forall|i: int| 0 <= i < srgb@.len() ==> !srgb@[i]),
{
    let mut i: usize = 0;
    while i < srgb.len()
        invariant
            i <= srgb@.len(),
            forall|k: int| 0 <= k < i ==> !srgb@[k],
        decreases srgb@.len() - i,
    {
        if srgb[i] {
            return i;
        }
        i = i + 1;
    }
    0
}

/// `wgpu::AstcBlock`, the block size of an ASTC format, with its variants
/// as the crate defines them.
#[verifier::external_type_specification]
pub struct ExAstcBlock(wgpu::AstcBlock);

/// `wgpu::AstcChannel`, the channel kind of an ASTC format, with its
/// variants as the crate defines them.
#[verifier::external_type_specification]
pub struct ExAstcChannel(wgpu::AstcChannel);

/// `wgpu::TextureFormat`, the format of the pixels of a surface or a
/// texture, with its variants as the crate defines them.
#[verifier::external_type_specification]
pub struct ExTextureFormat(wgpu::TextureFormat);

/// The format holds sRGB colour, which is converted to and from linear
/// colour in the shader: the formats whose names end in `Srgb`, and the ASTC
/// formats of the sRGB channel kind.
pub open spec fn srgb(format: wgpu::TextureFormat) -> bool {
    match format {
        wgpu::TextureFormat::Rgba8UnormSrgb => true,
        wgpu::TextureFormat::Bgra8UnormSrgb => true,
        wgpu::TextureFormat::Bc1RgbaUnormSrgb => true,
        wgpu::TextureFormat::Bc2RgbaUnormSrgb => true,
        wgpu::TextureFormat::Bc3RgbaUnormSrgb => true,
        wgpu::TextureFormat::Bc7RgbaUnormSrgb => true,
        wgpu::TextureFormat::Etc2Rgb8UnormSrgb => true,
        wgpu::TextureFormat::Etc2Rgb8A1UnormSrgb => true,
        wgpu::TextureFormat::Etc2Rgba8UnormSrgb => true,
        wgpu::TextureFormat::Astc { block, channel } => channel == wgpu::AstcChannel::UnormSrgb,
        _ => false,
    }
}

/// `wgpu::TextureFormat::describe`, of which the flag `srgb` is handed on.
/// The table in `describe` marks as colour-corrected exactly the nine
/// formats named `..Srgb` and the ASTC formats of channel `UnormSrgb`, and
/// sets `srgb` for those alone; the documentation of each variant says the
/// same.
#[verifier::external_body]
fn is_srgb(format: &wgpu::TextureFormat) -> (flag: bool)
    ensures
        flag == srgb(*format),
{
    format.describe().srgb
}

/// Picks the format of the surface among those it supports: the place of
/// the first sRGB format, or of the very first format where none is sRGB.
pub fn select_surface_format(formats: &[wgpu::TextureFormat]) -> (index: usize)
    requires
        formats@.len() > 0,
    ensures
        index < formats@.len(),
        forall|i: int| 0 <= i < index ==> !srgb(#[trigger] formats@[i]),
        srgb(formats@[index as int]) || (index == 0 && forall|i: int|
            0 <= i < formats@.len() ==> !srgb(#[trigger] formats@[i])),
{
    let mut flags: Vec<bool> = Vec::new();
    let mut i: usize = 0;
    while i < formats.len()
        invariant
            i <= formats@.len(),
            flags@.len() == i,
            forall|k: int| 0 <= k < i ==> flags@[k] == srgb(#[trigger] formats@[k]),
        decreases formats@.len() - i,
    {
        flags.push(is_srgb(&formats[i]));
        i = i + 1;
    }
    select_format(flags.as_slice())
}

/// The size the surface was last configured with. Neither side is ever zero.
pub struct SurfaceState {
    width: u32,
    height: u32,
}

impl View for SurfaceState {
    type V = Extent;

    closed spec fn view(&self) -> Extent {
        Extent { width: self.width, height: self.height }
    }
}

impl SurfaceState {
    #[verifier::type_invariant]
    spec fn configured(&self) -> bool {
        self.width > 0 && self.height > 0
    }

    /// The state of a surface configured with the window's first size.
    pub fn new(width: u32, height: u32) -> (state: Self)
        requires
            width > 0,
            height > 0,
        ensures
            state@ == (Extent { width, height }),
    {
        SurfaceState { width, height }
    }

    /// The configured size.
    pub fn size(&self) -> (size: Extent)
        ensures
            size == self@,
            size.configurable(),
    {
        proof {
            use_type_invariant(self);
        }
        Extent { width: self.width, height: self.height }
    }

    /// Takes a new window size. A size with a zero side is ignored; any other
    /// is stored, and the surface is to be configured with it.
    pub fn on_resize(&mut self, width: u32, height: u32) -> (reconfigure: bool)
        ensures
            final(self)@ == resized(old(self)@, Extent { width, height }),
            final(self)@.configurable(),
            reconfigure == (width > 0 && height > 0),
        no_unwind
    {
        proof {
            use_type_invariant(&*self);
        }
        if width > 0 && height > 0 {
            self.width = width;
            self.height = height;
            true
        } else {
            false
        }
    }
}

} // verus!
