//! Texture descriptions: formats, samplers, layer layout, and uploads.
//!
//! A `Texture` here is the complete, checked description of a GPU image:
//! its extent, format, view dimension, sampler settings, and the per-layer
//! upload layout.  Color data uses an sRGB-decoded format; normal maps use
//! a linear format, which is required for physically correct normal
//! vectors.  A cubemap needs exactly six faces, supplied in a fixed face
//! order, and layer `i` of a multi-image upload writes to array layer `i`.

use vstd::prelude::*;
use crate::bits::{F32_HUNDRED_BITS, F32_THIRTY_TWO_BITS, F32_ZERO_BITS};

verus! {

/// What a texture is used for; decides its format and view dimension.
#[derive(Clone, Copy, PartialEq, Eq, Structural, Debug)]
pub enum TextureType {
    Diffuse,
    Normal,
    Cubemap,
}

/// The pixel formats the renderer uses.
#[derive(Clone, Copy, PartialEq, Eq, Structural, Debug)]
pub enum TextureFormat {
    Rgba8Unorm,
    Rgba8UnormSrgb,
    Depth32Float,
}

/// How a shader views the image.
#[derive(Clone, Copy, PartialEq, Eq, Structural, Debug)]
pub enum TextureViewDimension {
    D2,
    Cube,
}

/// Sampler addressing outside the unit square.
#[derive(Clone, Copy, PartialEq, Eq, Structural, Debug)]
pub enum AddressMode {
    ClampToEdge,
}

/// Sampler filtering.
#[derive(Clone, Copy, PartialEq, Eq, Structural, Debug)]
pub enum FilterMode {
    Nearest,
    Linear,
}

/// Depth comparison functions.
#[derive(Clone, Copy, PartialEq, Eq, Structural, Debug)]
pub enum CompareFunction {
    Less,
    LessEqual,
}

/// Width, height and array layer count of an image resource.
#[derive(Clone, Copy, PartialEq, Eq, Structural, Debug)]
pub struct Extent3d {
    pub width: u32,
    pub height: u32,
    pub depth_or_array_layers: u32,
}

/// The usage flags a texture is created with.
#[derive(Clone, Copy, PartialEq, Eq, Structural, Debug)]
pub struct TextureUsages {
    pub texture_binding: bool,
    pub copy_dst: bool,
    pub render_attachment: bool,
}

/// A complete sampler description.  Level-of-detail clamps are
/// single-precision bit patterns.
#[derive(Clone, Copy, PartialEq, Eq, Structural, Debug)]
pub struct SamplerDesc {
    pub address_mode_u: AddressMode,
    pub address_mode_v: AddressMode,
    pub address_mode_w: AddressMode,
    pub mag_filter: FilterMode,
    pub min_filter: FilterMode,
    pub mipmap_filter: FilterMode,
    pub compare: Option<CompareFunction>,
    pub lod_min_clamp: u32,
    pub lod_max_clamp: u32,
}

/// One queued copy of pixel data into an array layer.
#[derive(Clone, Copy, PartialEq, Eq, Structural, Debug)]
pub struct UploadDesc {
    pub layer: u32,
    pub bytes_per_row: u32,
    pub rows_per_image: u32,
}

/// Why a texture description was rejected.
#[derive(Clone, Copy, PartialEq, Eq, Structural, Debug)]
pub enum TextureError {
    /// No image data was supplied at all.
    NoImages,
    /// The number of images does not fit the texture type: a cubemap
    /// needs exactly six faces, anything else exactly one image.
    LayerCountMismatch { expected: u32, got: usize },
}

/// The checked description of a GPU image: extent, format, view, sampler,
/// and the uploads that fill it.
#[derive(Clone, PartialEq, Eq, Debug)]
pub struct Texture {
    pub size: Extent3d,
    pub mip_level_count: u32,
    pub sample_count: u32,
    pub format: TextureFormat,
    pub usage: TextureUsages,
    pub view_dimension: TextureViewDimension,
    pub sampler: SamplerDesc,
    pub uploads: Vec<UploadDesc>,
}

/// Normal maps are stored linearly; every other image is sRGB-decoded.
pub open spec fn spec_format_for(ty: TextureType) -> TextureFormat {
    match ty {
        TextureType::Normal => TextureFormat::Rgba8Unorm,
        _ => TextureFormat::Rgba8UnormSrgb,
    }
}

/// A cubemap has six array layers; everything else has one.
pub open spec fn spec_layer_count(ty: TextureType) -> u32 {
    match ty {
        TextureType::Cubemap => 6,
        _ => 1,
    }
}

/// A cubemap is viewed as a cube, everything else as a plain 2D image.
pub open spec fn spec_view_dimension(ty: TextureType) -> TextureViewDimension {
    match ty {
        TextureType::Cubemap => TextureViewDimension::Cube,
        _ => TextureViewDimension::D2,
    }
}

/// The sampler every color texture gets: clamp to edge on all axes,
/// linear magnification, default level-of-detail range.
pub open spec fn spec_image_sampler() -> SamplerDesc {
    SamplerDesc {
        address_mode_u: AddressMode::ClampToEdge,
        address_mode_v: AddressMode::ClampToEdge,
        address_mode_w: AddressMode::ClampToEdge,
        mag_filter: FilterMode::Linear,
        min_filter: FilterMode::Nearest,
        mipmap_filter: FilterMode::Nearest,
        compare: None,
        lod_min_clamp: F32_ZERO_BITS,
        lod_max_clamp: F32_THIRTY_TWO_BITS,
    }
}

/// The stricter depth sampler: linear minification and a less-or-equal
/// depth comparison, with the level of detail clamped to `[0, 100]`.
pub open spec fn spec_depth_sampler() -> SamplerDesc {
    SamplerDesc {
        address_mode_u: AddressMode::ClampToEdge,
        address_mode_v: AddressMode::ClampToEdge,
        address_mode_w: AddressMode::ClampToEdge,
        mag_filter: FilterMode::Linear,
        min_filter: FilterMode::Linear,
        mipmap_filter: FilterMode::Nearest,
        compare: Some(CompareFunction::LessEqual),
        lod_min_clamp: F32_ZERO_BITS,
        lod_max_clamp: F32_HUNDRED_BITS,
    }
}

/// `t` is the depth attachment for a surface of the given size: a
/// single-layer, single-mip 32-bit float depth texture, clamped to at
/// least 1x1, usable as render attachment and sampled texture, with the
/// stricter depth sampler.
pub open spec fn spec_is_depth_texture(t: Texture, width: u32, height: u32) -> bool {
    &&& t.size == (Extent3d {
        width: if width == 0 { 1u32 } else { width },
        height: if height == 0 { 1u32 } else { height },
        depth_or_array_layers: 1u32,
    })
    &&& t.mip_level_count == 1
    &&& t.sample_count == 1
    &&& t.format == TextureFormat::Depth32Float
    &&& t.usage == (TextureUsages { texture_binding: true, copy_dst: false, render_attachment: true })
    &&& t.view_dimension == TextureViewDimension::D2
    &&& t.sampler == spec_depth_sampler()
    &&& t.uploads@.len() == 0
}

impl Texture {
    /// Describes a texture built from decoded images, given as the
    /// `(width, height)` of each image in layer order.
    ///
    /// Fails when no image is supplied, or when the image count does not
    /// fit the texture type: a cubemap takes exactly six faces, any other
    /// type exactly one image.  On success, layer `i` is filled from
    /// image `i`, rows packed four bytes per pixel at the first image's
    /// dimensions.
    pub fn from_images(dims: &Vec<(u32, u32)>, ty: TextureType) -> (r: Result<
        Texture,
        TextureError,
    >)
        requires
            dims@.len() > 0 ==> dims@[0].0 < 0x4000_0000,
        ensures
            r is Ok <==> dims@.len() == spec_layer_count(ty),
            dims@.len() == 0 ==> r == Err::<Texture, TextureError>(TextureError::NoImages),
            dims@.len() != 0 && dims@.len() != spec_layer_count(ty) ==> r == Err::<
                Texture,
                TextureError,
            >(
                TextureError::LayerCountMismatch {
                    expected: spec_layer_count(ty),
                    got: dims@.len() as usize,
                },
            ),
            r matches Ok(t) ==> {
                &&& t.size == (Extent3d {
                    width: dims@[0].0,
                    height: dims@[0].1,
                    depth_or_array_layers: spec_layer_count(ty),
                })
                &&& t.mip_level_count == 1
                &&& t.sample_count == 1
                &&& t.format == spec_format_for(ty)
                &&& t.usage == (TextureUsages {
                    texture_binding: true,
                    copy_dst: true,
                    render_attachment: true,
                })
                &&& t.view_dimension == spec_view_dimension(ty)
                &&& t.sampler == spec_image_sampler()
                &&& t.uploads@.len() == dims@.len()
                &&& forall|i: int|
                    0 <= i < dims@.len() ==> t.uploads@[i] == (UploadDesc {
                        layer: i as u32,
                        bytes_per_row: (4 * dims@[0].0) as u32,
                        rows_per_image: dims@[0].1,
                    })
            },
    {
        if dims.len() == 0 {
            return Err(TextureError::NoImages);
        }
        let expected: u32 = match ty {
            TextureType::Cubemap => 6,
            _ => 1,
        };
        if dims.len() != expected as usize {
            return Err(TextureError::LayerCountMismatch { expected, got: dims.len() });
        }
        let (width, height) = (dims[0].0, dims[0].1);
        let format = match ty {
            TextureType::Normal => TextureFormat::Rgba8Unorm,
            _ => TextureFormat::Rgba8UnormSrgb,
        };
        let view_dimension = match ty {
            TextureType::Cubemap => TextureViewDimension::Cube,
            _ => TextureViewDimension::D2,
        };
        let mut uploads: Vec<UploadDesc> = Vec::new();
        let mut i: usize = 0;
        while i < dims.len()
            invariant
                i <= dims@.len(),
                dims@.len() <= 6,
                width == dims@[0].0,
                height == dims@[0].1,
                width < 0x4000_0000,
                uploads@.len() == i,
                forall|j: int|
                    0 <= j < i ==> uploads@[j] == (UploadDesc {
                        layer: j as u32,
                        bytes_per_row: (4 * dims@[0].0) as u32,
                        rows_per_image: dims@[0].1,
                    }),
            decreases dims@.len() - i,
        {
            uploads.push(
                UploadDesc { layer: i as u32, bytes_per_row: 4 * width, rows_per_image: height },
            );
            i += 1;
        }
        Ok(
            Texture {
                size: Extent3d { width, height, depth_or_array_layers: expected },
                mip_level_count: 1,
                sample_count: 1,
                format,
                usage: TextureUsages { texture_binding: true, copy_dst: true, render_attachment: true },
                view_dimension,
                sampler: SamplerDesc {
                    address_mode_u: AddressMode::ClampToEdge,
                    address_mode_v: AddressMode::ClampToEdge,
                    address_mode_w: AddressMode::ClampToEdge,
                    mag_filter: FilterMode::Linear,
                    min_filter: FilterMode::Nearest,
                    mipmap_filter: FilterMode::Nearest,
                    compare: None,
                    lod_min_clamp: F32_ZERO_BITS,
                    lod_max_clamp: F32_THIRTY_TWO_BITS,
                },
                uploads,
            },
        )
    }

    /// Describes the depth attachment for a surface of the given size.
    /// The extent is clamped to at least 1x1 so the resource is never
    /// zero-sized; the texture is both a render attachment and sampleable.
    pub fn create_depth_texture(width: u32, height: u32) -> (t: Texture)
        ensures
            spec_is_depth_texture(t, width, height),
    {
        Texture {
            size: Extent3d {
                width: if width == 0 { 1 } else { width },
                height: if height == 0 { 1 } else { height },
                depth_or_array_layers: 1,
            },
            mip_level_count: 1,
            sample_count: 1,
            format: TextureFormat::Depth32Float,
            usage: TextureUsages { texture_binding: true, copy_dst: false, render_attachment: true },
            view_dimension: TextureViewDimension::D2,
            sampler: SamplerDesc {
                address_mode_u: AddressMode::ClampToEdge,
                address_mode_v: AddressMode::ClampToEdge,
                address_mode_w: AddressMode::ClampToEdge,
                mag_filter: FilterMode::Linear,
                min_filter: FilterMode::Linear,
                mipmap_filter: FilterMode::Nearest,
                compare: Some(CompareFunction::LessEqual),
                lod_min_clamp: F32_ZERO_BITS,
                lod_max_clamp: F32_HUNDRED_BITS,
            },
            uploads: Vec::new(),
        }
    }
}

} // verus!
