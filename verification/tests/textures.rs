//! Texture descriptions: formats, cubemap validation, depth target.

use scene_renderer::texture::{
    AddressMode, CompareFunction, FilterMode, Texture, TextureError, TextureFormat, TextureType,
    TextureViewDimension,
};

#[test]
fn diffuse_texture_is_srgb() {
    let t = Texture::from_images(&vec![(16, 8)], TextureType::Diffuse).unwrap();
    assert_eq!(t.format, TextureFormat::Rgba8UnormSrgb);
    assert_eq!(t.size.width, 16);
    assert_eq!(t.size.height, 8);
    assert_eq!(t.size.depth_or_array_layers, 1);
    assert_eq!(t.view_dimension, TextureViewDimension::D2);
    assert_eq!(t.mip_level_count, 1);
    assert_eq!(t.sample_count, 1);
}

#[test]
fn normal_map_texture_is_linear() {
    let t = Texture::from_images(&vec![(4, 4)], TextureType::Normal).unwrap();
    assert_eq!(t.format, TextureFormat::Rgba8Unorm);
}

#[test]
fn uploads_target_successive_layers() {
    let dims = vec![(8, 8); 6];
    let t = Texture::from_images(&dims, TextureType::Cubemap).unwrap();
    assert_eq!(t.uploads.len(), 6);
    for (i, u) in t.uploads.iter().enumerate() {
        assert_eq!(u.layer, i as u32);
        assert_eq!(u.bytes_per_row, 4 * 8);
        assert_eq!(u.rows_per_image, 8);
    }
}

#[test]
fn cubemap_needs_exactly_six_faces() {
    let five = vec![(8, 8); 5];
    let r = Texture::from_images(&five, TextureType::Cubemap);
    assert_eq!(r.unwrap_err(), TextureError::LayerCountMismatch { expected: 6, got: 5 });

    let seven = vec![(8, 8); 7];
    let r = Texture::from_images(&seven, TextureType::Cubemap);
    assert_eq!(r.unwrap_err(), TextureError::LayerCountMismatch { expected: 6, got: 7 });

    let six = vec![(8, 8); 6];
    let t = Texture::from_images(&six, TextureType::Cubemap).unwrap();
    assert_eq!(t.size.depth_or_array_layers, 6);
    assert_eq!(t.view_dimension, TextureViewDimension::Cube);
}

#[test]
fn no_images_is_rejected() {
    let r = Texture::from_images(&vec![], TextureType::Diffuse);
    assert_eq!(r.unwrap_err(), TextureError::NoImages);
}

#[test]
fn plain_texture_takes_one_image_only() {
    let two = vec![(8, 8); 2];
    let r = Texture::from_images(&two, TextureType::Diffuse);
    assert_eq!(r.unwrap_err(), TextureError::LayerCountMismatch { expected: 1, got: 2 });
}

#[test]
fn image_sampler_settings() {
    let t = Texture::from_images(&vec![(4, 4)], TextureType::Diffuse).unwrap();
    assert_eq!(t.sampler.address_mode_u, AddressMode::ClampToEdge);
    assert_eq!(t.sampler.address_mode_v, AddressMode::ClampToEdge);
    assert_eq!(t.sampler.address_mode_w, AddressMode::ClampToEdge);
    assert_eq!(t.sampler.mag_filter, FilterMode::Linear);
    assert_eq!(t.sampler.min_filter, FilterMode::Nearest);
    assert_eq!(t.sampler.compare, None);
}

#[test]
fn depth_texture_matches_surface_size() {
    let t = Texture::create_depth_texture(800, 600);
    assert_eq!(t.size.width, 800);
    assert_eq!(t.size.height, 600);
    assert_eq!(t.size.depth_or_array_layers, 1);
    assert_eq!(t.format, TextureFormat::Depth32Float);
    assert!(t.usage.render_attachment);
    assert!(t.usage.texture_binding);
    assert!(t.uploads.is_empty());
}

#[test]
fn depth_texture_is_never_zero_sized() {
    let t = Texture::create_depth_texture(0, 0);
    assert_eq!(t.size.width, 1);
    assert_eq!(t.size.height, 1);
}

#[test]
fn depth_sampler_compares_less_equal_with_lod_cap() {
    let t = Texture::create_depth_texture(64, 64);
    assert_eq!(t.sampler.compare, Some(CompareFunction::LessEqual));
    assert_eq!(t.sampler.min_filter, FilterMode::Linear);
    assert_eq!(t.sampler.mag_filter, FilterMode::Linear);
    assert_eq!(t.sampler.lod_min_clamp, 0.0f32.to_bits());
    assert_eq!(t.sampler.lod_max_clamp, 100.0f32.to_bits());
}
