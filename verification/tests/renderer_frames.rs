//! The renderer: construction, resize, and the frame protocol.

use scene_renderer::bits::Vec3Bits;
use scene_renderer::camera::{Camera, CameraUniform};
use scene_renderer::light::LightUniform;
use scene_renderer::mat4::Mat4;
use scene_renderer::model::{Material, Mesh, Model, ModelInstance, VertexFormat, VertexStepMode, ModelVertex};
use scene_renderer::renderer::{
    choose_surface_format, presentation_error_action, BindGroupRole, BlendMode, DrawCommand, Face,
    FrontFace, PolygonMode, PresentationAction, PrimitiveTopology, Renderer, SurfaceCaps,
    SurfaceError, SurfaceFormat,
};
use scene_renderer::scene::Scene;
use scene_renderer::texture::{CompareFunction, Texture, TextureFormat, TextureType};

fn caps() -> SurfaceCaps {
    SurfaceCaps {
        formats: vec![
            SurfaceFormat { id: 10, srgb: false },
            SurfaceFormat { id: 11, srgb: true },
            SurfaceFormat { id: 12, srgb: true },
        ],
        present_modes: vec![0, 1],
        alpha_modes: vec![7],
    }
}

fn test_camera() -> Camera {
    let zero = Vec3Bits { x: 0, y: 0, z: 0 };
    Camera::new(zero, zero, zero, 1.0f32.to_bits(), 45.0f32.to_bits(), 0.1f32.to_bits(), 100.0f32.to_bits())
}

fn one_triangle_scene() -> Scene {
    let mut s = Scene::new(LightUniform::new(), test_camera());
    let diffuse = Texture::from_images(&vec![(4, 4)], TextureType::Diffuse).unwrap();
    let normal = Texture::from_images(&vec![(4, 4)], TextureType::Normal).unwrap();
    s.add_material(Material::new("solid".to_string(), diffuse, normal));
    let idx = s.add_model(Model {
        meshes: vec![Mesh { name: "tri".to_string(), num_elements: 3, material: 0 }],
    });
    s.add_object(ModelInstance { model_index: idx, transform: Mat4::identity() });
    s
}

#[test]
fn surface_format_prefers_first_srgb() {
    let f = choose_surface_format(&caps().formats);
    assert_eq!(f, SurfaceFormat { id: 11, srgb: true });
}

#[test]
fn surface_format_falls_back_to_first() {
    let formats = vec![SurfaceFormat { id: 3, srgb: false }, SurfaceFormat { id: 4, srgb: false }];
    assert_eq!(choose_surface_format(&formats), SurfaceFormat { id: 3, srgb: false });
}

#[test]
fn new_renderer_configuration() {
    let r = Renderer::new(&caps(), 800, 600);
    assert!(!r.is_surface_configured);
    assert_eq!(r.config.width, 800);
    assert_eq!(r.config.height, 600);
    assert_eq!(r.config.format, SurfaceFormat { id: 11, srgb: true });
    assert_eq!(r.config.present_mode, 0);
    assert_eq!(r.config.alpha_mode, 7);
    assert_eq!(r.config.desired_maximum_frame_latency, 2);
    assert!(r.config.usage.render_attachment);
    assert_eq!(r.depth_texture.size.width, 800);
    assert_eq!(r.depth_texture.size.height, 600);
}

#[test]
fn new_renderer_layouts_and_pipeline() {
    let r = Renderer::new(&caps(), 800, 600);
    assert_eq!(r.texture_bind_group_layouts.diffuse.entries.len(), 2);
    assert_eq!(r.texture_bind_group_layouts.diffuse_normal.entries.len(), 4);
    for (i, e) in r.texture_bind_group_layouts.diffuse_normal.entries.iter().enumerate() {
        assert_eq!(e.binding, i as u32);
    }
    assert_eq!(r.camera_model_layout.entries.len(), 2);
    assert_eq!(r.simple_material_layout.entries.len(), 1);
    assert_eq!(r.light_layout.entries.len(), 1);

    let p = &r.render_pipeline;
    assert_eq!(
        p.layout,
        vec![
            BindGroupRole::MaterialTextures,
            BindGroupRole::CameraModel,
            BindGroupRole::MaterialParams,
            BindGroupRole::Light,
        ]
    );
    assert_eq!(p.topology, PrimitiveTopology::TriangleList);
    assert_eq!(p.front_face, FrontFace::Ccw);
    assert_eq!(p.cull_mode, Some(Face::Back));
    assert_eq!(p.polygon_mode, PolygonMode::Fill);
    assert_eq!(p.blend, BlendMode::Replace);
    assert_eq!(p.sample_count, 1);
    let ds = p.depth_stencil.as_ref().unwrap();
    assert_eq!(ds.format, TextureFormat::Depth32Float);
    assert!(ds.depth_write_enabled);
    assert_eq!(ds.depth_compare, CompareFunction::Less);
    assert_eq!(p.color_format, r.config.format);
}

#[test]
fn vertex_layout_offsets_and_stride() {
    let l = ModelVertex::desc();
    assert_eq!(l.array_stride, 48);
    assert_eq!(l.step_mode, VertexStepMode::Vertex);
    let offsets: Vec<u64> = l.attributes.iter().map(|a| a.offset).collect();
    assert_eq!(offsets, vec![0, 12, 20, 32]);
    let locations: Vec<u32> = l.attributes.iter().map(|a| a.shader_location).collect();
    assert_eq!(locations, vec![0, 1, 2, 3]);
    let formats: Vec<VertexFormat> = l.attributes.iter().map(|a| a.format).collect();
    assert_eq!(
        formats,
        vec![
            VertexFormat::Float32x3,
            VertexFormat::Float32x2,
            VertexFormat::Float32x3,
            VertexFormat::Float32x4,
        ]
    );
}

#[test]
fn initial_uniform_contents() {
    let r = Renderer::new(&caps(), 800, 600);
    assert_eq!(r.uniform_init.camera, Mat4::identity().to_bytes());
    assert_eq!(r.uniform_init.model, Mat4::identity().to_bytes());
    assert_eq!(r.uniform_init.simple_material.len(), 24);
    assert_eq!(r.uniform_init.light, LightUniform::new().to_bytes());
}

#[test]
fn zero_resize_is_rejected_without_reconfiguration() {
    let mut r = Renderer::new(&caps(), 800, 600);
    assert!(!r.resize(0, 600));
    assert!(!r.resize(800, 0));
    assert!(!r.resize(0, 0));
    assert!(!r.is_surface_configured);
    assert_eq!(r.config.width, 800);
    assert_eq!(r.config.height, 600);
}

#[test]
fn accepted_resize_reconfigures_and_rebuilds_depth() {
    let mut r = Renderer::new(&caps(), 800, 600);
    assert!(r.resize(400, 300));
    assert!(r.is_surface_configured);
    assert_eq!(r.config.width, 400);
    assert_eq!(r.config.height, 300);
    assert_eq!(r.depth_texture.size.width, 400);
    assert_eq!(r.depth_texture.size.height, 300);
    assert_eq!(r.depth_texture.format, TextureFormat::Depth32Float);
}

#[test]
fn unconfigured_frame_skips_the_pass_but_uploads_camera() {
    let r = Renderer::new(&caps(), 800, 600);
    let cu = CameraUniform::new();
    let s = one_triangle_scene();
    let plan = r.render(&cu, &s);
    assert!(plan.request_redraw);
    assert!(plan.pass.is_none());
    assert_eq!(plan.camera_upload, cu.to_bytes());
}

#[test]
fn frame_commands_walk_the_scene_in_order() {
    let mut r = Renderer::new(&caps(), 800, 600);
    r.update_size(800, 600);
    let cu = CameraUniform::new();
    let mut s = one_triangle_scene();
    // a second instance of the same model
    s.add_object(ModelInstance { model_index: 0, transform: Mat4::identity() });
    let plan = r.render(&cu, &s);
    let pass = plan.pass.unwrap();
    assert_eq!(pass.depth_clear, 1.0f32.to_bits());
    assert_eq!(pass.clear_color.r, 0.1f64.to_bits());
    assert_eq!(pass.clear_color.g, 0.2f64.to_bits());
    assert_eq!(pass.clear_color.b, 0.3f64.to_bits());
    assert_eq!(pass.clear_color.a, 1.0f64.to_bits());
    let expected = vec![
        DrawCommand::SetPipeline,
        DrawCommand::SetCameraModelBindGroup,
        DrawCommand::SetSimpleMaterialBindGroup,
        DrawCommand::SetLightBindGroup,
        DrawCommand::WriteModelTransform { object_index: 0 },
        DrawCommand::DrawMesh { model_index: 0, mesh_index: 0, material_index: 0, num_elements: 3 },
        DrawCommand::WriteModelTransform { object_index: 1 },
        DrawCommand::DrawMesh { model_index: 0, mesh_index: 0, material_index: 0, num_elements: 3 },
    ];
    assert_eq!(pass.commands, expected);
}

#[test]
fn shared_model_issues_one_draw_per_mesh_per_instance() {
    let mut r = Renderer::new(&caps(), 640, 480);
    r.update_size(640, 480);
    let cu = CameraUniform::new();
    let mut s = Scene::new(LightUniform::new(), test_camera());
    let diffuse = Texture::from_images(&vec![(4, 4)], TextureType::Diffuse).unwrap();
    let normal = Texture::from_images(&vec![(4, 4)], TextureType::Normal).unwrap();
    s.add_material(Material::new("m".to_string(), diffuse, normal));
    let idx = s.add_model(Model {
        meshes: vec![
            Mesh { name: "a".to_string(), num_elements: 6, material: 0 },
            Mesh { name: "b".to_string(), num_elements: 9, material: 0 },
        ],
    });
    let n = 5;
    for _ in 0..n {
        s.add_object(ModelInstance { model_index: idx, transform: Mat4::identity() });
    }
    let plan = r.render(&cu, &s);
    let cmds = plan.pass.unwrap().commands;
    let uploads = cmds.iter().filter(|c| matches!(c, DrawCommand::WriteModelTransform { .. })).count();
    let draws = cmds.iter().filter(|c| matches!(c, DrawCommand::DrawMesh { .. })).count();
    assert_eq!(uploads, n);
    assert_eq!(draws, n * 2);
    // each upload is immediately followed by that instance's draws
    for (pos, c) in cmds.iter().enumerate() {
        if let DrawCommand::WriteModelTransform { object_index } = c {
            assert!(matches!(cmds[pos + 1], DrawCommand::DrawMesh { .. }));
            assert_eq!(*object_index, (pos - 4) / 3);
        }
    }
}

#[test]
fn presentation_errors_follow_the_recovery_policy() {
    assert_eq!(presentation_error_action(SurfaceError::Lost), PresentationAction::Reconfigure);
    assert_eq!(presentation_error_action(SurfaceError::Outdated), PresentationAction::Reconfigure);
    assert_eq!(presentation_error_action(SurfaceError::Timeout), PresentationAction::SkipFrame);
    assert_eq!(presentation_error_action(SurfaceError::OutOfMemory), PresentationAction::Fail);
    assert_eq!(presentation_error_action(SurfaceError::Other), PresentationAction::Fail);
}

#[test]
fn update_light_encodes_the_light() {
    let r = Renderer::new(&caps(), 800, 600);
    let l = LightUniform::new();
    assert_eq!(r.update_light(&l), l.to_bytes());
}

#[test]
fn startup_resize_render_scenario() {
    // construct against an 800x600 surface, draw one triangle with an
    // identity transform, then shrink to 400x300
    let mut r = Renderer::new(&caps(), 800, 600);
    r.update_size(800, 600);
    let s = one_triangle_scene();
    let cu = CameraUniform::new();
    let plan = r.render(&cu, &s);
    let pass = plan.pass.expect("configured surface must present");
    assert_eq!(
        pass.commands[4],
        DrawCommand::WriteModelTransform { object_index: 0 }
    );
    assert_eq!(
        pass.commands[5],
        DrawCommand::DrawMesh { model_index: 0, mesh_index: 0, material_index: 0, num_elements: 3 }
    );
    assert!(r.resize(400, 300));
    assert_eq!(r.depth_texture.size.width, 400);
    assert_eq!(r.depth_texture.size.height, 300);
    let plan2 = r.render(&cu, &s);
    assert!(plan2.pass.is_some());
}
