//! The renderer: surface configuration, pipeline wiring, and the
//! per-frame protocol.
//!
//! Construction chooses the surface format (the first sRGB variant the
//! adapter lists, else the first format), configures the surface for
//! render-attachment use with the adapter's first present and alpha
//! modes, builds the bind-group layouts and the single depth-tested
//! pipeline, and fixes the initial contents of every uniform buffer.
//!
//! A frame is described by a [`FramePlan`]: the camera upload that
//! happens every frame, and — once the surface is configured — one
//! render pass that clears to the fixed background, then walks the scene
//! in insertion order, uploading each instance's transform immediately
//! before that instance's draws.  The model-transform buffer is shared
//! and singular, so upload and draws for one instance must stay adjacent
//! and ordered; the plan's command order makes that explicit.

use vstd::prelude::*;
use crate::bits::{
    F32_ONE_BITS, F64_FIFTH_BITS, F64_ONE_BITS, F64_TENTH_BITS, F64_THREE_TENTHS_BITS,
};
use crate::camera::CameraUniform;
use crate::light::{spec_default_light, LightUniform};
use crate::mat4::{spec_identity_words, words_to_bytes};
use crate::model::{
    spec_default_simple_material, spec_sampler_entry, spec_texture_entry, spec_uniform_entry,
    BindGroupLayout, BindGroupLayoutEntry, BindingType, MaterialType, ModelVertex, ShaderStages,
    SimpleMaterial, TextureBindGroupLayouts, VertexBufferLayout,
};
use crate::scene::Scene;
use crate::texture::{spec_is_depth_texture, CompareFunction, Texture, TextureFormat, TextureUsages};

verus! {

/// A surface format as the adapter lists it: an opaque host-assigned
/// identifier plus whether the format is an sRGB variant.
#[derive(Clone, Copy, PartialEq, Eq, Structural, Debug)]
pub struct SurfaceFormat {
    pub id: u32,
    pub srgb: bool,
}

/// What the adapter reports about a surface: the supported formats,
/// present modes and alpha modes, each in the adapter's preference
/// order.  Modes are opaque host-assigned identifiers.
pub struct SurfaceCaps {
    pub formats: Vec<SurfaceFormat>,
    pub present_modes: Vec<u32>,
    pub alpha_modes: Vec<u32>,
}

/// `formats[i]` is the first sRGB variant in the list.
pub open spec fn is_first_srgb_format(formats: Seq<SurfaceFormat>, i: int) -> bool {
    &&& 0 <= i < formats.len()
    &&& formats[i].srgb
    &&& forall|j: int| 0 <= j < i ==> !(#[trigger] formats[j]).srgb
}

/// The surface configuration: size, format, presentation modes, and the
/// render-attachment usage.
#[derive(Clone, Copy, PartialEq, Eq, Structural, Debug)]
pub struct SurfaceConfig {
    pub usage: TextureUsages,
    pub format: SurfaceFormat,
    pub width: u32,
    pub height: u32,
    pub present_mode: u32,
    pub alpha_mode: u32,
    pub desired_maximum_frame_latency: u32,
}

/// Primitive assembly: the renderer only draws triangle lists.
#[derive(Clone, Copy, PartialEq, Eq, Structural, Debug)]
pub enum PrimitiveTopology {
    TriangleList,
}

/// Winding that counts as front-facing.
#[derive(Clone, Copy, PartialEq, Eq, Structural, Debug)]
pub enum FrontFace {
    Ccw,
}

/// Which faces are culled.
#[derive(Clone, Copy, PartialEq, Eq, Structural, Debug)]
pub enum Face {
    Back,
}

/// Rasterizer fill mode.
#[derive(Clone, Copy, PartialEq, Eq, Structural, Debug)]
pub enum PolygonMode {
    Fill,
}

/// Color blending; the renderer replaces both color and alpha.
#[derive(Clone, Copy, PartialEq, Eq, Structural, Debug)]
pub enum BlendMode {
    Replace,
}

/// The depth-stencil stage of the pipeline.
#[derive(Clone, Copy, PartialEq, Eq, Structural, Debug)]
pub struct DepthStencilDesc {
    pub format: TextureFormat,
    pub depth_write_enabled: bool,
    pub depth_compare: CompareFunction,
}

/// The four bind-group slots of the pipeline layout, in slot order.
#[derive(Clone, Copy, PartialEq, Eq, Structural, Debug)]
pub enum BindGroupRole {
    /// Group 0: the material's textures and samplers, bound per mesh.
    MaterialTextures,
    /// Group 1: view-projection matrix and model transform.
    CameraModel,
    /// Group 2: the scalar material parameters.
    MaterialParams,
    /// Group 3: the light.
    Light,
}

/// A complete render-pipeline description.
#[derive(Clone, PartialEq, Eq, Debug)]
pub struct RenderPipelineDesc {
    pub layout: Vec<BindGroupRole>,
    pub vertex_buffers: Vec<VertexBufferLayout>,
    pub color_format: SurfaceFormat,
    pub blend: BlendMode,
    pub write_mask_all: bool,
    pub topology: PrimitiveTopology,
    pub front_face: FrontFace,
    pub cull_mode: Option<Face>,
    pub polygon_mode: PolygonMode,
    pub unclipped_depth: bool,
    pub conservative: bool,
    pub depth_stencil: Option<DepthStencilDesc>,
    pub sample_count: u32,
}

/// Builds the one fixed pipeline shape: triangle list, back-face
/// culling with counter-clockwise front faces, fill mode, replace
/// blending, no multisampling, and — when a depth format is given —
/// depth writes with a less comparison.
pub fn create_render_pipeline(
    layout: Vec<BindGroupRole>,
    color_format: SurfaceFormat,
    depth_format: Option<TextureFormat>,
    vertex_layouts: Vec<VertexBufferLayout>,
) -> (p: RenderPipelineDesc)
    ensures
        p.layout == layout,
        p.vertex_buffers == vertex_layouts,
        p.color_format == color_format,
        p.blend == BlendMode::Replace,
        p.write_mask_all,
        p.topology == PrimitiveTopology::TriangleList,
        p.front_face == FrontFace::Ccw,
        p.cull_mode == Some(Face::Back),
        p.polygon_mode == PolygonMode::Fill,
        !p.unclipped_depth,
        !p.conservative,
        depth_format matches Some(f) ==> p.depth_stencil == Some(
            DepthStencilDesc { format: f, depth_write_enabled: true, depth_compare: CompareFunction::Less },
        ),
        depth_format is None ==> p.depth_stencil is None,
        p.sample_count == 1,
{
    let depth_stencil = match depth_format {
        Some(format) => Some(
            DepthStencilDesc {
                format,
                depth_write_enabled: true,
                depth_compare: CompareFunction::Less,
            },
        ),
        None => None,
    };
    RenderPipelineDesc {
        layout,
        vertex_buffers: vertex_layouts,
        color_format,
        blend: BlendMode::Replace,
        write_mask_all: true,
        topology: PrimitiveTopology::TriangleList,
        front_face: FrontFace::Ccw,
        cull_mode: Some(Face::Back),
        polygon_mode: PolygonMode::Fill,
        unclipped_depth: false,
        conservative: false,
        depth_stencil,
        sample_count: 1,
    }
}

/// The initial contents of the four uniform buffers a renderer creates.
pub struct UniformInit {
    pub camera: Vec<u8>,
    pub model: Vec<u8>,
    pub simple_material: Vec<u8>,
    pub light: Vec<u8>,
}

/// The background color, as 64-bit float bit patterns:
/// `(r, g, b, a) = (0.1, 0.2, 0.3, 1.0)`.
#[derive(Clone, Copy, PartialEq, Eq, Structural, Debug)]
pub struct ClearColor {
    pub r: u64,
    pub g: u64,
    pub b: u64,
    pub a: u64,
}

/// The fixed dark-blue background every pass clears to.
pub open spec fn spec_clear_color() -> ClearColor {
    ClearColor {
        r: F64_TENTH_BITS,
        g: F64_FIFTH_BITS,
        b: F64_THREE_TENTHS_BITS,
        a: F64_ONE_BITS,
    }
}

/// One step of a render pass, in issue order.
#[derive(Clone, Copy, PartialEq, Eq, Structural, Debug)]
pub enum DrawCommand {
    /// Bind the fixed render pipeline.
    SetPipeline,
    /// Bind the camera + model-transform uniforms at group 1.
    SetCameraModelBindGroup,
    /// Bind the scalar material parameters at group 2.
    SetSimpleMaterialBindGroup,
    /// Bind the light at group 3.
    SetLightBindGroup,
    /// Overwrite the shared model-transform buffer with the transform
    /// of `objects[object_index]`.  The buffer is singular, so this must
    /// stay immediately before the draws of that same instance.
    WriteModelTransform { object_index: usize },
    /// Bind mesh `mesh_index` of model `model_index` (vertex and index
    /// buffers), bind its material's textures at group 0, and draw the
    /// mesh's full index range once.
    DrawMesh { model_index: usize, mesh_index: usize, material_index: usize, num_elements: u32 },
}

/// The commands drawing object `k`: one transform upload, then one draw
/// per mesh of the object's model, in mesh order.
pub open spec fn spec_object_commands(scene: Scene, k: int) -> Seq<DrawCommand> {
    seq![DrawCommand::WriteModelTransform { object_index: k as usize }] + Seq::new(
        scene.models@[scene.objects@[k].model_index as int].meshes@.len(),
        |j: int|
            DrawCommand::DrawMesh {
                model_index: scene.objects@[k].model_index,
                mesh_index: j as usize,
                material_index: scene.models@[scene.objects@[k].model_index as int].meshes@[j].material,
                num_elements: scene.models@[scene.objects@[k].model_index as int].meshes@[j].num_elements,
            },
    )
}

/// The commands drawing the first `n` objects, in insertion order.
pub open spec fn spec_scene_commands(scene: Scene, n: int) -> Seq<DrawCommand>
    decreases n,
{
    if n <= 0 {
        Seq::empty()
    } else {
        spec_scene_commands(scene, n - 1) + spec_object_commands(scene, n - 1)
    }
}

/// All commands of one pass: pipeline and shared bind groups once, then
/// every object of the scene.
pub open spec fn spec_frame_commands(scene: Scene) -> Seq<DrawCommand> {
    seq![
        DrawCommand::SetPipeline,
        DrawCommand::SetCameraModelBindGroup,
        DrawCommand::SetSimpleMaterialBindGroup,
        DrawCommand::SetLightBindGroup,
    ] + spec_scene_commands(scene, scene.objects@.len() as int)
}

/// How many transform uploads a command sequence contains.
pub open spec fn spec_upload_count(cmds: Seq<DrawCommand>) -> nat
    decreases cmds.len(),
{
    if cmds.len() == 0 {
        0
    } else {
        spec_upload_count(cmds.drop_last()) + if cmds.last() is WriteModelTransform {
            1nat
        } else {
            0nat
        }
    }
}

/// How many draw calls a command sequence contains.
pub open spec fn spec_draw_count(cmds: Seq<DrawCommand>) -> nat
    decreases cmds.len(),
{
    if cmds.len() == 0 {
        0
    } else {
        spec_draw_count(cmds.drop_last()) + if cmds.last() is DrawMesh {
            1nat
        } else {
            0nat
        }
    }
}

/// Both counts distribute over concatenation.
pub proof fn lemma_counts_add(a: Seq<DrawCommand>, b: Seq<DrawCommand>)
    ensures
        spec_upload_count(a + b) == spec_upload_count(a) + spec_upload_count(b),
        spec_draw_count(a + b) == spec_draw_count(a) + spec_draw_count(b),
    decreases b.len(),
{
    if b.len() == 0 {
        assert(a + b =~= a);
    } else {
        assert((a + b).drop_last() =~= a + b.drop_last());
        assert((a + b).last() == b.last());
        lemma_counts_add(a, b.drop_last());
    }
}

proof fn lemma_all_draw_counts(s: Seq<DrawCommand>)
    requires
        forall|i: int| 0 <= i < s.len() ==> (#[trigger] s[i]) is DrawMesh,
    ensures
        spec_draw_count(s) == s.len(),
        spec_upload_count(s) == 0,
    decreases s.len(),
{
    if s.len() > 0 {
        lemma_all_draw_counts(s.drop_last());
    }
}

/// The commands of one object are exactly one transform upload followed
/// by one draw per mesh of its model: the upload immediately precedes
/// its instance's draws, and nothing else stands between them.
pub proof fn lemma_object_commands_shape(scene: Scene, k: int)
    ensures
        spec_object_commands(scene, k).len() == 1 + scene.models@[scene.objects@[k].model_index as int].meshes@.len(),
        spec_object_commands(scene, k)[0] == (DrawCommand::WriteModelTransform {
            object_index: k as usize,
        }),
        forall|j: int|
            1 <= j < spec_object_commands(scene, k).len() ==> (#[trigger] spec_object_commands(
                scene,
                k,
            )[j]) is DrawMesh,
        spec_upload_count(spec_object_commands(scene, k)) == 1,
        spec_draw_count(spec_object_commands(scene, k)) == scene.models@[scene.objects@[k].model_index as int].meshes@.len(),
{
    let up = seq![DrawCommand::WriteModelTransform { object_index: k as usize }];
    let draws = spec_object_commands(scene, k).skip(1);
    assert(spec_object_commands(scene, k) =~= up + draws);
    assert(forall|i: int| 0 <= i < draws.len() ==> (#[trigger] draws[i]) is DrawMesh);
    assert(spec_upload_count(Seq::<DrawCommand>::empty()) == 0);
    assert(spec_draw_count(Seq::<DrawCommand>::empty()) == 0);
    assert(up.drop_last() =~= Seq::<DrawCommand>::empty());
    assert(spec_upload_count(up) == 1);
    assert(spec_draw_count(up) == 0);
    lemma_all_draw_counts(draws);
    lemma_counts_add(up, draws);
}

/// The total number of meshes drawn for the first `n` objects.
pub open spec fn spec_total_draws(scene: Scene, n: int) -> nat
    decreases n,
{
    if n <= 0 {
        0
    } else {
        spec_total_draws(scene, n - 1)
            + scene.models@[scene.objects@[n - 1].model_index as int].meshes@.len()
    }
}

proof fn lemma_scene_command_counts(scene: Scene, n: int)
    requires
        0 <= n,
    ensures
        spec_upload_count(spec_scene_commands(scene, n)) == n,
        spec_draw_count(spec_scene_commands(scene, n)) == spec_total_draws(scene, n),
    decreases n,
{
    if n > 0 {
        lemma_scene_command_counts(scene, n - 1);
        lemma_object_commands_shape(scene, n - 1);
        lemma_counts_add(spec_scene_commands(scene, n - 1), spec_object_commands(scene, n - 1));
    }
}

/// Every frame issues exactly one transform upload per scene object and
/// exactly one draw call per mesh per object.
pub proof fn lemma_frame_command_counts(scene: Scene)
    ensures
        spec_upload_count(spec_frame_commands(scene)) == scene.objects@.len(),
        spec_draw_count(spec_frame_commands(scene)) == spec_total_draws(
            scene,
            scene.objects@.len() as int,
        ),
{
    let header = seq![
        DrawCommand::SetPipeline,
        DrawCommand::SetCameraModelBindGroup,
        DrawCommand::SetSimpleMaterialBindGroup,
        DrawCommand::SetLightBindGroup,
    ];
    assert(spec_upload_count(header) == 0 && spec_draw_count(header) == 0) by {
        assert(spec_upload_count(Seq::<DrawCommand>::empty()) == 0);
        assert(spec_draw_count(Seq::<DrawCommand>::empty()) == 0);
        assert(header.drop_last() =~= header.take(3));
        assert(header.take(3).drop_last() =~= header.take(2));
        assert(header.take(2).drop_last() =~= header.take(1));
        assert(header.take(1).drop_last() =~= Seq::<DrawCommand>::empty());
        assert(spec_upload_count(header.take(1)) == 0 && spec_draw_count(header.take(1)) == 0);
        assert(spec_upload_count(header.take(2)) == 0 && spec_draw_count(header.take(2)) == 0);
        assert(spec_upload_count(header.take(3)) == 0 && spec_draw_count(header.take(3)) == 0);
    }
    lemma_scene_command_counts(scene, scene.objects@.len() as int);
    lemma_counts_add(header, spec_scene_commands(scene, scene.objects@.len() as int));
}

/// A scene of `n` objects whose models all reference one shared model
/// issues exactly `n` transform uploads and exactly
/// `n * meshes` draw calls per frame — one per mesh per instance.
pub proof fn lemma_shared_model_draw_count(scene: Scene, model_index: usize)
    requires
        forall|k: int|
            0 <= k < scene.objects@.len() ==> (#[trigger] scene.objects@[k]).model_index
                == model_index,
    ensures
        spec_upload_count(spec_frame_commands(scene)) == scene.objects@.len(),
        spec_draw_count(spec_frame_commands(scene)) == scene.objects@.len()
            * scene.models@[model_index as int].meshes@.len(),
{
    let m = scene.models@[model_index as int].meshes@.len();
    assert forall|n: int| 0 <= n <= scene.objects@.len() implies spec_total_draws(scene, n) == n
        * m by {
        lemma_total_draws_shared(scene, model_index, n);
    }
    lemma_frame_command_counts(scene);
}

proof fn lemma_total_draws_shared(scene: Scene, model_index: usize, n: int)
    requires
        0 <= n <= scene.objects@.len(),
        forall|k: int|
            0 <= k < scene.objects@.len() ==> (#[trigger] scene.objects@[k]).model_index
                == model_index,
    ensures
        spec_total_draws(scene, n) == n * scene.models@[model_index as int].meshes@.len(),
    decreases n,
{
    let m = scene.models@[model_index as int].meshes@.len();
    if n > 0 {
        assert(scene.objects@[n - 1].model_index == model_index);
        lemma_total_draws_shared(scene, model_index, n - 1);
        assert(spec_total_draws(scene, n) == spec_total_draws(scene, n - 1) + m);
        assert((n - 1) * m + m == n * m) by (nonlinear_arith);
    } else {
        assert(spec_total_draws(scene, n) == 0);
        assert(n * m == 0) by (nonlinear_arith)
            requires
                n == 0,
        ;
    }
}

/// One render pass: clear values and the ordered commands.
pub struct RenderPassPlan {
    pub clear_color: ClearColor,
    /// Depth clears to 1.0 (the far plane), as a bit pattern.
    pub depth_clear: u32,
    pub commands: Vec<DrawCommand>,
}

/// Everything one frame does.  The camera upload and the redraw request
/// happen unconditionally; the pass exists only once the surface has
/// been configured.
pub struct FramePlan {
    /// New contents of the camera uniform buffer.
    pub camera_upload: Vec<u8>,
    /// The host must request the next redraw to keep the loop alive.
    pub request_redraw: bool,
    /// The pass to record and present, absent while unconfigured.
    pub pass: Option<RenderPassPlan>,
}

/// The ways acquiring the next surface image fails.
#[derive(Clone, Copy, PartialEq, Eq, Structural, Debug)]
pub enum SurfaceError {
    Timeout,
    Outdated,
    Lost,
    OutOfMemory,
    Other,
}

/// What the host must do about a failed acquire.
#[derive(Clone, Copy, PartialEq, Eq, Structural, Debug)]
pub enum PresentationAction {
    /// Reconfigure the surface to the window's current size, retry next
    /// frame.
    Reconfigure,
    /// Drop this frame and retry next frame.
    SkipFrame,
    /// Fatal: stop rendering.
    Fail,
}

/// The recovery policy: lost or outdated surfaces are reconfigured, a
/// timeout drops the frame, anything else is fatal.
pub open spec fn spec_presentation_error_action(e: SurfaceError) -> PresentationAction {
    match e {
        SurfaceError::Lost => PresentationAction::Reconfigure,
        SurfaceError::Outdated => PresentationAction::Reconfigure,
        SurfaceError::Timeout => PresentationAction::SkipFrame,
        SurfaceError::OutOfMemory => PresentationAction::Fail,
        SurfaceError::Other => PresentationAction::Fail,
    }
}

/// Decides how to recover from a failed surface acquire.
pub fn presentation_error_action(e: SurfaceError) -> (a: PresentationAction)
    ensures
        a == spec_presentation_error_action(e),
{
    match e {
        SurfaceError::Lost => PresentationAction::Reconfigure,
        SurfaceError::Outdated => PresentationAction::Reconfigure,
        SurfaceError::Timeout => PresentationAction::SkipFrame,
        SurfaceError::OutOfMemory => PresentationAction::Fail,
        SurfaceError::Other => PresentationAction::Fail,
    }
}

/// The renderer's long-lived state: the surface configuration, the
/// bind-group layouts, the pipeline, the depth attachment, and the
/// initial uniform contents.
pub struct Renderer {
    pub config: SurfaceConfig,
    pub is_surface_configured: bool,
    pub texture_bind_group_layouts: TextureBindGroupLayouts,
    pub camera_model_layout: BindGroupLayout,
    pub simple_material_layout: BindGroupLayout,
    pub light_layout: BindGroupLayout,
    pub uniform_init: UniformInit,
    pub depth_texture: Texture,
    pub render_pipeline: RenderPipelineDesc,
}

impl Renderer {
    /// Builds the renderer against an adapter's capabilities and the
    /// window's current pixel size.
    ///
    /// The surface format is the first sRGB variant the adapter lists,
    /// falling back to the first format; present and alpha modes are the
    /// adapter's first-listed.  The surface starts unconfigured.  The
    /// camera and model buffers start as identity matrices; the material
    /// and light buffers start at their defaults.  The pipeline draws
    /// the mesh vertex layout against the diffuse+normal material
    /// layout, camera+model, material-parameter and light groups, depth
    /// tested against a fresh depth attachment of the given size.
    #[verifier::rlimit(50)]
    pub fn new(caps: &SurfaceCaps, width: u32, height: u32) -> (r: Renderer)
        requires
            caps.formats@.len() > 0,
            caps.present_modes@.len() > 0,
            caps.alpha_modes@.len() > 0,
        ensures
            forall|i: int|
                is_first_srgb_format(caps.formats@, i) ==> r.config.format == caps.formats@[i],
            (forall|j: int| 0 <= j < caps.formats@.len() ==> !(#[trigger] caps.formats@[j]).srgb)
                ==> r.config.format == caps.formats@[0],
            r.config.usage == (TextureUsages {
                texture_binding: false,
                copy_dst: false,
                render_attachment: true,
            }),
            r.config.width == width,
            r.config.height == height,
            r.config.present_mode == caps.present_modes@[0],
            r.config.alpha_mode == caps.alpha_modes@[0],
            r.config.desired_maximum_frame_latency == 2,
            !r.is_surface_configured,
            r.texture_bind_group_layouts.diffuse.entries@ == seq![
                spec_texture_entry(0),
                spec_sampler_entry(1),
            ],
            r.texture_bind_group_layouts.diffuse_normal.entries@ == seq![
                spec_texture_entry(0),
                spec_sampler_entry(1),
                spec_texture_entry(2),
                spec_sampler_entry(3),
            ],
            r.camera_model_layout.entries@ == seq![
                spec_uniform_entry(0, ShaderStages::Vertex),
                spec_uniform_entry(1, ShaderStages::Vertex),
            ],
            r.simple_material_layout.entries@ == seq![spec_uniform_entry(0, ShaderStages::Fragment)],
            r.light_layout.entries@ == seq![spec_uniform_entry(0, ShaderStages::VertexFragment)],
            r.uniform_init.camera@ == words_to_bytes(spec_identity_words()),
            r.uniform_init.model@ == words_to_bytes(spec_identity_words()),
            r.uniform_init.simple_material@ == spec_default_simple_material().spec_bytes(),
            r.uniform_init.light@ == spec_default_light().spec_bytes(),
            spec_is_depth_texture(r.depth_texture, width, height),
            r.render_pipeline.layout@ == seq![
                BindGroupRole::MaterialTextures,
                BindGroupRole::CameraModel,
                BindGroupRole::MaterialParams,
                BindGroupRole::Light,
            ],
            r.render_pipeline.vertex_buffers@.len() == 1,
            r.render_pipeline.vertex_buffers@[0].array_stride == 48,
            r.render_pipeline.vertex_buffers@[0].step_mode == crate::model::VertexStepMode::Vertex,
            r.render_pipeline.vertex_buffers@[0].attributes@
                == crate::model::spec_model_vertex_attributes(),
            r.render_pipeline.color_format == r.config.format,
            r.render_pipeline.blend == BlendMode::Replace,
            r.render_pipeline.topology == PrimitiveTopology::TriangleList,
            r.render_pipeline.front_face == FrontFace::Ccw,
            r.render_pipeline.cull_mode == Some(Face::Back),
            r.render_pipeline.polygon_mode == PolygonMode::Fill,
            r.render_pipeline.depth_stencil == Some(
                DepthStencilDesc {
                    format: TextureFormat::Depth32Float,
                    depth_write_enabled: true,
                    depth_compare: CompareFunction::Less,
                },
            ),
            r.render_pipeline.sample_count == 1,
    {
        let surface_format = choose_surface_format(&caps.formats);
        let config = SurfaceConfig {
            usage: TextureUsages {
                texture_binding: false,
                copy_dst: false,
                render_attachment: true,
            },
            format: surface_format,
            width,
            height,
            present_mode: caps.present_modes[0],
            alpha_mode: caps.alpha_modes[0],
            desired_maximum_frame_latency: 2,
        };

        let texture_bind_group_layouts = MaterialType::create_texture_bind_group_layouts();

        let mut camera_model_entries: Vec<BindGroupLayoutEntry> = Vec::new();
        camera_model_entries.push(
            BindGroupLayoutEntry {
                binding: 0,
                visibility: ShaderStages::Vertex,
                ty: BindingType::UniformBuffer { has_dynamic_offset: false },
            },
        );
        camera_model_entries.push(
            BindGroupLayoutEntry {
                binding: 1,
                visibility: ShaderStages::Vertex,
                ty: BindingType::UniformBuffer { has_dynamic_offset: false },
            },
        );
        let mut simple_material_entries: Vec<BindGroupLayoutEntry> = Vec::new();
        simple_material_entries.push(
            BindGroupLayoutEntry {
                binding: 0,
                visibility: ShaderStages::Fragment,
                ty: BindingType::UniformBuffer { has_dynamic_offset: false },
            },
        );
        let mut light_entries: Vec<BindGroupLayoutEntry> = Vec::new();
        light_entries.push(
            BindGroupLayoutEntry {
                binding: 0,
                visibility: ShaderStages::VertexFragment,
                ty: BindingType::UniformBuffer { has_dynamic_offset: false },
            },
        );
        proof {
            assert(camera_model_entries@ =~= seq![
                spec_uniform_entry(0, ShaderStages::Vertex),
                spec_uniform_entry(1, ShaderStages::Vertex),
            ]);
            assert(simple_material_entries@ =~= seq![
                spec_uniform_entry(0, ShaderStages::Fragment),
            ]);
            assert(light_entries@ =~= seq![spec_uniform_entry(0, ShaderStages::VertexFragment)]);
        }

        let camera_uniform = CameraUniform::new();
        let uniform_init = UniformInit {
            camera: camera_uniform.to_bytes(),
            model: camera_uniform.to_bytes(),
            simple_material: SimpleMaterial::new().to_bytes(),
            light: LightUniform::new().to_bytes(),
        };

        let depth_texture = Texture::create_depth_texture(width, height);

        let mut layout: Vec<BindGroupRole> = Vec::new();
        layout.push(BindGroupRole::MaterialTextures);
        layout.push(BindGroupRole::CameraModel);
        layout.push(BindGroupRole::MaterialParams);
        layout.push(BindGroupRole::Light);
        proof {
            assert(layout@ =~= seq![
                BindGroupRole::MaterialTextures,
                BindGroupRole::CameraModel,
                BindGroupRole::MaterialParams,
                BindGroupRole::Light,
            ]);
        }
        let mut vertex_layouts: Vec<VertexBufferLayout> = Vec::new();
        vertex_layouts.push(ModelVertex::desc());
        let render_pipeline = create_render_pipeline(
            layout,
            surface_format,
            Some(TextureFormat::Depth32Float),
            vertex_layouts,
        );

        Renderer {
            config,
            is_surface_configured: false,
            texture_bind_group_layouts,
            camera_model_layout: BindGroupLayout { entries: camera_model_entries },
            simple_material_layout: BindGroupLayout { entries: simple_material_entries },
            light_layout: BindGroupLayout { entries: light_entries },
            uniform_init,
            depth_texture,
            render_pipeline,
        }
    }

    /// Reconfigures the surface to the new dimensions — which must be
    /// positive, enforced by the caller — and rebuilds the depth
    /// attachment to match.  Everything else is untouched.
    pub fn update_size(&mut self, width: u32, height: u32)
        requires
            width > 0,
            height > 0,
        ensures
            final(self).config == (SurfaceConfig { width, height, ..old(self).config }),
            final(self).is_surface_configured,
            spec_is_depth_texture(final(self).depth_texture, width, height),
            final(self).texture_bind_group_layouts == old(self).texture_bind_group_layouts,
            final(self).camera_model_layout == old(self).camera_model_layout,
            final(self).simple_material_layout == old(self).simple_material_layout,
            final(self).light_layout == old(self).light_layout,
            final(self).uniform_init == old(self).uniform_init,
            final(self).render_pipeline == old(self).render_pipeline,
    {
        self.config.width = width;
        self.config.height = height;
        self.is_surface_configured = true;
        self.depth_texture = Texture::create_depth_texture(width, height);
    }

    /// Handles a window resize.  A dimension of zero is rejected — the
    /// renderer is left exactly as it was and the surface must not be
    /// reconfigured; otherwise the surface is reconfigured to the new
    /// size.  Returns whether the resize was accepted.
    pub fn resize(&mut self, width: u32, height: u32) -> (accepted: bool)
        ensures
            accepted == (width > 0 && height > 0),
            !accepted ==> *final(self) == *old(self),
            accepted ==> {
                &&& final(self).config == (SurfaceConfig { width, height, ..old(self).config })
                &&& final(self).is_surface_configured
                &&& spec_is_depth_texture(final(self).depth_texture, width, height)
                &&& final(self).texture_bind_group_layouts == old(self).texture_bind_group_layouts
                &&& final(self).camera_model_layout == old(self).camera_model_layout
                &&& final(self).simple_material_layout == old(self).simple_material_layout
                &&& final(self).light_layout == old(self).light_layout
                &&& final(self).uniform_init == old(self).uniform_init
                &&& final(self).render_pipeline == old(self).render_pipeline
            },
    {
        if width > 0 && height > 0 {
            self.update_size(width, height);
            true
        } else {
            false
        }
    }

    /// Encodes new light contents for the light uniform buffer.
    pub fn update_light(&self, light: &LightUniform) -> (b: Vec<u8>)
        ensures
            b@ == light.spec_bytes(),
    {
        light.to_bytes()
    }

    /// Plans one frame.
    ///
    /// The camera upload and the redraw request happen whatever the
    /// surface state, so the buffer is fresh for the first real frame
    /// and the redraw-driven loop stays alive.  While the surface is
    /// unconfigured there is no pass: the frame succeeds without
    /// presenting.  Otherwise the pass clears color and depth to the
    /// fixed values and issues [`spec_frame_commands`]: the pipeline and
    /// shared bind groups once, then for every object — in insertion
    /// order — its transform upload followed by one draw per mesh of its
    /// model.
    pub fn render(&self, camera_uniform: &CameraUniform, scene: &Scene) -> (plan: FramePlan)
        requires
            camera_uniform.view_proj.wf(),
            scene.wf(),
        ensures
            plan.camera_upload@ == words_to_bytes(camera_uniform.view_proj.words@),
            plan.request_redraw,
            plan.pass is Some <==> self.is_surface_configured,
            plan.pass matches Some(p) ==> {
                &&& p.clear_color == spec_clear_color()
                &&& p.depth_clear == F32_ONE_BITS
                &&& p.commands@ == spec_frame_commands(*scene)
            },
    {
        let camera_upload = camera_uniform.to_bytes();
        if !self.is_surface_configured {
            return FramePlan { camera_upload, request_redraw: true, pass: None };
        }
        let mut commands: Vec<DrawCommand> = Vec::new();
        commands.push(DrawCommand::SetPipeline);
        commands.push(DrawCommand::SetCameraModelBindGroup);
        commands.push(DrawCommand::SetSimpleMaterialBindGroup);
        commands.push(DrawCommand::SetLightBindGroup);
        proof {
            assert(commands@ =~= seq![
                DrawCommand::SetPipeline,
                DrawCommand::SetCameraModelBindGroup,
                DrawCommand::SetSimpleMaterialBindGroup,
                DrawCommand::SetLightBindGroup,
            ] + spec_scene_commands(*scene, 0));
        }
        let ghost header = seq![
            DrawCommand::SetPipeline,
            DrawCommand::SetCameraModelBindGroup,
            DrawCommand::SetSimpleMaterialBindGroup,
            DrawCommand::SetLightBindGroup,
        ];
        let mut k: usize = 0;
        while k < scene.objects.len()
            invariant
                scene.wf(),
                k <= scene.objects@.len(),
                commands@ == header + spec_scene_commands(*scene, k as int),
            decreases scene.objects@.len() - k,
        {
            let model_index = scene.objects[k].model_index;
            commands.push(DrawCommand::WriteModelTransform { object_index: k });
            let ghost mid = commands@;
            let num_meshes = scene.models[model_index].meshes.len();
            let mut j: usize = 0;
            while j < num_meshes
                invariant
                    scene.wf(),
                    k < scene.objects@.len(),
                    model_index == scene.objects@[k as int].model_index,
                    model_index < scene.models@.len(),
                    num_meshes == scene.models@[model_index as int].meshes@.len(),
                    j <= num_meshes,
                    mid == header + spec_scene_commands(*scene, k as int) + seq![
                        DrawCommand::WriteModelTransform { object_index: k },
                    ],
                    commands@ == mid + Seq::new(
                        j as nat,
                        |jj: int|
                            DrawCommand::DrawMesh {
                                model_index,
                                mesh_index: jj as usize,
                                material_index: scene.models@[model_index as int].meshes@[jj].material,
                                num_elements: scene.models@[model_index as int].meshes@[jj].num_elements,
                            },
                    ),
                decreases num_meshes - j,
            {
                commands.push(
                    DrawCommand::DrawMesh {
                        model_index,
                        mesh_index: j,
                        material_index: scene.models[model_index].meshes[j].material,
                        num_elements: scene.models[model_index].meshes[j].num_elements,
                    },
                );
                proof {
                    assert(commands@ =~= mid + Seq::new(
                        (j + 1) as nat,
                        |jj: int|
                            DrawCommand::DrawMesh {
                                model_index,
                                mesh_index: jj as usize,
                                material_index: scene.models@[model_index as int].meshes@[jj].material,
                                num_elements: scene.models@[model_index as int].meshes@[jj].num_elements,
                            },
                    ));
                }
                j += 1;
            }
            proof {
                assert(commands@ =~= header + spec_scene_commands(*scene, k as int)
                    + spec_object_commands(*scene, k as int));
                assert(spec_scene_commands(*scene, k as int + 1) == spec_scene_commands(
                    *scene,
                    k as int,
                ) + spec_object_commands(*scene, k as int));
                assert(commands@ =~= header + spec_scene_commands(*scene, k as int + 1));
            }
            k += 1;
        }
        proof {
            assert(commands@ =~= spec_frame_commands(*scene));
        }
        FramePlan {
            camera_upload,
            request_redraw: true,
            pass: Some(
                RenderPassPlan {
                    clear_color: ClearColor {
                        r: F64_TENTH_BITS,
                        g: F64_FIFTH_BITS,
                        b: F64_THREE_TENTHS_BITS,
                        a: F64_ONE_BITS,
                    },
                    depth_clear: F32_ONE_BITS,
                    commands,
                },
            ),
        }
    }
}

/// Picks the surface format: the first sRGB variant in the adapter's
/// list, else the first format.
pub fn choose_surface_format(formats: &Vec<SurfaceFormat>) -> (f: SurfaceFormat)
    requires
        formats@.len() > 0,
    ensures
        forall|i: int| is_first_srgb_format(formats@, i) ==> f == formats@[i],
        (forall|j: int| 0 <= j < formats@.len() ==> !(#[trigger] formats@[j]).srgb) ==> f
            == formats@[0],
{
    let mut i: usize = 0;
    while i < formats.len()
        invariant
            i <= formats@.len(),
            formats@.len() > 0,
            forall|j: int| 0 <= j < i ==> !(#[trigger] formats@[j]).srgb,
        decreases formats@.len() - i,
    {
        if formats[i].srgb {
            return formats[i];
        }
        i += 1;
    }
    formats[0]
}

} // verus!
