//! The scene registry: add, look up, first-match wins.

use scene_renderer::bits::Vec3Bits;
use scene_renderer::camera::Camera;
use scene_renderer::light::LightUniform;
use scene_renderer::mat4::Mat4;
use scene_renderer::model::{BindingResource, Material, Mesh, Model, ModelInstance};
use scene_renderer::scene::Scene;
use scene_renderer::texture::{Texture, TextureType};

fn test_camera() -> Camera {
    let zero = Vec3Bits { x: 0, y: 0, z: 0 };
    Camera::new(zero, zero, zero, 1.0f32.to_bits(), 45.0f32.to_bits(), 0.1f32.to_bits(), 100.0f32.to_bits())
}

fn material(name: &str) -> Material {
    let diffuse = Texture::from_images(&vec![(4, 4)], TextureType::Diffuse).unwrap();
    let normal = Texture::from_images(&vec![(4, 4)], TextureType::Normal).unwrap();
    Material::new(name.to_string(), diffuse, normal)
}

#[test]
fn material_bind_group_slots() {
    let m = material("stone");
    assert_eq!(m.name, "stone");
    let roles: Vec<(u32, BindingResource)> =
        m.bind_group.entries.iter().map(|e| (e.binding, e.resource)).collect();
    assert_eq!(
        roles,
        vec![
            (0, BindingResource::DiffuseView),
            (1, BindingResource::DiffuseSampler),
            (2, BindingResource::NormalView),
            (3, BindingResource::NormalSampler),
        ]
    );
}

#[test]
fn new_scene_is_empty() {
    let s = Scene::new(LightUniform::new(), test_camera());
    assert!(s.materials.is_empty());
    assert!(s.models.is_empty());
    assert!(s.objects.is_empty());
}

#[test]
fn add_material_returns_successive_indices() {
    let mut s = Scene::new(LightUniform::new(), test_camera());
    assert_eq!(s.add_material(material("stone")), 0);
    assert_eq!(s.add_material(material("wood")), 1);
    assert_eq!(s.add_material(material("iron")), 2);
    assert_eq!(s.materials.len(), 3);
}

#[test]
fn get_material_finds_first_index_by_name() {
    let mut s = Scene::new(LightUniform::new(), test_camera());
    s.add_material(material("stone"));
    s.add_material(material("wood"));
    assert_eq!(s.get_material(&"stone".to_string()), Some(0));
    assert_eq!(s.get_material(&"wood".to_string()), Some(1));
}

#[test]
fn get_material_missing_name_is_none() {
    let mut s = Scene::new(LightUniform::new(), test_camera());
    s.add_material(material("stone"));
    assert_eq!(s.get_material(&"marble".to_string()), None);
    let empty = Scene::new(LightUniform::new(), test_camera());
    assert_eq!(empty.get_material(&"stone".to_string()), None);
}

#[test]
fn duplicate_material_name_keeps_first_match() {
    let mut s = Scene::new(LightUniform::new(), test_camera());
    s.add_material(material("stone"));
    s.add_material(material("wood"));
    assert_eq!(s.get_material(&"stone".to_string()), Some(0));
    // a second material under the same name must not change the lookup
    s.add_material(material("stone"));
    assert_eq!(s.get_material(&"stone".to_string()), Some(0));
}

#[test]
fn well_formedness_check_accepts_consistent_scenes() {
    let mut s = Scene::new(LightUniform::new(), test_camera());
    assert!(s.is_well_formed());
    s.add_material(material("stone"));
    let idx = s.add_model(Model {
        meshes: vec![Mesh { name: "tri".to_string(), num_elements: 3, material: 0 }],
    });
    s.add_object(ModelInstance { model_index: idx, transform: Mat4::identity() });
    assert!(s.is_well_formed());
}

#[test]
fn well_formedness_check_catches_bad_indices() {
    let mut s = Scene::new(LightUniform::new(), test_camera());
    // assemble through the public fields, as an unchecked host might
    s.objects.push(ModelInstance { model_index: 3, transform: Mat4::identity() });
    assert!(!s.is_well_formed());

    let mut s = Scene::new(LightUniform::new(), test_camera());
    s.models.push(Model {
        meshes: vec![Mesh { name: "tri".to_string(), num_elements: 3, material: 7 }],
    });
    assert!(!s.is_well_formed());
}

#[test]
fn add_model_and_objects() {
    let mut s = Scene::new(LightUniform::new(), test_camera());
    s.add_material(material("stone"));
    let model = Model {
        meshes: vec![Mesh { name: "tri".to_string(), num_elements: 3, material: 0 }],
    };
    let idx = s.add_model(model);
    assert_eq!(idx, 0);
    s.add_object(ModelInstance { model_index: idx, transform: Mat4::identity() });
    s.add_object(ModelInstance { model_index: idx, transform: Mat4::identity() });
    assert_eq!(s.objects.len(), 2);
    assert_eq!(s.objects[1].model_index, 0);
}
