//! The scene: a flat, append-only registry of models, materials and
//! object instances, plus one camera and one light.
//!
//! Every mesh names its material by index and every object names its
//! model by index; well-formedness says all such indices are in bounds.
//! Registration is append-only — there is no removal — so indices handed
//! out once stay valid for the scene's lifetime.

use vstd::prelude::*;
use crate::camera::Camera;
use crate::light::LightUniform;
use crate::model::{Material, Model, ModelInstance};

verus! {

/// The index `i` is the first position in `materials` whose material
/// carries `name`.
pub open spec fn is_first_material_match(materials: Seq<Material>, name: Seq<char>, i: int) -> bool {
    &&& 0 <= i < materials.len()
    &&& materials[i].name@ == name
    &&& forall|j: int| 0 <= j < i ==> (#[trigger] materials[j]).name@ != name
}

/// At most one index is the first match for a given name.
pub proof fn lemma_first_match_unique(materials: Seq<Material>, name: Seq<char>, i: int, j: int)
    requires
        is_first_material_match(materials, name, i),
        is_first_material_match(materials, name, j),
    ensures
        i == j,
{
}

/// Appending a material never disturbs an existing first match: the
/// first material added under a name keeps winning the lookup, whatever
/// is added later under the same name.
pub proof fn lemma_first_match_stable_under_push(
    materials: Seq<Material>,
    appended: Material,
    name: Seq<char>,
    i: int,
)
    requires
        is_first_material_match(materials, name, i),
    ensures
        is_first_material_match(materials.push(appended), name, i),
{
    assert(materials.push(appended)[i].name@ == name);
}

/// A flat, owning registry of everything drawable, plus the camera and
/// the light.
pub struct Scene {
    pub materials: Vec<Material>,
    pub models: Vec<Model>,
    pub objects: Vec<ModelInstance>,
    pub light: LightUniform,
    pub camera: Camera,
}

impl Scene {
    /// Every object's model index and every mesh's material index is in
    /// bounds, and every object transform holds its sixteen words.
    pub open spec fn wf(self) -> bool {
        &&& forall|i: int|
            0 <= i < self.objects@.len() ==> (#[trigger] self.objects@[i]).model_index
                < self.models@.len()
        &&& forall|i: int, j: int|
            0 <= i < self.models@.len() && 0 <= j < self.models@[i].meshes@.len() ==> (
            #[trigger] self.models@[i].meshes@[j]).material < self.materials@.len()
        &&& forall|i: int| 0 <= i < self.objects@.len() ==> (#[trigger] self.objects@[i]).transform.wf()
    }

    /// An empty scene around the given light and camera.
    pub fn new(light: LightUniform, camera: Camera) -> (s: Scene)
        ensures
            s.materials@.len() == 0,
            s.models@.len() == 0,
            s.objects@.len() == 0,
            s.light == light,
            s.camera == camera,
            s.wf(),
    {
        Scene { materials: Vec::new(), models: Vec::new(), objects: Vec::new(), light, camera }
    }

    /// Registers a model and returns its index.  The model's meshes may
    /// only name materials already registered.
    pub fn add_model(&mut self, model: Model) -> (idx: usize)
        requires
            old(self).models@.len() < usize::MAX,
            forall|j: int|
                0 <= j < model.meshes@.len() ==> (#[trigger] model.meshes@[j]).material < old(
                    self,
                ).materials@.len(),
        ensures
            final(self).models@ == old(self).models@.push(model),
            final(self).materials@ == old(self).materials@,
            final(self).objects@ == old(self).objects@,
            final(self).light == old(self).light,
            final(self).camera == old(self).camera,
            idx == old(self).models@.len(),
            old(self).wf() ==> final(self).wf(),
    {
        self.models.push(model);
        self.models.len() - 1
    }

    /// Registers a material and returns its index.
    pub fn add_material(&mut self, material: Material) -> (idx: usize)
        requires
            old(self).materials@.len() < usize::MAX,
        ensures
            final(self).materials@ == old(self).materials@.push(material),
            final(self).models@ == old(self).models@,
            final(self).objects@ == old(self).objects@,
            final(self).light == old(self).light,
            final(self).camera == old(self).camera,
            idx == old(self).materials@.len(),
            old(self).wf() ==> final(self).wf(),
    {
        self.materials.push(material);
        self.materials.len() - 1
    }

    /// Finds the first material registered under `name`, scanning in
    /// registration order; `None` when no material carries the name.
    pub fn get_material(&self, name: &String) -> (r: Option<usize>)
        ensures
            r matches Some(i) ==> is_first_material_match(self.materials@, name@, i as int),
            r is None ==> forall|j: int|
                0 <= j < self.materials@.len() ==> (#[trigger] self.materials@[j]).name@ != name@,
    {
        let mut idx: usize = 0;
        while idx < self.materials.len()
            invariant
                idx <= self.materials@.len(),
                forall|j: int|
                    0 <= j < idx ==> (#[trigger] self.materials@[j]).name@ != name@,
            decreases self.materials@.len() - idx,
        {
            if self.materials[idx].name == *name {
                return Some(idx);
            }
            idx += 1;
        }
        None
    }

    /// Decides well-formedness at run time, for hosts that assemble
    /// scenes from unchecked input and must fail fast before drawing.
    pub fn is_well_formed(&self) -> (r: bool)
        ensures
            r == self.wf(),
    {
        let mut i: usize = 0;
        while i < self.objects.len()
            invariant
                i <= self.objects@.len(),
                forall|k: int|
                    0 <= k < i ==> (#[trigger] self.objects@[k]).model_index
                        < self.models@.len(),
                forall|k: int| 0 <= k < i ==> (#[trigger] self.objects@[k]).transform.wf(),
            decreases self.objects@.len() - i,
        {
            if self.objects[i].model_index >= self.models.len() {
                return false;
            }
            if self.objects[i].transform.words.len() != 16 {
                return false;
            }
            i += 1;
        }
        let mut m: usize = 0;
        while m < self.models.len()
            invariant
                m <= self.models@.len(),
                forall|k: int, j: int|
                    0 <= k < m && 0 <= j < self.models@[k].meshes@.len() ==> (
                    #[trigger] self.models@[k].meshes@[j]).material < self.materials@.len(),
                forall|k: int|
                    0 <= k < self.objects@.len() ==> (#[trigger] self.objects@[k]).model_index
                        < self.models@.len(),
                forall|k: int| 0 <= k < self.objects@.len() ==> (#[trigger] self.objects@[k]).transform.wf(),
            decreases self.models@.len() - m,
        {
            let mut j: usize = 0;
            while j < self.models[m].meshes.len()
                invariant
                    m < self.models@.len(),
                    j <= self.models@[m as int].meshes@.len(),
                    forall|jj: int|
                        0 <= jj < j ==> (#[trigger] self.models@[m as int].meshes@[jj]).material
                            < self.materials@.len(),
                decreases self.models@[m as int].meshes@.len() - j,
            {
                if self.models[m].meshes[j].material >= self.materials.len() {
                    return false;
                }
                j += 1;
            }
            m += 1;
        }
        true
    }

    /// Places an object in the world.  The instance may only name a
    /// model already registered, with a complete transform.
    pub fn add_object(&mut self, obj: ModelInstance)
        requires
            old(self).objects@.len() < usize::MAX,
            obj.model_index < old(self).models@.len(),
            obj.transform.wf(),
        ensures
            final(self).objects@ == old(self).objects@.push(obj),
            final(self).materials@ == old(self).materials@,
            final(self).models@ == old(self).models@,
            final(self).light == old(self).light,
            final(self).camera == old(self).camera,
            old(self).wf() ==> final(self).wf(),
    {
        self.objects.push(obj);
    }
}

} // verus!
