//! The scene of a demo: the entities to spawn, in order, and the image to
//! have loaded beside them.

use vstd::prelude::*;
use crate::material::{ImageAsset, Material};
use crate::shader::ShaderNameValue;

verus! {

/// Three whole-number components along the x, y and z axes, by which the
/// unit rectangle is stretched.
#[derive(Clone, Copy, Debug, PartialEq, Eq)]
pub struct Vector {
    pub x: i16,
    pub y: i16,
    pub z: i16,
}

/// One entity of a scene.
#[derive(Clone, Copy, Debug, PartialEq, Eq)]
pub enum Spawn {
    /// The two-dimensional camera.
    Camera,
    /// The unit rectangle drawn with `material` and stretched by `scale`.
    Quad { material: Material, scale: Vector },
}

impl Spawn {
    /// Whether the entity draws something. The camera looks; it draws
    /// nothing.
    pub open spec fn spec_is_renderable(self) -> bool {
        self is Quad
    }

    /// Whether the entity draws something.
    pub fn is_renderable(&self) -> (r: bool)
        ensures
            r == self.spec_is_renderable(),
    {
        match self {
            Spawn::Camera => false,
            Spawn::Quad { .. } => true,
        }
    }
}

impl ShaderNameValue {
    /// The scale of the quad: a square for the smoke over the logo, the
    /// whole window for every other shader.
    pub open spec fn spec_quad_scale(self) -> Vector {
        if self == ShaderNameValue::SmokeRust {
            Vector { x: 720, y: 720, z: 1 }
        } else {
            Vector { x: 1280, y: 720, z: 1 }
        }
    }

    /// The image that a demo has loaded without an entity to show it: the
    /// photo for snow, none for every other shader.
    pub open spec fn spec_preload(self) -> Option<ImageAsset> {
        if self == ShaderNameValue::Snow {
            Some(ImageAsset::Photo)
        } else {
            None
        }
    }

    /// The scale of the quad.
    pub fn quad_scale(&self) -> (r: Vector)
        ensures
            r == self.spec_quad_scale(),
    {
        match self {
            ShaderNameValue::SmokeRust => Vector { x: 720, y: 720, z: 1 },
            _ => Vector { x: 1280, y: 720, z: 1 },
        }
    }

    /// The image that the demo has loaded without an entity to show it.
    pub fn preload(&self) -> (r: Option<ImageAsset>)
        ensures
            r == self.spec_preload(),
    {
        match self {
            ShaderNameValue::Snow => Some(ImageAsset::Photo),
            _ => None,
        }
    }
}

/// The scene of the demo of `name`: the camera, then the quad with the
/// shader's material.
pub open spec fn spec_setup(name: ShaderNameValue) -> Seq<Spawn> {
    seq![
        Spawn::Camera,
        Spawn::Quad { material: name.spec_material(), scale: name.spec_quad_scale() },
    ]
}

/// The entities to spawn for the demo of `name`, in order.
pub fn setup(name: ShaderNameValue) -> (r: Vec<Spawn>)
    ensures
        r@ == spec_setup(name),
{
    let mut scene: Vec<Spawn> = Vec::new();
    scene.push(Spawn::Camera);
    scene.push(Spawn::Quad { material: name.material(), scale: name.quad_scale() });
    assert(scene@ =~= spec_setup(name));
    scene
}

/// Every scene has exactly one entity that draws. It is the last entity, a
/// quad with the material of the shader that was asked for, and that
/// material is well formed.
pub proof fn setup_spawns_one_renderable(name: ShaderNameValue)
    ensures
        spec_setup(name).len() == 2,
        spec_setup(name).last() == (Spawn::Quad {
            material: name.spec_material(),
            scale: name.spec_quad_scale(),
        }),
        name.spec_material().shader == name,
        name.spec_material().wf(),
        forall|i: int|
            0 <= i < spec_setup(name).len() ==> (#[trigger] spec_setup(name)[i]).spec_is_renderable()
                == (i == spec_setup(name).len() - 1),
{
}

/// Every scene has exactly one camera, and it is the first entity.
pub proof fn setup_spawns_one_camera(name: ShaderNameValue)
    ensures
        spec_setup(name)[0] == Spawn::Camera,
        forall|i: int|
            1 <= i < spec_setup(name).len() ==> !(#[trigger] spec_setup(name)[i] is Camera),
{
}

/// Each image of the catalogue is loaded by exactly one demo: the logo as
/// the texture of the smoke over it, the photo beside the scene of snow.
pub proof fn images_are_loaded_by_one_demo(name: ShaderNameValue, image: ImageAsset)
    ensures
        name.spec_material().color_texture == Some(image) <==> name == ShaderNameValue::SmokeRust
            && image == ImageAsset::RustLogo,
        name.spec_preload() == Some(image) <==> name == ShaderNameValue::Snow && image
            == ImageAsset::Photo,
{
}

} // verus!
