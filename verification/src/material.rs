//! What each shader's material is made of: the fragment shader file, the way
//! it blends, its colour and its texture.

use vstd::prelude::*;
use crate::shader::ShaderNameValue;

verus! {

/// How a material's output is combined with what was drawn behind it.
#[derive(Clone, Copy, Debug, PartialEq, Eq, Structural)]
pub enum AlphaMode {
    /// The material covers what is behind it.
    Opaque,
    /// The material's alpha decides how much of what is behind it shows.
    Blend,
}

/// A colour of the CSS palette, by its name.
#[derive(Clone, Copy, Debug, PartialEq, Eq, Structural)]
pub enum CssColor {
    Gold,
    White,
}

/// An image file among the assets.
#[derive(Clone, Copy, Debug, PartialEq, Eq, Structural)]
pub enum ImageAsset {
    RustLogo,
    Photo,
}

impl ImageAsset {
    /// The path of the image file, relative to the asset directory.
    pub open spec fn spec_path(self) -> Seq<char> {
        match self {
            ImageAsset::RustLogo => "rust_logo.png"@,
            ImageAsset::Photo => "photo.png"@,
        }
    }

    /// The path of the image file, relative to the asset directory.
    pub fn path(&self) -> (r: &'static str)
        ensures
            r@ == self.spec_path(),
    {
        match self {
            ImageAsset::RustLogo => "rust_logo.png",
            ImageAsset::Photo => "photo.png",
        }
    }
}

/// The values that a shader reads when it draws: a colour and, for the one
/// shader that samples a texture, an image.
#[derive(Clone, Copy, Debug, PartialEq, Eq)]
pub struct Material {
    pub shader: ShaderNameValue,
    pub color: CssColor,
    pub color_texture: Option<ImageAsset>,
}

impl Material {
    /// A material is well formed when it carries a texture only for a shader
    /// that samples one.
    pub open spec fn wf(self) -> bool {
        self.color_texture is Some ==> self.shader.spec_samples_texture()
    }
}

impl ShaderNameValue {
    /// The path of the fragment shader file, relative to the asset directory.
    pub open spec fn spec_fragment_shader(self) -> Seq<char> {
        match self {
            ShaderNameValue::Water => "water_material.wgsl"@,
            ShaderNameValue::Goldcube => "gold_cube_material.wgsl"@,
            ShaderNameValue::Circle => "circle_material.wgsl"@,
            ShaderNameValue::HypnoticCircle => "hypnotic_circle_material.wgsl"@,
            ShaderNameValue::Crystal => "crystal_material.wgsl"@,
            ShaderNameValue::Stars => "stars_material.wgsl"@,
            ShaderNameValue::Smoke => "smoke_material.wgsl"@,
            ShaderNameValue::SmokeRust => "smoke_rust_material.wgsl"@,
            ShaderNameValue::Snow => "snow_material.wgsl"@,
        }
    }

    /// Smoke over the logo and snow are blended over what is behind them;
    /// every other material is opaque.
    pub open spec fn spec_alpha_mode(self) -> AlphaMode {
        if self == ShaderNameValue::SmokeRust || self == ShaderNameValue::Snow {
            AlphaMode::Blend
        } else {
            AlphaMode::Opaque
        }
    }

    /// Only the smoke over the logo has a slot for a texture.
    pub open spec fn spec_samples_texture(self) -> bool {
        self == ShaderNameValue::SmokeRust
    }

    /// The material that the demo of this shader draws with: white for snow
    /// and gold for all others, and the logo as texture where the shader
    /// samples one.
    pub open spec fn spec_material(self) -> Material {
        Material {
            shader: self,
            color: if self == ShaderNameValue::Snow {
                CssColor::White
            } else {
                CssColor::Gold
            },
            color_texture: if self.spec_samples_texture() {
                Some(ImageAsset::RustLogo)
            } else {
                None
            },
        }
    }

    /// The path of the fragment shader file, relative to the asset directory.
    pub fn fragment_shader(&self) -> (r: &'static str)
        ensures
            r@ == self.spec_fragment_shader(),
    {
        match self {
            ShaderNameValue::Water => "water_material.wgsl",
            ShaderNameValue::Goldcube => "gold_cube_material.wgsl",
            ShaderNameValue::Circle => "circle_material.wgsl",
            ShaderNameValue::HypnoticCircle => "hypnotic_circle_material.wgsl",
            ShaderNameValue::Crystal => "crystal_material.wgsl",
            ShaderNameValue::Stars => "stars_material.wgsl",
            ShaderNameValue::Smoke => "smoke_material.wgsl",
            ShaderNameValue::SmokeRust => "smoke_rust_material.wgsl",
            ShaderNameValue::Snow => "snow_material.wgsl",
        }
    }

    /// How the material of this shader blends.
    pub fn alpha_mode(&self) -> (r: AlphaMode)
        ensures
            r == self.spec_alpha_mode(),
    {
        match self {
            ShaderNameValue::SmokeRust | ShaderNameValue::Snow => AlphaMode::Blend,
            _ => AlphaMode::Opaque,
        }
    }

    /// Whether the shader samples a texture.
    pub fn samples_texture(&self) -> (r: bool)
        ensures
            r == self.spec_samples_texture(),
    {
        matches!(self, ShaderNameValue::SmokeRust)
    }

    /// The material that the demo of this shader draws with.
    pub fn material(&self) -> (r: Material)
        ensures
            r == self.spec_material(),
            r.wf(),
    {
        let color = match self {
            ShaderNameValue::Snow => CssColor::White,
            _ => CssColor::Gold,
        };
        let color_texture = if self.samples_texture() {
            Some(ImageAsset::RustLogo)
        } else {
            None
        };
        Material { shader: *self, color, color_texture }
    }
}

/// What the paths of the fragment shaders have in common and what tells
/// them apart, read off the nine paths themselves.
proof fn fragment_shader_paths(a: ShaderNameValue, b: ShaderNameValue)
    ensures
        a.spec_fragment_shader() == b.spec_fragment_shader() ==> a == b,
        a.spec_fragment_shader().len() > 5,
        a.spec_fragment_shader().skip(a.spec_fragment_shader().len() - 5) == ".wgsl"@,
{
    reveal_strlit("water_material.wgsl");
    reveal_strlit("gold_cube_material.wgsl");
    reveal_strlit("circle_material.wgsl");
    reveal_strlit("hypnotic_circle_material.wgsl");
    reveal_strlit("crystal_material.wgsl");
    reveal_strlit("stars_material.wgsl");
    reveal_strlit("smoke_material.wgsl");
    reveal_strlit("smoke_rust_material.wgsl");
    reveal_strlit("snow_material.wgsl");
    reveal_strlit(".wgsl");
    let s = a.spec_fragment_shader();
    let t = b.spec_fragment_shader();
    if a != b {
        assert(s.len() != t.len() || s[0] != t[0] || s[1] != t[1]);
    }
    assert(s.skip(s.len() - 5) =~= ".wgsl"@);
}

/// Each shader has a fragment shader file of its own: no two shaders share
/// a path.
pub proof fn fragment_shaders_are_distinct(a: ShaderNameValue, b: ShaderNameValue)
    requires
        a.spec_fragment_shader() == b.spec_fragment_shader(),
    ensures
        a == b,
{
    fragment_shader_paths(a, b);
}

/// Every fragment shader is a WGSL file.
pub proof fn fragment_shaders_are_wgsl(v: ShaderNameValue)
    ensures
        v.spec_fragment_shader().len() > 5,
        v.spec_fragment_shader().skip(v.spec_fragment_shader().len() - 5) == ".wgsl"@,
{
    fragment_shader_paths(v, v);
}

} // verus!
