use shader_gallery::material::{AlphaMode, CssColor, ImageAsset, Material};
use shader_gallery::shader::ShaderNameValue;

#[test]
fn fragment_shader_of_each_shader() {
    assert_eq!(ShaderNameValue::Water.fragment_shader(), "water_material.wgsl");
    assert_eq!(ShaderNameValue::Goldcube.fragment_shader(), "gold_cube_material.wgsl");
    assert_eq!(ShaderNameValue::Circle.fragment_shader(), "circle_material.wgsl");
    assert_eq!(
        ShaderNameValue::HypnoticCircle.fragment_shader(),
        "hypnotic_circle_material.wgsl"
    );
    assert_eq!(ShaderNameValue::Crystal.fragment_shader(), "crystal_material.wgsl");
    assert_eq!(ShaderNameValue::Stars.fragment_shader(), "stars_material.wgsl");
    assert_eq!(ShaderNameValue::Smoke.fragment_shader(), "smoke_material.wgsl");
    assert_eq!(ShaderNameValue::SmokeRust.fragment_shader(), "smoke_rust_material.wgsl");
    assert_eq!(ShaderNameValue::Snow.fragment_shader(), "snow_material.wgsl");
}

#[test]
fn fragment_shaders_differ_between_shaders() {
    let all = ShaderNameValue::value_variants();
    for i in 0..all.len() {
        for j in 0..all.len() {
            assert_eq!(all[i].fragment_shader() == all[j].fragment_shader(), i == j);
        }
    }
}

#[test]
fn fragment_shaders_are_wgsl_files() {
    for v in ShaderNameValue::value_variants() {
        let path = v.fragment_shader();
        assert!(path.ends_with(".wgsl"));
        assert!(path.len() > ".wgsl".len());
    }
}

#[test]
fn alpha_mode_of_each_shader() {
    assert_eq!(ShaderNameValue::Water.alpha_mode(), AlphaMode::Opaque);
    assert_eq!(ShaderNameValue::Goldcube.alpha_mode(), AlphaMode::Opaque);
    assert_eq!(ShaderNameValue::Circle.alpha_mode(), AlphaMode::Opaque);
    assert_eq!(ShaderNameValue::HypnoticCircle.alpha_mode(), AlphaMode::Opaque);
    assert_eq!(ShaderNameValue::Crystal.alpha_mode(), AlphaMode::Opaque);
    assert_eq!(ShaderNameValue::Stars.alpha_mode(), AlphaMode::Opaque);
    assert_eq!(ShaderNameValue::Smoke.alpha_mode(), AlphaMode::Opaque);
    assert_eq!(ShaderNameValue::SmokeRust.alpha_mode(), AlphaMode::Blend);
    assert_eq!(ShaderNameValue::Snow.alpha_mode(), AlphaMode::Blend);
}

#[test]
fn only_smoke_rust_samples_a_texture() {
    for v in ShaderNameValue::value_variants() {
        assert_eq!(v.samples_texture(), v == ShaderNameValue::SmokeRust);
    }
}

#[test]
fn material_of_a_plain_shader_is_gold_without_texture() {
    assert_eq!(
        ShaderNameValue::Water.material(),
        Material { shader: ShaderNameValue::Water, color: CssColor::Gold, color_texture: None }
    );
    assert_eq!(
        ShaderNameValue::Stars.material(),
        Material { shader: ShaderNameValue::Stars, color: CssColor::Gold, color_texture: None }
    );
}

#[test]
fn material_of_smoke_rust_carries_the_logo() {
    assert_eq!(
        ShaderNameValue::SmokeRust.material(),
        Material {
            shader: ShaderNameValue::SmokeRust,
            color: CssColor::Gold,
            color_texture: Some(ImageAsset::RustLogo),
        }
    );
}

#[test]
fn material_of_snow_is_white() {
    assert_eq!(
        ShaderNameValue::Snow.material(),
        Material { shader: ShaderNameValue::Snow, color: CssColor::White, color_texture: None }
    );
}

#[test]
fn material_of_each_shader() {
    for v in ShaderNameValue::value_variants() {
        let m = v.material();
        assert_eq!(m.shader, v);
        let white = v == ShaderNameValue::Snow;
        assert_eq!(m.color, if white { CssColor::White } else { CssColor::Gold });
        let textured = v == ShaderNameValue::SmokeRust;
        assert_eq!(m.color_texture, if textured { Some(ImageAsset::RustLogo) } else { None });
    }
}

#[test]
fn materials_carry_a_texture_only_where_it_is_sampled() {
    for v in ShaderNameValue::value_variants() {
        let m = v.material();
        assert!(m.color_texture.is_none() || m.shader.samples_texture());
    }
}

#[test]
fn image_paths() {
    assert_eq!(ImageAsset::RustLogo.path(), "rust_logo.png");
    assert_eq!(ImageAsset::Photo.path(), "photo.png");
}
