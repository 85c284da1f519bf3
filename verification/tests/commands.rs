use femtovg::color::{Color, CHANNEL_ONE_BITS};
use femtovg::composite::{BlendFactor, CompositeOperationState};
use femtovg::paint::GlyphTexture;
use femtovg::params::{Params, ShaderType};
use femtovg::renderer::{Command, CommandType, Drawable, FillRule, RenderTarget, Vertex};
use femtovg::ImageId;

#[test]
fn shader_codes_are_stable() {
    assert_eq!(ShaderType::FillGradient.to_code(), 0);
    assert_eq!(ShaderType::FillImage.to_code(), 1);
    assert_eq!(ShaderType::Stencil.to_code(), 2);
    assert_eq!(ShaderType::FillImageGradient.to_code(), 3);
    assert_eq!(ShaderType::FilterImage.to_code(), 4);
}

#[test]
fn shader_codes_convert_exactly_to_float() {
    assert_eq!(ShaderType::FillGradient.to_code() as f32, 0.0);
    assert_eq!(ShaderType::FillImage.to_code() as f32, 1.0);
    assert_eq!(ShaderType::Stencil.to_code() as f32, 2.0);
    assert_eq!(ShaderType::FillImageGradient.to_code() as f32, 3.0);
    assert_eq!(ShaderType::FilterImage.to_code() as f32, 4.0);
}

#[test]
fn shader_default_is_fill_gradient() {
    assert_eq!(ShaderType::default(), ShaderType::FillGradient);
}

#[test]
fn params_new_selects_shader() {
    let params = Params::new(ShaderType::Stencil);
    assert_eq!(params.shader_type, ShaderType::Stencil);
    assert!(params.uniforms.is_empty());
}

#[test]
fn command_new_defaults() {
    let cmd = Command::new(CommandType::ConvexFill { params: Params::default() });
    assert!(cmd.drawables.is_empty());
    assert!(cmd.triangles_verts.is_none());
    assert!(cmd.image.is_none());
    assert_eq!(cmd.glyph_texture, GlyphTexture::NoTexture);
    assert_eq!(cmd.fill_rule, FillRule::NonZero);
    assert_eq!(
        cmd.composite_operation,
        CompositeOperationState {
            src_rgb: BlendFactor::One,
            dst_rgb: BlendFactor::OneMinusSrcAlpha,
            src_alpha: BlendFactor::One,
            dst_alpha: BlendFactor::OneMinusSrcAlpha,
        }
    );
    assert!(matches!(cmd.cmd_type, CommandType::ConvexFill { .. }));
}

#[test]
fn vertex_packs_coordinate_bits_in_order() {
    let v = Vertex::new(1.5f32.to_bits(), (-2.0f32).to_bits(), 0.25f32.to_bits(), 1.0f32.to_bits());
    assert_eq!(f32::from_bits(v.x), 1.5);
    assert_eq!(f32::from_bits(v.y), -2.0);
    assert_eq!(f32::from_bits(v.u), 0.25);
    assert_eq!(f32::from_bits(v.v), 1.0);
}

#[test]
fn vertex_set_overwrites_all_coordinates() {
    let mut v = Vertex::default();
    v.set(7u32, 8u32, 9u32, 10u32);
    assert_eq!(v, Vertex { x: 7, y: 8, u: 9, v: 10 });
}

#[test]
fn color_black_is_zero_channels_opaque_alpha() {
    let black = Color::black();
    assert_eq!(black.r, 0);
    assert_eq!(black.g, 0);
    assert_eq!(black.b, 0);
    assert_eq!(black.a, CHANNEL_ONE_BITS);
    assert_eq!(f32::from_bits(black.a), 1.0);
}

#[test]
fn drawable_default_has_no_meshes() {
    let d = Drawable::default();
    assert!(d.fill_verts.is_none());
    assert!(d.stroke_verts.is_none());
}

#[test]
fn render_targets_are_ordered_and_comparable() {
    assert_eq!(RenderTarget::Screen, RenderTarget::Screen);
    assert_ne!(RenderTarget::Screen, RenderTarget::Image(ImageId(1)));
    assert!(RenderTarget::Screen < RenderTarget::Image(ImageId(0)));
    assert!(RenderTarget::Image(ImageId(0)) < RenderTarget::Image(ImageId(1)));
}

#[test]
fn glyph_texture_reports_sampled_image() {
    assert_eq!(GlyphTexture::NoTexture.image_id(), None);
    assert_eq!(GlyphTexture::AlphaMask(ImageId(3)).image_id(), Some(ImageId(3)));
    assert_eq!(GlyphTexture::ColorTexture(ImageId(4)).image_id(), Some(ImageId(4)));
}
