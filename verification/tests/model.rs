use mocha_core::buffer::{interleave_offsets, BufferElement};
use mocha_core::component::Component;
use mocha_core::layout::{Offset, Orientation, Padding, Position, Size};
use mocha_core::shader::ShaderDataType;
use mocha_core::style::{BorderRadius, Colour, StyleSheet};
use mocha_core::window::WindowConfig;

#[test]
fn offset_and_padding_constructors() {
    let o = Offset::new(3, -4);
    assert_eq!((o.x, o.y), (3, -4));
    let z = Offset::none();
    assert_eq!((z.x, z.y), (0, 0));
    let p = Padding::none();
    assert_eq!((p.top, p.right, p.bottom, p.left), (0, 0, 0, 0));
}

#[test]
fn colours_and_radii() {
    let w = Colour::white();
    assert_eq!((w.r, w.g, w.b), (255, 255, 255));
    let b = Colour::black();
    assert_eq!((b.r, b.g, b.b), (0, 0, 0));
    let c = Colour::new(12, 34, 56);
    assert_eq!((c.r, c.g, c.b), (12, 34, 56));
    let r = BorderRadius::none();
    assert_eq!((r.top_right, r.bottom_right, r.bottom_left, r.top_left), (0, 0, 0, 0));
}

#[test]
fn style_sheets() {
    let light = StyleSheet::light();
    assert_eq!(light.background_colour, Colour::white());
    assert_eq!(light.font_colour, Colour::black());
    assert_eq!(light.opacity, 255);
    assert_eq!(light.font_size, 16);
    assert_eq!(light.font_weight, 600);
    assert_eq!(light.border_weight, 0);

    let dark = StyleSheet::dark();
    assert_eq!(dark.background_colour, Colour::black());
    assert_eq!(dark.font_colour, Colour::white());
}

#[test]
fn component_defaults() {
    let c = Component::new();
    assert_eq!(c.layout.orientation, Orientation::Row);
    assert_eq!(c.layout.position, Position::Static);
    assert_eq!(c.layout.width, Size::Constant(300));
    assert_eq!(c.layout.height, Size::Constant(200));
    assert_eq!(c.computed_layout.width, 0);
    assert_eq!(c.computed_layout.height, 0);
    assert_eq!(c.computed_layout.position.x, 0);
    assert_eq!(c.style, StyleSheet::light());
}

#[test]
fn window_config_default() {
    let w = WindowConfig::default();
    assert_eq!(w.title, "Mocha App");
    assert_eq!(w.size, (640, 480));
    assert!(w.resizable);
    assert!(!w.maximised);
    assert!(!w.fullscreen);
}

#[test]
fn shader_data_type_sizes() {
    assert_eq!(ShaderDataType::Float1.element_count(), 1);
    assert_eq!(ShaderDataType::Float3.element_count(), 3);
    assert_eq!(ShaderDataType::Mat3f.element_count(), 9);
    assert_eq!(ShaderDataType::Mat4f.element_count(), 16);
    assert_eq!(ShaderDataType::Uint4.element_count(), 4);
    assert_eq!(ShaderDataType::Int2.size_bytes(), 8);
    assert_eq!(ShaderDataType::Float4.size_bytes(), 16);
    assert_eq!(ShaderDataType::Mat2f.size_bytes(), 16);
    assert_eq!(ShaderDataType::Mat4f.size_bytes(), 64);
}

#[test]
fn buffer_element_new() {
    let e = BufferElement::new(ShaderDataType::Float3, "colours");
    assert_eq!(e.name, "colours");
    assert_eq!(e.count, 3);
    assert_eq!(e.offset, 0);
    assert!(!e.normalised);
}

#[test]
fn interleaved_offsets_pack_tightly() {
    // the draw primitive's vertex layout: offsets are running byte sums and
    // the stride is the full record
    let mut elements = vec![
        BufferElement::new(ShaderDataType::Float2, "positions"),
        BufferElement::new(ShaderDataType::Float2, "dimensions"),
        BufferElement::new(ShaderDataType::Float3, "colours"),
        BufferElement::new(ShaderDataType::Float1, "opacity"),
        BufferElement::new(ShaderDataType::Float3, "border_colours"),
        BufferElement::new(ShaderDataType::Float4, "border_radii"),
        BufferElement::new(ShaderDataType::Float1, "border_weights"),
    ];
    let stride = interleave_offsets(&mut elements);
    let offsets: Vec<u32> = elements.iter().map(|e| e.offset).collect();
    assert_eq!(offsets, vec![0, 8, 16, 28, 32, 44, 60]);
    assert_eq!(stride, 64);
}
