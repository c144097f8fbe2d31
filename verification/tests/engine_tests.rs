use diego::display::types::{Position, Size};
use diego::display::window::WindowSettings;
use diego::geometry::dimension::{Dimension2D, Dimension3D};
use diego::gl::color::ColorError;
use diego::gl::types::{BufferType, BufferUsage, Capability, GlGetParameter};
use diego::glx::vertex_attribute::VertexAttribute;
use diego::glx::vertex_attribute_type::VertexAttributeType;
use diego::glx::vertex_data_type::VertexDataType;
use diego::glx::vertex_layout::DynamicVertexLayout;
use diego::logging::console_logger::ConsoleTarget;
use diego::logging::log_manager::{LogError, LogManager};
use diego::logging::log_target::FileTarget;
use diego::logging::{LogLevel, LogTarget};
use diego::runtime::diego_runtime::{
    add_log_message, add_logger, check_opengl_errors, clear_all_loggers, get_logger_count,
    remove_logger, set_check_opengl_errors, try_add_logger, try_remove_logger, try_update_logger,
    update_logger, DiegoRuntimeInternal,
};
use diego::runtime::runtime_error::RuntimeError;
use diego::runtime::runtime_info::RuntimeInfo;
use diego::runtime::string_utils::{is_none_or_whitespace, is_whitespace, str_eq};
use diego::runtime::{ConversionError, SizeOf};

#[test]
fn test_string_utils_whitespace() {
    assert!(is_whitespace(""));
    assert!(is_whitespace(" \t\r\n"));
    assert!(is_whitespace("\u{00A0}\u{2003}"));
    assert!(!is_whitespace(" a "));
    assert!(is_none_or_whitespace(None));
    assert!(is_none_or_whitespace(Some("  ")));
    assert!(!is_none_or_whitespace(Some("x")));
}

#[test]
fn test_string_utils_str_eq() {
    assert!(str_eq("abc", "abc"));
    assert!(!str_eq("abc", "abd"));
    assert!(!str_eq("abc", "ab"));
    assert!(str_eq("", ""));
}

#[test]
fn test_runtime_flags() {
    let mut runtime = DiegoRuntimeInternal::new();
    assert!(!check_opengl_errors(&runtime));
    set_check_opengl_errors(&mut runtime, true);
    assert!(check_opengl_errors(&runtime));
    set_check_opengl_errors(&mut runtime, false);
    assert!(!check_opengl_errors(&runtime));
}

#[test]
fn test_facade_logger_lifecycle() {
    let mut manager = LogManager::new();
    let console = LogTarget::Console(ConsoleTarget {
        level: LogLevel::Trace,
        format: "${message}".to_string(),
    });
    assert!(add_logger(&mut manager, "c1", console).is_ok());
    assert_eq!(get_logger_count(&manager), 1);
    let dup = LogTarget::Console(ConsoleTarget::default());
    assert!(matches!(
        add_logger(&mut manager, "c1", dup),
        Err(LogError::LoggerExists(_))
    ));
    assert!(update_logger(
        &mut manager,
        "c1",
        LogTarget::Console(ConsoleTarget { level: LogLevel::Info, format: "x".to_string() })
    )
    .is_ok());
    add_log_message(&mut manager, LogLevel::Info, "hello");
    assert!(remove_logger(&mut manager, "c1").is_ok());
    assert!(matches!(
        remove_logger(&mut manager, "c1"),
        Err(LogError::LoggerNotFound(_))
    ));
    assert_eq!(get_logger_count(&manager), 0);
}

#[test]
fn test_facade_try_variants() {
    let mut manager = LogManager::new();
    let mk = || LogTarget::Console(ConsoleTarget::default());
    assert!(try_add_logger(&mut manager, "c", mk()));
    assert!(!try_add_logger(&mut manager, "c", mk()));
    assert!(!try_add_logger(&mut manager, "", mk()));
    assert!(try_update_logger(&mut manager, "c", mk()));
    let wrong = LogTarget::File(FileTarget { level: LogLevel::Info, target_file: "f".to_string() });
    assert!(!try_update_logger(&mut manager, "c", wrong));
    assert!(try_remove_logger(&mut manager, "c"));
    assert!(!try_remove_logger(&mut manager, "c"));
    assert_eq!(clear_all_loggers(&mut manager), 0);
}

#[test]
fn test_size_and_position() {
    let s = Size::new(1920, 1080);
    assert_eq!(s.width, 1920);
    assert_eq!(s.height, 1080);
    assert_eq!(s, Size { width: 1920, height: 1080 });
    let p = Position::new(-10, 20);
    assert_eq!(p.x, -10);
    assert_eq!(p.y, 20);
}

#[test]
fn test_window_settings_defaults_and_builders() {
    let s = WindowSettings::default();
    assert_eq!(s.get_title(), "DIEGO");
    assert_eq!(s.get_size(), Size::new(800, 600));
    assert!(!s.get_resizable());
    assert!(s.get_visible());
    assert!(s.get_exit_on_esc());

    let s = WindowSettings::default()
        .with_title("demo")
        .with_size(Size::new(640, 480))
        .with_vsync(true)
        .with_resizable(true)
        .with_visible(false)
        .with_exit_on_esc(false);
    assert_eq!(s.get_title(), "demo");
    assert_eq!(s.get_size(), Size::new(640, 480));
    assert!(s.get_resizable());
    assert!(!s.get_visible());
    assert!(!s.get_exit_on_esc());
}

#[test]
fn test_dimensions() {
    let d2: Dimension2D<i32> = Dimension2D::new(1920, 1080);
    assert_eq!(d2.width, 1920);
    assert_eq!(d2.height, 1080);
    let d3: Dimension3D<u32> = Dimension3D::new(4, 5, 6);
    assert_eq!(d3.width, 4);
    assert_eq!(d3.height, 5);
    assert_eq!(d3.depth, 6);
}

#[test]
fn test_vertex_data_type_sizes() {
    assert_eq!(VertexDataType::Byte.size(), 1);
    assert_eq!(VertexDataType::Short.size(), 2);
    assert_eq!(VertexDataType::Float.size(), 4);
    assert_eq!(VertexDataType::Double.size(), 8);
    assert_eq!(VertexDataType::Fixed.size(), 4);
    assert_eq!(VertexDataType::UnsignedInt_2_10_10_10_Rev.size(), 4);
}

#[test]
fn test_vertex_attribute_builders_and_size() {
    let a = VertexAttribute::new(3, VertexDataType::Float)
        .with_name(Some("position".to_string()))
        .with_normalized(true)
        .with_stride(32)
        .with_offset(Some(12));
    assert_eq!(a.components, 3);
    assert_eq!(a.data_type, VertexDataType::Float);
    assert!(a.normalized);
    assert_eq!(a.stride, 32);
    assert_eq!(a.offset, Some(12));
    assert_eq!(a.calculate_size(), 12);
    let b = a.clone().with_components(2).with_data_type(VertexDataType::Short);
    assert_eq!(b.calculate_size(), 4);
}

#[test]
fn test_vertex_attribute_equality_ignores_name() {
    let a = VertexAttribute::new(3, VertexDataType::Float).with_name(Some("a".to_string()));
    let b = VertexAttribute::new(3, VertexDataType::Float).with_name(Some("b".to_string()));
    assert_eq!(a, b);
    let c = VertexAttribute::new(2, VertexDataType::Float);
    assert_ne!(a, c);
}

#[test]
fn test_vertex_attribute_type_conversion() {
    assert_eq!(VertexAttributeType::Position.components(), 3);
    assert_eq!(VertexAttributeType::Color.components(), 4);
    let attrs = VertexAttributeType::convert_attributes(&vec![
        VertexAttributeType::Position,
        VertexAttributeType::TexCoords,
    ]);
    assert_eq!(attrs.len(), 2);
    assert_eq!(attrs[0].components, 3);
    assert_eq!(attrs[0].name.as_deref(), Some("position"));
    assert_eq!(attrs[1].components, 2);
    assert_eq!(attrs[1].name.as_deref(), Some("tex_coord"));
}

#[test]
fn test_dynamic_vertex_layout_finalize() {
    let attrs = vec![
        VertexAttribute::new(3, VertexDataType::Float),
        VertexAttribute::new(2, VertexDataType::Float),
    ];
    let mut layout = DynamicVertexLayout::from_attributes(&attrs);
    assert_eq!(layout.layout_size(), 20);
    layout.finalize_attributes();
    let finalized = layout.get_attributes();
    assert_eq!(finalized.len(), 2);
    assert_eq!(finalized[0].stride, 20);
    assert_eq!(finalized[1].stride, 20);
    assert_eq!(finalized[0].offset, Some(0));
    assert_eq!(finalized[1].offset, Some(12));
}

#[test]
fn test_dynamic_vertex_layout_finalize_keeps_explicit_values() {
    let attrs = vec![
        VertexAttribute::new(4, VertexDataType::UnsignedByte).with_stride(16).with_offset(Some(3)),
        VertexAttribute::new(1, VertexDataType::Int),
    ];
    let mut layout = DynamicVertexLayout::from_attributes(&attrs);
    layout.finalize_attributes();
    let finalized = layout.get_attributes();
    // Explicit stride and offset are kept; missing ones are derived.
    assert_eq!(finalized[0].stride, 16);
    assert_eq!(finalized[0].offset, Some(3));
    assert_eq!(finalized[1].stride, 8);
    assert_eq!(finalized[1].offset, Some(4));
}

#[test]
fn test_dynamic_vertex_layout_add_attribute() {
    let mut layout = DynamicVertexLayout::default();
    assert_eq!(layout.get_attributes().len(), 0);
    layout.add_attribute(VertexAttribute::new(3, VertexDataType::Float));
    assert_eq!(layout.get_attributes().len(), 1);
    assert_eq!(layout.layout_size(), 12);
}

#[test]
fn test_error_types_construct() {
    let info = RuntimeInfo::new("main.rs", "demo", 7, Some("failed".to_string()));
    assert_eq!(info.line, 7);
    let short = RuntimeInfo::without_message("main.rs", "demo", 9);
    assert!(short.message.is_none());
    let e = RuntimeError::OpenGLError(info, Some(1282));
    assert!(matches!(e, RuntimeError::OpenGLError(_, Some(1282))));
    let c: ConversionError<u32> = ConversionError::InvalidValue(99);
    assert!(matches!(c, ConversionError::InvalidValue(99)));
    assert!(matches!(ColorError::InvalidHexLength, ColorError::InvalidHexLength));
    assert!(matches!(ColorError::InvalidHexCharacter, ColorError::InvalidHexCharacter));
}

#[test]
fn test_gl_enum_variants_exist() {
    let _ = Capability::Blend;
    let _ = Capability::DepthTest;
    let _ = GlGetParameter::MaxTextureSize;
    let _ = BufferType::ArrayBuffer;
    let usage = BufferUsage::StaticDraw;
    assert!(matches!(usage, BufferUsage::StaticDraw));
}
