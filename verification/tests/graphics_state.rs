use ggez_graphics::backend::{Api, DefaultShaders, GlBackendSpec};
use ggez_graphics::conf::{Backend, FullscreenType, WindowMode};
use ggez_graphics::error::{BufferCreationError, GameError, GameResult};
use ggez_graphics::graphics::{
    check_screenshot_target, default_filter, draw, origin, pop_transform, projection, push_transform,
    renderer_info, screen_coordinates, set_blend_mode, set_default_filter, set_drawable_size,
    set_fullscreen, set_mode, set_projection, set_resizable, set_screen_coordinates, set_transform,
    transform, Context, Drawable,
};
use ggez_graphics::sampler::{FilterMethod, SamplerCache, SamplerInfo, WrapMode};
use ggez_graphics::text::{DeviceInfo, GlVersion};
use ggez_graphics::types::{AaMode, BlendMode, DrawParam, FilterMode, InstanceProperties, Matrix4, Rect, ONE_BITS};
use std::cell::Cell;

fn bits(v: f32) -> u32 {
    v.to_bits()
}

fn window_mode() -> WindowMode {
    WindowMode {
        width: bits(800.0),
        height: bits(600.0),
        maximized: false,
        fullscreen_type: FullscreenType::Windowed,
        borderless: false,
        min_width: 0,
        min_height: 0,
        max_width: 0,
        max_height: 0,
        hidpi: false,
        resizable: false,
    }
}

fn screen() -> Rect {
    Rect { x: 0, y: 0, w: bits(800.0), h: bits(600.0) }
}

fn matrix(v: f32) -> Matrix4 {
    Matrix4 { m: [bits(v); 16] }
}

fn context() -> Context {
    Context::new(
        GlBackendSpec::default(),
        window_mode(),
        screen(),
        matrix(2.0),
        SamplerInfo::new(FilterMethod::Bilinear, WrapMode::Clamp),
        vec![BlendMode::Alpha, BlendMode::Add, BlendMode::Multiply],
    )
}

fn identity_bits() -> [u32; 16] {
    let mut m = [0u32; 16];
    for i in 0..4 {
        m[i * 5] = bits(1.0);
    }
    m
}

#[test]
fn one_bits_is_the_bit_pattern_of_one() {
    assert_eq!(ONE_BITS, 1.0f32.to_bits());
}

#[test]
fn backend_from_opengl_keeps_version() {
    let s = GlBackendSpec::from(Backend::OpenGL { major: 4, minor: 5 });
    assert_eq!(s.version_tuple(), (4, 5));
    assert_eq!(s.api(), Api::OpenGl);
    assert_eq!(s.shaders(), DefaultShaders::Glsl150);
}

#[test]
fn backend_from_opengles_keeps_version() {
    let s = GlBackendSpec::from(Backend::OpenGLES { major: 3, minor: 0 });
    assert_eq!(s.version_tuple(), (3, 0));
    assert_eq!(s.api(), Api::OpenGlEs);
    assert_eq!(s.shaders(), DefaultShaders::GlslEs300);
}

#[test]
fn default_backend_is_opengl_3_2() {
    let s = GlBackendSpec::default();
    assert_eq!(s.version_tuple(), (3, 2));
    assert_eq!(s.api(), Api::OpenGl);
    assert_eq!(s, GlBackendSpec::new(3, 2, Api::OpenGl));
    assert_eq!(GlBackendSpec::from(Backend::OpenGL { major: 3, minor: 2 }), s);
    assert_ne!(GlBackendSpec::from(Backend::OpenGLES { major: 3, minor: 2 }), s);
}

fn version(major: u32, minor: u32, revision: Option<u32>, vendor_info: &str) -> GlVersion {
    GlVersion { is_embedded: false, major, minor, revision, vendor_info: vendor_info.to_string() }
}

fn device() -> DeviceInfo {
    DeviceInfo {
        vendor: "Mesa".to_string(),
        renderer: "llvmpipe".to_string(),
        version: version(4, 5, Some(0), "Mesa 20.0.8"),
        shading_language: version(4, 50, None, ""),
    }
}

#[test]
fn backend_info_formats_versions() {
    let s = GlBackendSpec::default();
    assert_eq!(
        s.info(&device()),
        "Driver vendor: Mesa, renderer llvmpipe, version 4.5.0, Mesa 20.0.8, shading language 4.50"
    );
    let other = DeviceInfo {
        vendor: String::new(),
        renderer: "r".to_string(),
        version: version(3, 3, None, "vendor"),
        shading_language: version(1, 30, Some(12), ""),
    };
    assert_eq!(s.info(&other), "Driver vendor: , renderer r, version 3.3, vendor, shading language 1.30.12");
}

#[test]
fn renderer_info_describes_request_and_device() {
    let ctx = context();
    let info = renderer_info(&ctx, &device()).unwrap();
    assert_eq!(
        info,
        "Requested OpenGl 3.2 Core profile, actually got Driver vendor: Mesa, renderer llvmpipe, version 4.5.0, Mesa 20.0.8, shading language 4.50."
    );
}

#[test]
fn renderer_info_writes_multi_digit_versions() {
    let ctx = Context::new(
        GlBackendSpec::new(255, 10, Api::OpenGlEs),
        window_mode(),
        screen(),
        matrix(1.0),
        SamplerInfo::new(FilterMethod::Scale, WrapMode::Tile),
        vec![],
    );
    let info = renderer_info(&ctx, &device()).unwrap();
    assert!(info.starts_with("Requested OpenGlEs 255.10 Core profile, actually got Driver vendor: Mesa"));
    let web = Context::new(
        GlBackendSpec::new(0, 9, Api::WebGl),
        window_mode(),
        screen(),
        matrix(1.0),
        SamplerInfo::new(FilterMethod::Scale, WrapMode::Tile),
        vec![],
    );
    assert!(renderer_info(&web, &device()).unwrap().starts_with("Requested WebGl 0.9 Core profile"));
}

#[test]
fn default_instance_properties() {
    let p = InstanceProperties::default();
    let one = bits(1.0);
    assert_eq!(p.col1, [one, 0, 0, 0]);
    assert_eq!(p.col2, [0, one, 0, 0]);
    assert_eq!(p.col3, [one, 0, one, 0]);
    assert_eq!(p.col4, [one, 0, 0, one]);
    assert_eq!(p.src, [0, 0, one, one]);
    assert_eq!(p.color, [one, one, one, one]);
}

#[test]
fn buffer_creation_errors_become_render_errors() {
    let bind = GameError::from_buffer_creation_error(BufferCreationError::UnsupportedBind("SHADER_RESOURCE".to_string()));
    assert!(matches!(bind, GameError::RenderError(ref m) if m == "Could not create buffer: Unsupported Bind (SHADER_RESOURCE)"));
    let usage = GameError::from_buffer_creation_error(BufferCreationError::UnsupportedUsage("Dynamic".to_string()));
    assert!(matches!(usage, GameError::RenderError(ref m) if m == "Could not create buffer: Unsupported Usage (Dynamic)"));
    let other = GameError::from_buffer_creation_error(BufferCreationError::Other);
    assert!(matches!(other, GameError::RenderError(ref m) if m == "Could not create buffer: Unknown error"));
}

#[test]
fn new_context_has_identity_transform() {
    let ctx = context();
    assert_eq!(transform(&ctx).m, identity_bits());
    assert_eq!(ctx.transform_stack_depth(), 0);
    assert_eq!(ctx.blend_mode(), BlendMode::Alpha);
    assert_eq!(Matrix4::identity().m, identity_bits());
}

#[test]
fn push_then_pop_restores_transform() {
    let mut ctx = context();
    push_transform(&mut ctx, Some(matrix(3.0)));
    assert_eq!(transform(&ctx).m, matrix(3.0).m);
    assert_eq!(ctx.transform_stack_depth(), 1);
    pop_transform(&mut ctx);
    assert_eq!(transform(&ctx).m, identity_bits());
    assert_eq!(ctx.transform_stack_depth(), 0);
}

#[test]
fn push_none_copies_current_transform() {
    let mut ctx = context();
    set_transform(&mut ctx, matrix(5.0));
    push_transform(&mut ctx, None);
    assert_eq!(ctx.transform_stack_depth(), 1);
    assert_eq!(transform(&ctx).m, matrix(5.0).m);
    set_transform(&mut ctx, matrix(6.0));
    pop_transform(&mut ctx);
    assert_eq!(transform(&ctx).m, matrix(5.0).m);
}

#[test]
fn pop_keeps_the_last_transform() {
    let mut ctx = context();
    set_transform(&mut ctx, matrix(7.0));
    pop_transform(&mut ctx);
    pop_transform(&mut ctx);
    assert_eq!(ctx.transform_stack_depth(), 0);
    assert_eq!(transform(&ctx).m, matrix(7.0).m);
}

#[test]
fn origin_resets_only_the_current_transform() {
    let mut ctx = context();
    set_transform(&mut ctx, matrix(8.0));
    push_transform(&mut ctx, Some(matrix(9.0)));
    origin(&mut ctx);
    assert_eq!(transform(&ctx).m, identity_bits());
    pop_transform(&mut ctx);
    assert_eq!(transform(&ctx).m, matrix(8.0).m);
}

#[test]
fn screen_coordinates_and_projection_round_trip() {
    let mut ctx = context();
    assert_eq!(screen_coordinates(&ctx), screen());
    assert_eq!(projection(&ctx).m, matrix(2.0).m);
    let r = Rect { x: bits(-1.0), y: bits(1.0), w: bits(2.0), h: bits(-2.0) };
    set_screen_coordinates(&mut ctx, r, matrix(4.0));
    assert_eq!(screen_coordinates(&ctx), r);
    assert_eq!(projection(&ctx).m, matrix(4.0).m);
    set_projection(&mut ctx, matrix(0.5));
    assert_eq!(projection(&ctx).m, matrix(0.5).m);
    assert_eq!(screen_coordinates(&ctx), r);
}

#[test]
fn default_filter_round_trips_and_creates_sampler_once() {
    let mut ctx = context();
    assert_eq!(default_filter(&ctx), FilterMode::Linear);
    let mut cache: SamplerCache<u32> = SamplerCache::new();
    let created = Cell::new(0u32);
    let make = |_info: SamplerInfo| {
        created.set(created.get() + 1);
        created.get()
    };
    set_default_filter(&mut ctx, &mut cache, FilterMode::Nearest, make);
    assert_eq!(default_filter(&ctx), FilterMode::Nearest);
    assert_eq!(created.get(), 1);
    assert!(cache.contains(&SamplerInfo::new(FilterMethod::Scale, WrapMode::Clamp)));
    set_default_filter(&mut ctx, &mut cache, FilterMode::Linear, make);
    assert_eq!(default_filter(&ctx), FilterMode::Linear);
    assert_eq!(created.get(), 2);
    set_default_filter(&mut ctx, &mut cache, FilterMode::Nearest, make);
    assert_eq!(created.get(), 2);
    assert_eq!(cache.len(), 2);
}

#[test]
fn filter_mode_conversions() {
    assert_eq!(FilterMethod::from(FilterMode::Nearest), FilterMethod::Scale);
    assert_eq!(FilterMethod::from(FilterMode::Linear), FilterMethod::Bilinear);
    assert_eq!(FilterMode::from(FilterMethod::Scale), FilterMode::Nearest);
    assert_eq!(FilterMode::from(FilterMethod::Mipmap), FilterMode::Linear);
    assert_eq!(FilterMode::from(FilterMethod::Trilinear), FilterMode::Linear);
    assert_eq!(FilterMode::from(FilterMethod::Anisotropic(4)), FilterMode::Linear);
}

#[test]
fn sampler_info_new_uses_no_lod_changes() {
    let s = SamplerInfo::new(FilterMethod::Trilinear, WrapMode::Mirror);
    assert_eq!(s.filter, FilterMethod::Trilinear);
    assert_eq!((s.wrap_u, s.wrap_v, s.wrap_w), (WrapMode::Mirror, WrapMode::Mirror, WrapMode::Mirror));
    assert_eq!((s.lod_bias, s.lod_min, s.lod_max), (0, -8000, 8000));
    assert_eq!(s.comparison, None);
    assert_eq!(s.border, 0);
}

#[test]
fn sampler_cache_get_or_insert_reuses() {
    let mut cache: SamplerCache<String> = SamplerCache::new();
    let a = SamplerInfo::new(FilterMethod::Scale, WrapMode::Clamp);
    let b = SamplerInfo::new(FilterMethod::Scale, WrapMode::Tile);
    assert!(!cache.contains(&a));
    let first = cache.get_or_insert(a, |_| "first".to_string());
    assert_eq!(first, "first");
    let again = cache.get_or_insert(a, |_| "second".to_string());
    assert_eq!(again, "first");
    let other = cache.get_or_insert(b, |_| "third".to_string());
    assert_eq!(other, "third");
    assert_eq!(cache.len(), 2);
}

#[test]
fn set_blend_mode_needs_a_pipeline() {
    let mut ctx = context();
    assert!(set_blend_mode(&mut ctx, BlendMode::Add).is_ok());
    assert_eq!(ctx.blend_mode(), BlendMode::Add);
    let err = set_blend_mode(&mut ctx, BlendMode::Darken);
    assert!(matches!(err, Err(GameError::RenderError(ref m)) if m == "Could not find a pipeline for the specified shader and BlendMode"));
    assert_eq!(ctx.blend_mode(), BlendMode::Add);
}

#[test]
fn set_mode_keeps_mode_only_on_success() {
    let mut ctx = context();
    let mut wanted = window_mode();
    wanted.borderless = true;
    let seen = Cell::new(None);
    let r = set_mode(&mut ctx, wanted, |m| {
        seen.set(Some(m));
        Ok(())
    });
    assert!(r.is_ok());
    assert_eq!(seen.get(), Some(wanted));
    assert_eq!(ctx.window_mode(), wanted);
    let mut refused = wanted;
    refused.hidpi = true;
    let r = set_mode(&mut ctx, refused, |_| Err(GameError::WindowError("no".to_string())));
    assert!(matches!(r, Err(GameError::WindowError(ref m)) if m == "no"));
    assert_eq!(ctx.window_mode(), wanted);
}

#[test]
fn set_fullscreen_changes_only_fullscreen_type() {
    let mut ctx = context();
    let seen = Cell::new(None);
    let r: GameResult = set_fullscreen(&mut ctx, FullscreenType::Desktop, |m| {
        seen.set(Some(m));
        Ok(())
    });
    assert!(r.is_ok());
    let mut expected = window_mode();
    expected.fullscreen_type = FullscreenType::Desktop;
    assert_eq!(seen.get(), Some(expected));
    assert_eq!(ctx.window_mode(), expected);
    let r = set_fullscreen(&mut ctx, FullscreenType::True, |_| Err(GameError::WindowError("x".to_string())));
    assert!(r.is_err());
    assert_eq!(ctx.window_mode(), expected);
}

#[test]
fn set_resizable_and_drawable_size() {
    let mut ctx = context();
    assert!(set_resizable(&mut ctx, true, |_| Ok(())).is_ok());
    assert!(ctx.window_mode().resizable);
    assert!(set_drawable_size(&mut ctx, bits(1024.0), bits(768.0), |_| Ok(())).is_ok());
    let m = ctx.window_mode();
    assert_eq!((m.width, m.height), (bits(1024.0), bits(768.0)));
    assert!(m.resizable);
    assert!(set_drawable_size(&mut ctx, bits(1.0), bits(1.0), |_| Err(GameError::WindowError(String::new()))).is_err());
    assert_eq!(ctx.window_mode().width, bits(1024.0));
}

#[test]
fn screenshots_need_single_sampled_targets() {
    assert!(check_screenshot_target(AaMode::Single).is_ok());
    let e = check_screenshot_target(AaMode::Multi(4));
    assert!(matches!(e, Err(GameError::RenderError(ref m)) if m == "Can't take screenshots of anti aliased textures.\n(since neither copying or resolving them is supported right now)"));
    assert!(check_screenshot_target(AaMode::Coverage(4, 2)).is_err());
}

#[test]
fn default_draw_param() {
    let p = DrawParam::new();
    assert_eq!(p.src, Rect { x: bits(0.0), y: bits(0.0), w: bits(1.0), h: bits(1.0) });
    assert_eq!((p.scale.x, p.scale.y), (bits(1.0), bits(1.0)));
    assert_eq!((p.offset.x, p.offset.y), (bits(0.0), bits(0.0)));
    assert_eq!(p.rotation, bits(0.0));
    assert_eq!(p.color.a, bits(1.0));
}

struct Marker {
    blend: Option<BlendMode>,
}

impl Drawable for Marker {
    fn draw(&self, ctx: &mut Context, param: DrawParam) -> GameResult {
        push_transform(ctx, Some(Matrix4 { m: [param.rotation; 16] }));
        Ok(())
    }

    fn dimensions(&self, _ctx: &mut Context) -> Option<Rect> {
        None
    }

    fn set_blend_mode(&mut self, mode: Option<BlendMode>) {
        self.blend = mode;
    }

    fn blend_mode(&self) -> Option<BlendMode> {
        self.blend
    }
}

#[test]
fn draw_hands_params_to_the_drawable() {
    let mut ctx = context();
    let mut marker = Marker { blend: None };
    marker.set_blend_mode(Some(BlendMode::Add));
    assert_eq!(marker.blend_mode(), Some(BlendMode::Add));
    let mut p = DrawParam::new();
    p.rotation = bits(0.25);
    assert!(draw(&mut ctx, &marker, p).is_ok());
    assert_eq!(transform(&ctx).m, [bits(0.25); 16]);
    assert_eq!(marker.dimensions(&mut ctx), None);
}
