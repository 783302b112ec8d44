//! The graphics state of a game and the operations on it: the coordinate system
//! of the screen, the projection and model-view transforms, the default sampler,
//! the blend mode and the window mode.
use vstd::prelude::*;
use crate::backend::{Api, GlBackendSpec};
use crate::conf::{FullscreenType, WindowMode};
use crate::error::{GameError, GameResult};
use crate::sampler::{filter_method_of, filter_mode_of, lemma_filter_mode_round_trip, FilterMethod, SamplerCache, SamplerInfo, WrapMode};
use crate::text::{api_name, decimal, device_info_text, push_api_name, push_decimal, DeviceInfo};
use crate::types::{identity_entries, AaMode, BlendMode, DrawParam, FilterMode, Matrix4, Rect};

verus! {

/// The model-view transform stack with `s` pushed on: `Some(t)` pushes `t`, `None`
/// pushes a copy of the current top.
pub open spec fn pushed(s: Seq<Matrix4>, t: Option<Matrix4>) -> Seq<Matrix4> {
    match t {
        Some(m) => s.push(m),
        None => s.push(s.last()),
    }
}

/// The stack with its top removed, unless the top is the only matrix left.
pub open spec fn popped(s: Seq<Matrix4>) -> Seq<Matrix4> {
    if s.len() > 1 {
        s.drop_last()
    } else {
        s
    }
}

/// The stack with its top replaced by `t`.
pub open spec fn with_top(s: Seq<Matrix4>, t: Matrix4) -> Seq<Matrix4> {
    s.update(s.len() - 1, t)
}

/// The text that describes the requested and the obtained renderer.
pub open spec fn renderer_info_text(api: Api, major: u8, minor: u8, backend_info: Seq<char>) -> Seq<char> {
    "Requested "@ + api_name(api) + " "@ + decimal(major as nat) + "."@ + decimal(minor as nat)
        + " Core profile, actually got "@ + backend_info + "."@
}

/// The message of the error for a blend mode the active shader has no pipeline for.
pub open spec fn missing_pipeline_message() -> Seq<char> {
    "Could not find a pipeline for the specified shader and BlendMode"@
}

/// The sampler description used for images created with a filter mode.
pub open spec fn default_sampler_for(mode: FilterMode) -> SamplerInfo {
    SamplerInfo::new_spec(filter_method_of(mode), WrapMode::Clamp)
}

/// What the graphics state holds: the backend, the window mode, the rectangle the
/// screen shows, the projection, the model-view stack (bottom first, never empty;
/// its last matrix is the current transform), the sampler description of new
/// images, the blend modes the active shader has pipelines for, and its blend mode.
pub ghost struct ContextView {
    pub backend_spec: GlBackendSpec,
    pub window_mode: WindowMode,
    pub screen_rect: Rect,
    pub projection: Matrix4,
    pub stack: Seq<Matrix4>,
    pub default_sampler_info: SamplerInfo,
    pub shader_blend_modes: Seq<BlendMode>,
    pub blend_mode: BlendMode,
}

/// The graphics state of a game.
pub struct Context {
    backend_spec: GlBackendSpec,
    window_mode: WindowMode,
    screen_rect: Rect,
    projection: Matrix4,
    /// The model-view stack below its top.
    modelview_below: Vec<Matrix4>,
    /// The top of the model-view stack: the current transform.
    modelview_top: Matrix4,
    default_sampler_info: SamplerInfo,
    shader_blend_modes: Vec<BlendMode>,
    blend_mode: BlendMode,
}

impl View for Context {
    type V = ContextView;

    closed spec fn view(&self) -> ContextView {
        ContextView {
            backend_spec: self.backend_spec,
            window_mode: self.window_mode,
            screen_rect: self.screen_rect,
            projection: self.projection,
            stack: self.modelview_below@.push(self.modelview_top),
            default_sampler_info: self.default_sampler_info,
            shader_blend_modes: self.shader_blend_modes@,
            blend_mode: self.blend_mode,
        }
    }
}

impl Context {
    /// A graphics state with the given backend, window mode, screen rectangle and
    /// projection, the identity as the only model-view transform, the given default
    /// sampler, and a shader with pipelines for the given blend modes, blending with
    /// `Alpha`.
    pub fn new(
        backend_spec: GlBackendSpec,
        window_mode: WindowMode,
        screen_rect: Rect,
        projection: Matrix4,
        default_sampler_info: SamplerInfo,
        shader_blend_modes: Vec<BlendMode>,
    ) -> (c: Context)
        ensures
            c@.backend_spec == backend_spec,
            c@.window_mode == window_mode,
            c@.screen_rect == screen_rect,
            c@.projection == projection,
            c@.stack.len() == 1,
            c@.stack[0].m@ == identity_entries(),
            c@.default_sampler_info == default_sampler_info,
            c@.shader_blend_modes == shader_blend_modes@,
            c@.blend_mode == BlendMode::Alpha,
    {
        Context {
            backend_spec,
            window_mode,
            screen_rect,
            projection,
            modelview_below: Vec::new(),
            modelview_top: Matrix4::identity(),
            default_sampler_info,
            shader_blend_modes,
            blend_mode: BlendMode::Alpha,
        }
    }

    /// The backend the context was created for.
    pub fn backend_spec(&self) -> (r: GlBackendSpec)
        ensures
            r == self@.backend_spec,
    {
        self.backend_spec
    }

    /// The mode the window was last set to.
    pub fn window_mode(&self) -> (r: WindowMode)
        ensures
            r == self@.window_mode,
    {
        self.window_mode
    }

    /// The blend mode of the active shader.
    pub fn blend_mode(&self) -> (r: BlendMode)
        ensures
            r == self@.blend_mode,
    {
        self.blend_mode
    }

    /// The number of matrices on the model-view stack above its bottom one.
    pub fn transform_stack_depth(&self) -> (n: usize)
        ensures
            n == self@.stack.len() - 1,
    {
        self.modelview_below.len()
    }
}

/// A short human-readable description of the requested and the obtained
/// renderer; `device` is what the driver reports about itself.
pub fn renderer_info(ctx: &Context, device: &DeviceInfo) -> (r: GameResult<String>)
    ensures
        r matches Ok(text) && text@ == renderer_info_text(
            ctx@.backend_spec.api_spec(),
            ctx@.backend_spec.major_spec(),
            ctx@.backend_spec.minor_spec(),
            device_info_text(*device),
        ),
{
    let spec = ctx.backend_spec;
    let backend_info = spec.info(device);
    let (major, minor) = spec.version_tuple();
    let mut text = String::from_str("Requested ");
    push_api_name(&mut text, spec.api());
    text.append(" ");
    push_decimal(&mut text, major as u32);
    text.append(".");
    push_decimal(&mut text, minor as u32);
    text.append(" Core profile, actually got ");
    text.append(backend_info.as_str());
    text.append(".");
    Ok(text)
}

/// The rectangle of the coordinate system the screen shows: `x` and `y` are the
/// coordinates of the top-left corner of the screen, and `x + w`, `y + h` those of
/// its bottom-right corner, as `set_screen_coordinates` set them.
pub fn screen_coordinates(ctx: &Context) -> (r: Rect)
    ensures
        r == ctx@.screen_rect,
{
    ctx.screen_rect
}

/// Sets the rectangle the screen shows, and the projection that maps it onto the
/// screen.
pub fn set_screen_coordinates(context: &mut Context, rect: Rect, projection: Matrix4)
    ensures
        final(context)@ == (ContextView { screen_rect: rect, projection: projection, ..old(context)@ }),
{
    context.screen_rect = rect;
    context.projection = projection;
}

/// Sets the projection matrix.
pub fn set_projection(context: &mut Context, proj: Matrix4)
    ensures
        final(context)@ == (ContextView { projection: proj, ..old(context)@ }),
{
    context.projection = proj;
}

/// A copy of the projection matrix.
pub fn projection(context: &Context) -> (r: Matrix4)
    ensures
        r == context@.projection,
{
    context.projection
}

/// Pushes a transform onto the model-view stack; with `None`, pushes a copy of the
/// current transform.
pub fn push_transform(context: &mut Context, transform: Option<Matrix4>)
    ensures
        final(context)@ == (ContextView { stack: pushed(old(context)@.stack, transform), ..old(context)@ }),
{
    let top = context.modelview_top;
    let new_top = match transform {
        Some(t) => t,
        None => top,
    };
    context.modelview_below.push(top);
    context.modelview_top = new_top;
}

/// Pops the current transform off the model-view stack, unless it is the only one.
pub fn pop_transform(context: &mut Context)
    ensures
        final(context)@ == (ContextView { stack: popped(old(context)@.stack), ..old(context)@ }),
{
    let ghost before = context@.stack;
    match context.modelview_below.pop() {
        Some(t) => {
            context.modelview_top = t;
            assert(context@.stack =~= before.drop_last());
        },
        None => {},
    }
}

/// Replaces the current transform.
pub fn set_transform(context: &mut Context, transform: Matrix4)
    ensures
        final(context)@ == (ContextView { stack: with_top(old(context)@.stack, transform), ..old(context)@ }),
{
    let ghost before = context@.stack;
    context.modelview_top = transform;
    assert(context@.stack =~= with_top(before, transform));
}

/// A copy of the current transform: the top of the model-view stack.
pub fn transform(context: &Context) -> (r: Matrix4)
    ensures
        r == context@.stack.last(),
{
    context.modelview_top
}

/// Replaces the current transform by the identity.
pub fn origin(context: &mut Context)
    ensures
        final(context)@.stack.len() == old(context)@.stack.len(),
        final(context)@.stack.drop_last() == old(context)@.stack.drop_last(),
        final(context)@.stack.last().m@ == identity_entries(),
        final(context)@ == (ContextView { stack: final(context)@.stack, ..old(context)@ }),
{
    set_transform(context, Matrix4::identity());
}

/// The message of the error for a screenshot of an anti-aliased render target.
pub open spec fn antialiased_screenshot_message() -> Seq<char> {
    "Can't take screenshots of anti aliased textures.\n(since neither copying or resolving them is supported right now)"@
}

/// Whether a screenshot can be taken of a render target with the given
/// anti-aliasing: only of one without. Neither copying nor resolving an
/// anti-aliased texture is supported.
pub fn check_screenshot_target(aa: AaMode) -> (r: GameResult)
    ensures
        r is Ok <==> aa == AaMode::Single,
        r is Err ==> (r matches Err(GameError::RenderError(msg)) && msg@ == antialiased_screenshot_message()),
{
    match aa {
        AaMode::Single => Ok(()),
        _ => {
            proof {
                reveal_strlit("Can't take screenshots of anti aliased textures.\n(since neither copying or resolving them is supported right now)");
            }
            Err(GameError::RenderError(String::from_str(
                "Can't take screenshots of anti aliased textures.\n(since neither copying or resolving them is supported right now)",
            )))
        },
    }
}

/// The filter mode of new images.
pub fn default_filter(ctx: &Context) -> (r: FilterMode)
    ensures
        r == filter_mode_of(ctx@.default_sampler_info.filter),
{
    FilterMode::from(ctx.default_sampler_info.filter)
}

/// Sets the filter mode of new images: their sampler filters with `mode` and
/// clamps at the edges. The sampler for that description is created now with
/// `create`, unless `samplers` already holds one.
pub fn set_default_filter<S: Clone, F: FnOnce(SamplerInfo) -> S>(
    ctx: &mut Context,
    samplers: &mut SamplerCache<S>,
    mode: FilterMode,
    create: F,
)
    requires
        call_requires(create, (default_sampler_for(mode),)),
    ensures
        final(ctx)@ == (ContextView { default_sampler_info: default_sampler_for(mode), ..old(ctx)@ }),
        final(ctx)@.default_sampler_info.wrap_u == WrapMode::Clamp,
        final(ctx)@.default_sampler_info.wrap_v == WrapMode::Clamp,
        final(ctx)@.default_sampler_info.wrap_w == WrapMode::Clamp,
        filter_mode_of(final(ctx)@.default_sampler_info.filter) == mode,
        final(samplers).view().contains_key(default_sampler_for(mode)),
        old(samplers).view().contains_key(default_sampler_for(mode)) ==> final(samplers).view()
            == old(samplers).view(),
        !old(samplers).view().contains_key(default_sampler_for(mode)) ==> {
            &&& call_ensures(create, (default_sampler_for(mode),), final(samplers).view()[default_sampler_for(mode)])
            &&& final(samplers).view() == old(samplers).view().insert(
                default_sampler_for(mode),
                final(samplers).view()[default_sampler_for(mode)],
            )
        },
{
    let new_mode = FilterMethod::from(mode);
    let sampler_info = SamplerInfo::new(new_mode, WrapMode::Clamp);
    let _sampler = samplers.get_or_insert(sampler_info, create);
    ctx.default_sampler_info = sampler_info;
}

/// Whether `modes` holds `mode`.
fn contains_blend_mode(modes: &Vec<BlendMode>, mode: BlendMode) -> (b: bool)
    ensures
        b == modes@.contains(mode),
{
    let n = modes.len();
    let mut i: usize = 0;
    while i < n
        invariant
            n == modes@.len(),
            i <= n,
            forall|j: int| 0 <= j < i ==> modes@[j] != mode,
        decreases n - i,
    {
        if modes[i] == mode {
            assert(modes@[i as int] == mode);
            return true;
        }
        i = i + 1;
    }
    false
}

/// Sets the blend mode of the active shader. Fails, and changes nothing, if the
/// shader has no pipeline for `mode`.
pub fn set_blend_mode(ctx: &mut Context, mode: BlendMode) -> (r: GameResult)
    ensures
        old(ctx)@.shader_blend_modes.contains(mode) ==> {
            &&& r is Ok
            &&& final(ctx)@ == (ContextView { blend_mode: mode, ..old(ctx)@ })
        },
        !old(ctx)@.shader_blend_modes.contains(mode) ==> {
            &&& r matches Err(GameError::RenderError(msg)) && msg@ == missing_pipeline_message()
            &&& final(ctx)@ == old(ctx)@
        },
{
    if contains_blend_mode(&ctx.shader_blend_modes, mode) {
        ctx.blend_mode = mode;
        return Ok(());
    }
    proof {
        reveal_strlit("Could not find a pipeline for the specified shader and BlendMode");
    }
    Err(GameError::RenderError(String::from_str("Could not find a pipeline for the specified shader and BlendMode")))
}

/// Sets the window mode. `apply` changes the window itself; the mode is kept as
/// the window's mode only if it succeeds, and its result is returned.
pub fn set_mode<F: FnOnce(WindowMode) -> GameResult>(context: &mut Context, mode: WindowMode, apply: F) -> (r: GameResult)
    requires
        call_requires(apply, (mode,)),
    ensures
        call_ensures(apply, (mode,), r),
        r is Ok ==> final(context)@ == (ContextView { window_mode: mode, ..old(context)@ }),
        r is Err ==> final(context)@ == old(context)@,
{
    let r = apply(mode);
    if r.is_ok() {
        context.window_mode = mode;
    }
    r
}

/// Sets the window to fullscreen or back; see `set_mode`.
pub fn set_fullscreen<F: FnOnce(WindowMode) -> GameResult>(
    context: &mut Context,
    fullscreen: FullscreenType,
    apply: F,
) -> (r: GameResult)
    requires
        call_requires(apply, (old(context)@.window_mode.with_fullscreen_type(fullscreen),)),
    ensures
        call_ensures(apply, (old(context)@.window_mode.with_fullscreen_type(fullscreen),), r),
        r is Ok ==> final(context)@ == (ContextView { window_mode: old(context)@.window_mode.with_fullscreen_type(fullscreen), ..old(context)@ }),
        r is Ok ==> final(context)@.window_mode.fullscreen_type == fullscreen,
        r is Err ==> final(context)@ == old(context)@,
{
    let mut window_mode = context.window_mode;
    window_mode.fullscreen_type = fullscreen;
    set_mode(context, window_mode, apply)
}

/// Sets the size of the window's drawable area (`f32` bit patterns); see
/// `set_mode`.
pub fn set_drawable_size<F: FnOnce(WindowMode) -> GameResult>(
    context: &mut Context,
    width: u32,
    height: u32,
    apply: F,
) -> (r: GameResult)
    requires
        call_requires(apply, (old(context)@.window_mode.with_size(width, height),)),
    ensures
        call_ensures(apply, (old(context)@.window_mode.with_size(width, height),), r),
        r is Ok ==> final(context)@ == (ContextView { window_mode: old(context)@.window_mode.with_size(width, height), ..old(context)@ }),
        r is Ok ==> final(context)@.window_mode.width == width && final(context)@.window_mode.height == height,
        r is Err ==> final(context)@ == old(context)@,
{
    let mut window_mode = context.window_mode;
    window_mode.width = width;
    window_mode.height = height;
    set_mode(context, window_mode, apply)
}

/// Sets whether the window is resizable; see `set_mode`.
pub fn set_resizable<F: FnOnce(WindowMode) -> GameResult>(
    context: &mut Context,
    resizable: bool,
    apply: F,
) -> (r: GameResult)
    requires
        call_requires(apply, (old(context)@.window_mode.with_resizable(resizable),)),
    ensures
        call_ensures(apply, (old(context)@.window_mode.with_resizable(resizable),), r),
        r is Ok ==> final(context)@ == (ContextView { window_mode: old(context)@.window_mode.with_resizable(resizable), ..old(context)@ }),
        r is Ok ==> final(context)@.window_mode.resizable == resizable,
        r is Err ==> final(context)@ == old(context)@,
{
    let mut window_mode = context.window_mode;
    window_mode.resizable = resizable;
    set_mode(context, window_mode, apply)
}

/// What can be drawn onto the screen.
pub trait Drawable {
    /// Whether drawing this drawable with `param` onto the graphics state `before`
    /// can leave the state `after` and return `result`. A kind of drawable says here
    /// what its drawing does; one that says nothing allows every outcome.
    open spec fn draws(&self, before: ContextView, param: DrawParam, after: ContextView, result: GameResult) -> bool {
        true
    }

    /// Draws the drawable onto the rendering target.
    fn draw(&self, ctx: &mut Context, param: DrawParam) -> (r: GameResult)
        ensures
            self.draws(old(ctx)@, param, final(ctx)@, r),
    ;

    /// The bounding box of the drawable, if it has one (an empty sprite batch has
    /// none).
    fn dimensions(&self, ctx: &mut Context) -> Option<Rect>;

    /// Sets the blend mode the drawable is drawn with; `None` defers to the blend
    /// mode of the graphics state.
    fn set_blend_mode(&mut self, mode: Option<BlendMode>);

    /// The blend mode the drawable is drawn with.
    fn blend_mode(&self) -> Option<BlendMode>;
}

/// Draws `drawable` with the given parameters, converted into `DrawParam`, by its
/// own `draw`: the state changes, and the result is, as that drawing does.
pub fn draw<D: Drawable, T: Into<DrawParam>>(ctx: &mut Context, drawable: &D, params: T) -> (r: GameResult)
    ensures
        exists|p: DrawParam|
            call_ensures(T::into, (params,), p) && #[trigger] drawable.draws(old(ctx)@, p, final(ctx)@, r),
{
    let ghost given = params;
    let params = params.into();
    assert(call_ensures(T::into, (given,), params));
    let r = drawable.draw(ctx, params);
    r
}

/// The model-view stack of a graphics state is never empty.
pub proof fn lemma_stack_nonempty(c: &Context)
    ensures
        c@.stack.len() >= 1,
{
}

/// Pushing, popping and replacing the current transform keep a stack non-empty:
/// a push adds one matrix, a pop removes one unless only one is left, a
/// replacement keeps the size.
pub proof fn lemma_stack_ops_keep_nonempty(s: Seq<Matrix4>, t: Option<Matrix4>, m: Matrix4)
    requires
        s.len() >= 1,
    ensures
        pushed(s, t).len() == s.len() + 1,
        popped(s).len() >= 1,
        s.len() > 1 ==> popped(s).len() == s.len() - 1,
        with_top(s, m).len() == s.len(),
{
}

/// Popping after a push gives back the stack as it was before the push.
pub proof fn lemma_pop_undoes_push(s: Seq<Matrix4>, t: Option<Matrix4>)
    requires
        s.len() >= 1,
    ensures
        popped(pushed(s, t)) == s,
{
    assert(popped(pushed(s, t)) =~= s);
}

/// After pushing `Some(t)` the current transform is `t`; after pushing `None` it
/// is the current transform from before the push.
pub proof fn lemma_push_sets_current(s: Seq<Matrix4>, t: Option<Matrix4>)
    requires
        s.len() >= 1,
    ensures
        t matches Some(m) ==> pushed(s, t).last() == m,
        t is None ==> pushed(s, t).last() == s.last(),
        pushed(s, t).drop_last() == s,
{
    assert(pushed(s, t).drop_last() =~= s);
}

/// Popping the only transform on the stack leaves the stack as it is.
pub proof fn lemma_pop_keeps_last(s: Seq<Matrix4>)
    requires
        s.len() == 1,
    ensures
        popped(s) == s,
{
}

/// After replacing the current transform by `t`, the current transform is `t`
/// and the matrices below it are unchanged.
pub proof fn lemma_set_then_get(s: Seq<Matrix4>, t: Matrix4)
    requires
        s.len() >= 1,
    ensures
        with_top(s, t).last() == t,
        with_top(s, t).drop_last() == s.drop_last(),
{
    assert(with_top(s, t).drop_last() =~= s.drop_last());
}

/// The filter mode of new images, after it is set to `mode`, is `mode`.
pub proof fn lemma_default_filter_round_trip(mode: FilterMode)
    ensures
        filter_mode_of(default_sampler_for(mode).filter) == mode,
{
    lemma_filter_mode_round_trip(mode);
}

/// What is set is read back: the screen rectangle and projection by
/// `screen_coordinates` and `projection`, the current transform by `transform`,
/// the default filter mode by `default_filter`, a window mode that was applied by
/// `window_mode` and a blend mode that was set by `blend_mode`.
pub proof fn lemma_read_back_what_was_set(
    v: ContextView,
    rect: Rect,
    proj: Matrix4,
    t: Matrix4,
    mode: FilterMode,
    window_mode: WindowMode,
    blend: BlendMode,
)
    requires
        v.stack.len() >= 1,
    ensures
        (ContextView { screen_rect: rect, projection: proj, ..v }).screen_rect == rect,
        (ContextView { screen_rect: rect, projection: proj, ..v }).projection == proj,
        (ContextView { projection: proj, ..v }).projection == proj,
        (ContextView { stack: with_top(v.stack, t), ..v }).stack.last() == t,
        filter_mode_of((ContextView { default_sampler_info: default_sampler_for(mode), ..v }).default_sampler_info.filter)
            == mode,
        (ContextView { window_mode: window_mode, ..v }).window_mode == window_mode,
        (ContextView { blend_mode: blend, ..v }).blend_mode == blend,
{
}

/// New images always clamp at their edges, on every axis, and filter by the
/// requested mode: nearest-neighbor scaling for `Nearest`, bilinear for `Linear`;
/// their sampler changes no level of detail, compares nothing and has border 0.
pub proof fn lemma_default_sampler_clamps(mode: FilterMode)
    ensures
        default_sampler_for(mode).wrap_u == WrapMode::Clamp,
        default_sampler_for(mode).wrap_v == WrapMode::Clamp,
        default_sampler_for(mode).wrap_w == WrapMode::Clamp,
        mode == FilterMode::Nearest ==> default_sampler_for(mode).filter == FilterMethod::Scale,
        mode == FilterMode::Linear ==> default_sampler_for(mode).filter == FilterMethod::Bilinear,
        default_sampler_for(mode).lod_bias == 0,
        default_sampler_for(mode).lod_min == -8000,
        default_sampler_for(mode).lod_max == 8000,
        default_sampler_for(mode).comparison is None,
        default_sampler_for(mode).border == 0,
{
}

} // verus!
