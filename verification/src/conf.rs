//! Window configuration.
use vstd::prelude::*;

verus! {

/// The OpenGL flavour and version requested for the window.
#[derive(Clone, Copy, Debug, PartialEq, Eq, Structural)]
pub enum Backend {
    /// Desktop OpenGL of the given version.
    OpenGL { major: u8, minor: u8 },
    /// OpenGL ES of the given version.
    OpenGLES { major: u8, minor: u8 },
}

/// How the window covers the screen.
#[derive(Clone, Copy, Debug, PartialEq, Eq, Structural)]
pub enum FullscreenType {
    /// A normal window.
    Windowed,
    /// Exclusive fullscreen.
    True,
    /// A borderless window as large as the desktop.
    Desktop,
}

/// The window's size and properties. Sizes are `f32` bit patterns.
#[derive(Clone, Copy, Debug, PartialEq, Eq, Structural)]
pub struct WindowMode {
    pub width: u32,
    pub height: u32,
    pub maximized: bool,
    pub fullscreen_type: FullscreenType,
    pub borderless: bool,
    pub min_width: u32,
    pub min_height: u32,
    pub max_width: u32,
    pub max_height: u32,
    pub hidpi: bool,
    pub resizable: bool,
}

impl WindowMode {
    /// This mode with another fullscreen type.
    pub open spec fn with_fullscreen_type(self, fullscreen: FullscreenType) -> WindowMode {
        WindowMode { fullscreen_type: fullscreen, ..self }
    }

    /// This mode with another drawable size.
    pub open spec fn with_size(self, width: u32, height: u32) -> WindowMode {
        WindowMode { width: width, height: height, ..self }
    }

    /// This mode, resizable or not.
    pub open spec fn with_resizable(self, resizable: bool) -> WindowMode {
        WindowMode { resizable: resizable, ..self }
    }
}

/// Changing the fullscreen type of a window mode gives it the requested type and
/// keeps every other field.
pub proof fn lemma_with_fullscreen_type(m: WindowMode, f: FullscreenType)
    ensures
        m.with_fullscreen_type(f).fullscreen_type == f,
        m.with_fullscreen_type(f).width == m.width,
        m.with_fullscreen_type(f).height == m.height,
        m.with_fullscreen_type(f).maximized == m.maximized,
        m.with_fullscreen_type(f).borderless == m.borderless,
        m.with_fullscreen_type(f).min_width == m.min_width,
        m.with_fullscreen_type(f).min_height == m.min_height,
        m.with_fullscreen_type(f).max_width == m.max_width,
        m.with_fullscreen_type(f).max_height == m.max_height,
        m.with_fullscreen_type(f).hidpi == m.hidpi,
        m.with_fullscreen_type(f).resizable == m.resizable,
{
}

/// Making a window mode resizable or not gives it the requested resizability and
/// keeps every other field.
pub proof fn lemma_with_resizable(m: WindowMode, b: bool)
    ensures
        m.with_resizable(b).resizable == b,
        m.with_resizable(b).width == m.width,
        m.with_resizable(b).height == m.height,
        m.with_resizable(b).maximized == m.maximized,
        m.with_resizable(b).fullscreen_type == m.fullscreen_type,
        m.with_resizable(b).borderless == m.borderless,
        m.with_resizable(b).min_width == m.min_width,
        m.with_resizable(b).min_height == m.min_height,
        m.with_resizable(b).max_width == m.max_width,
        m.with_resizable(b).max_height == m.max_height,
        m.with_resizable(b).hidpi == m.hidpi,
{
}

/// Changing the size of a window mode gives it the requested width and height and
/// keeps every other field.
pub proof fn lemma_with_size(m: WindowMode, w: u32, h: u32)
    ensures
        m.with_size(w, h).width == w,
        m.with_size(w, h).height == h,
        m.with_size(w, h).maximized == m.maximized,
        m.with_size(w, h).fullscreen_type == m.fullscreen_type,
        m.with_size(w, h).borderless == m.borderless,
        m.with_size(w, h).min_width == m.min_width,
        m.with_size(w, h).min_height == m.min_height,
        m.with_size(w, h).max_width == m.max_width,
        m.with_size(w, h).max_height == m.max_height,
        m.with_size(w, h).hidpi == m.hidpi,
        m.with_size(w, h).resizable == m.resizable,
{
}

} // verus!
