//! Plain value types of the graphics state. Every coordinate, colour channel and
//! matrix entry is the IEEE-754 bit pattern of an `f32` (`f32::to_bits`).
use vstd::prelude::*;

verus! {

/// The bit pattern of the `f32` value `1.0`.
pub const ONE_BITS: u32 = 0x3F80_0000u32;

/// A rectangle: `x` and `y` are its top-left corner, `w` and `h` its size.
#[derive(Clone, Copy, Debug, PartialEq, Eq, Structural)]
pub struct Rect {
    pub x: u32,
    pub y: u32,
    pub w: u32,
    pub h: u32,
}

/// A 2D point or vector.
#[derive(Clone, Copy, Debug, PartialEq, Eq, Structural)]
pub struct Point2 {
    pub x: u32,
    pub y: u32,
}

/// An RGBA colour.
#[derive(Clone, Copy, Debug, PartialEq, Eq, Structural)]
pub struct Color {
    pub r: u32,
    pub g: u32,
    pub b: u32,
    pub a: u32,
}

/// The parameters of one draw call: the source rectangle within the drawable, the
/// destination, the rotation in radians, the scale, the offset of the rotation
/// origin and the colour the drawable is tinted with.
#[derive(Clone, Copy, Debug, PartialEq, Eq, Structural)]
pub struct DrawParam {
    pub src: Rect,
    pub dest: Point2,
    pub rotation: u32,
    pub scale: Point2,
    pub offset: Point2,
    pub color: Color,
}

impl DrawParam {
    /// The default draw parameters: the whole source, drawn at the origin,
    /// unrotated, unscaled, without offset, in white.
    pub fn new() -> (p: DrawParam)
        ensures
            p.src == (Rect { x: 0, y: 0, w: ONE_BITS, h: ONE_BITS }),
            p.dest == (Point2 { x: 0, y: 0 }),
            p.rotation == 0,
            p.scale == (Point2 { x: ONE_BITS, y: ONE_BITS }),
            p.offset == (Point2 { x: 0, y: 0 }),
            p.color == (Color { r: ONE_BITS, g: ONE_BITS, b: ONE_BITS, a: ONE_BITS }),
    {
        DrawParam {
            src: Rect { x: 0, y: 0, w: ONE_BITS, h: ONE_BITS },
            dest: Point2 { x: 0, y: 0 },
            rotation: 0,
            scale: Point2 { x: ONE_BITS, y: ONE_BITS },
            offset: Point2 { x: 0, y: 0 },
            color: Color { r: ONE_BITS, g: ONE_BITS, b: ONE_BITS, a: ONE_BITS },
        }
    }
}

/// A homogeneous 4x4 transformation matrix, its sixteen entries in column-major
/// order.
#[derive(Clone, Copy, Debug)]
pub struct Matrix4 {
    pub m: [u32; 16],
}

/// The entries of the identity matrix: `1.0` on the diagonal, `0.0` elsewhere.
pub open spec fn identity_entries() -> Seq<u32> {
    Seq::new(16, |i: int| if i % 5 == 0 { ONE_BITS } else { 0u32 })
}

impl Matrix4 {
    /// The identity matrix.
    pub fn identity() -> (r: Matrix4)
        ensures
            r.m@ == identity_entries(),
    {
        let m: [u32; 16] = [
            ONE_BITS, 0, 0, 0,
            0, ONE_BITS, 0, 0,
            0, 0, ONE_BITS, 0,
            0, 0, 0, ONE_BITS,
        ];
        assert(m@ =~= identity_entries());
        Matrix4 { m }
    }
}

/// How the pixels of a drawable are combined with those already on the target.
#[derive(Clone, Copy, Debug, PartialEq, Eq, Structural)]
pub enum BlendMode {
    Add,
    Subtract,
    Alpha,
    Invert,
    Multiply,
    Replace,
    Lighten,
    Darken,
}

/// How images are scaled.
#[derive(Clone, Copy, Debug, PartialEq, Eq, Structural)]
pub enum FilterMode {
    /// Use linear interpolation (smooth scaling).
    Linear,
    /// Use nearest-neighbor interpolation (pixel-art scaling).
    Nearest,
}

/// How the samples inside each texel of a render target are laid out.
#[derive(Clone, Copy, Debug, PartialEq, Eq, Structural)]
pub enum AaMode {
    /// No anti-aliasing.
    Single,
    /// Multi-sampled anti-aliasing with the given number of samples.
    Multi(u8),
    /// Coverage-sampled anti-aliasing with the given numbers of samples and fragments.
    Coverage(u8, u8),
}

/// The per-instance data of a drawn quad: the four columns of its transform
/// matrix, its source rectangle (x, y, w, h) and its colour.
#[derive(Clone, Copy, Debug)]
pub struct InstanceProperties {
    pub col1: [u32; 4],
    pub col2: [u32; 4],
    pub col3: [u32; 4],
    pub col4: [u32; 4],
    pub src: [u32; 4],
    pub color: [u32; 4],
}

impl Default for InstanceProperties {
    /// Columns `[1, 0, 0, 0]`, `[0, 1, 0, 0]`, `[1, 0, 1, 0]` and `[1, 0, 0, 1]`,
    /// the whole source `[0, 0, 1, 1]`, and white.
    fn default() -> (p: InstanceProperties)
        ensures
            p.col1@ == seq![ONE_BITS, 0u32, 0u32, 0u32],
            p.col2@ == seq![0u32, ONE_BITS, 0u32, 0u32],
            p.col3@ == seq![ONE_BITS, 0u32, ONE_BITS, 0u32],
            p.col4@ == seq![ONE_BITS, 0u32, 0u32, ONE_BITS],
            p.src@ == seq![0u32, 0u32, ONE_BITS, ONE_BITS],
            p.color@ == seq![ONE_BITS, ONE_BITS, ONE_BITS, ONE_BITS],
    {
        let p = InstanceProperties {
            col1: [ONE_BITS, 0, 0, 0],
            col2: [0, ONE_BITS, 0, 0],
            col3: [ONE_BITS, 0, ONE_BITS, 0],
            col4: [ONE_BITS, 0, 0, ONE_BITS],
            src: [0, 0, ONE_BITS, ONE_BITS],
            color: [ONE_BITS, ONE_BITS, ONE_BITS, ONE_BITS],
        };
        assert(p.col1@ =~= seq![ONE_BITS, 0u32, 0u32, 0u32]);
        assert(p.col2@ =~= seq![0u32, ONE_BITS, 0u32, 0u32]);
        assert(p.col3@ =~= seq![ONE_BITS, 0u32, ONE_BITS, 0u32]);
        assert(p.col4@ =~= seq![ONE_BITS, 0u32, 0u32, ONE_BITS]);
        assert(p.src@ =~= seq![0u32, 0u32, ONE_BITS, ONE_BITS]);
        assert(p.color@ =~= seq![ONE_BITS, ONE_BITS, ONE_BITS, ONE_BITS]);
        p
    }
}

} // verus!
