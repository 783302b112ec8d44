//! The description of the OpenGL backend the graphics context runs on.
use vstd::prelude::*;
use crate::conf::Backend;
use crate::text::{device_info_text, push_version, DeviceInfo};

verus! {

/// The kind of OpenGL context a window is created with.
#[derive(Clone, Copy, Debug, PartialEq, Eq, Structural)]
pub enum Api {
    OpenGl,
    OpenGlEs,
    WebGl,
}

/// A backend specification for OpenGL: the requested version and API.
#[derive(Clone, Copy, Debug, PartialEq, Eq, Structural)]
pub struct GlBackendSpec {
    major: u8,
    minor: u8,
    api: Api,
}

/// The pair of default shader programs shipped for one API.
#[derive(Clone, Copy, Debug, PartialEq, Eq, Structural)]
pub enum DefaultShaders {
    /// GLSL 1.50 vertex and fragment shaders, for desktop OpenGL.
    Glsl150,
    /// GLSL ES 3.00 vertex and fragment shaders, for OpenGL ES.
    GlslEs300,
}

impl GlBackendSpec {
    pub closed spec fn major_spec(self) -> u8 {
        self.major
    }

    pub closed spec fn minor_spec(self) -> u8 {
        self.minor
    }

    pub closed spec fn api_spec(self) -> Api {
        self.api
    }

    /// The backend spec with the given parts.
    pub closed spec fn from_parts(api: Api, major: u8, minor: u8) -> GlBackendSpec {
        GlBackendSpec { major, minor, api }
    }

    /// A backend spec is made of its API and version: it is the spec built from
    /// them, and the spec built from an API and a version has exactly those.
    pub proof fn lemma_parts_determine_spec(self, api: Api, major: u8, minor: u8)
        ensures
            self == Self::from_parts(self.api_spec(), self.major_spec(), self.minor_spec()),
            Self::from_parts(api, major, minor).api_spec() == api,
            Self::from_parts(api, major, minor).major_spec() == major,
            Self::from_parts(api, major, minor).minor_spec() == minor,
    {
    }

    /// The spec of the conversion from a configured backend.
    pub open spec fn from_backend(c: Backend) -> (Api, u8, u8) {
        match c {
            Backend::OpenGL { major, minor } => (Api::OpenGl, major, minor),
            Backend::OpenGLES { major, minor } => (Api::OpenGlEs, major, minor),
        }
    }

    /// Builds a backend spec from its parts.
    pub fn new(major: u8, minor: u8, api: Api) -> (s: GlBackendSpec)
        ensures
            s == Self::from_parts(api, major, minor),
            s.major_spec() == major,
            s.minor_spec() == minor,
            s.api_spec() == api,
    {
        GlBackendSpec { major, minor, api }
    }

    /// The version of the backend, `(major, minor)`.
    pub fn version_tuple(&self) -> (r: (u8, u8))
        ensures
            r == (self.major_spec(), self.minor_spec()),
    {
        (self.major, self.minor)
    }

    /// The API of the backend.
    pub fn api(&self) -> (r: Api)
        ensures
            r == self.api_spec(),
    {
        self.api
    }

    /// The default shaders for this backend's API: GLSL 1.50 for OpenGL, GLSL ES 3.00
    /// for OpenGL ES. No shaders exist for WebGL.
    pub fn shaders(&self) -> (r: DefaultShaders)
        requires
            self.api_spec() != Api::WebGl,
        ensures
            self.api_spec() == Api::OpenGl ==> r == DefaultShaders::Glsl150,
            self.api_spec() == Api::OpenGlEs ==> r == DefaultShaders::GlslEs300,
    {
        match self.api {
            Api::OpenGl => DefaultShaders::Glsl150,
            _ => DefaultShaders::GlslEs300,
        }
    }
}

impl GlBackendSpec {
    /// The description of the driver: its vendor, renderer, version and shading
    /// language version.
    pub fn info(&self, device: &DeviceInfo) -> (s: String)
        ensures
            s@ == device_info_text(*device),
    {
        let mut s = String::from_str("Driver vendor: ");
        s.append(device.vendor.as_str());
        s.append(", renderer ");
        s.append(device.renderer.as_str());
        s.append(", version ");
        push_version(&mut s, &device.version);
        s.append(", shading language ");
        push_version(&mut s, &device.shading_language);
        s
    }
}

impl Default for GlBackendSpec {
    /// The default backend: OpenGL 3.2.
    fn default() -> (s: GlBackendSpec)
        ensures
            s == GlBackendSpec::from_parts(Api::OpenGl, 3, 2),
            s.major_spec() == 3,
            s.minor_spec() == 2,
            s.api_spec() == Api::OpenGl,
    {
        GlBackendSpec { major: 3, minor: 2, api: Api::OpenGl }
    }
}

impl From<Backend> for GlBackendSpec {
    /// The backend for a configured backend: OpenGL or OpenGL ES of the same version.
    fn from(c: Backend) -> (s: GlBackendSpec)
        ensures
            c matches Backend::OpenGL { major, minor } ==> (s.api_spec() == Api::OpenGl
                && s.major_spec() == major && s.minor_spec() == minor),
            c matches Backend::OpenGLES { major, minor } ==> (s.api_spec() == Api::OpenGlEs
                && s.major_spec() == major && s.minor_spec() == minor),
    {
        match c {
            Backend::OpenGL { major, minor } => GlBackendSpec { major, minor, api: Api::OpenGl },
            Backend::OpenGLES { major, minor } => GlBackendSpec { major, minor, api: Api::OpenGlEs },
        }
    }
}

impl vstd::std_specs::convert::FromSpecImpl<Backend> for GlBackendSpec {
    open spec fn obeys_from_spec() -> bool {
        true
    }

    open spec fn from_spec(c: Backend) -> GlBackendSpec {
        let (api, major, minor) = GlBackendSpec::from_backend(c);
        GlBackendSpec::from_parts(api, major, minor)
    }
}

/// The backend converted from a configured backend keeps the configured version,
/// and its API is OpenGL for `OpenGL` and OpenGL ES for `OpenGLES`; converted from
/// OpenGL 3.2 it is the default backend.
pub proof fn lemma_from_conf_keeps_version(c: Backend)
    ensures
        ({
            let s = <GlBackendSpec as vstd::std_specs::convert::FromSpec<Backend>>::from_spec(c);
            &&& (s.api_spec(), s.major_spec(), s.minor_spec()) == GlBackendSpec::from_backend(c)
            &&& c == (Backend::OpenGL { major: 3, minor: 2 }) ==> s == GlBackendSpec::from_parts(Api::OpenGl, 3, 2)
        }),
{
}

/// Converting a configured backend keeps its version: `OpenGL { major, minor }`
/// becomes desktop OpenGL and `OpenGLES { major, minor }` OpenGL ES, each with
/// exactly that major and minor version.
pub proof fn lemma_from_conf_parts(major: u8, minor: u8)
    ensures
        ({
            let s = <GlBackendSpec as vstd::std_specs::convert::FromSpec<Backend>>::from_spec(
                Backend::OpenGL { major, minor },
            );
            &&& s.api_spec() == Api::OpenGl
            &&& s.major_spec() == major
            &&& s.minor_spec() == minor
        }),
        ({
            let s = <GlBackendSpec as vstd::std_specs::convert::FromSpec<Backend>>::from_spec(
                Backend::OpenGLES { major, minor },
            );
            &&& s.api_spec() == Api::OpenGlEs
            &&& s.major_spec() == major
            &&& s.minor_spec() == minor
        }),
{
}

} // verus!
