//! Errors of graphics operations.
use vstd::prelude::*;

verus! {

/// An error of the framework.
#[derive(Debug)]
pub enum GameError {
    /// Something went wrong in the renderer.
    RenderError(String),
    /// Something went wrong with the window.
    WindowError(String),
}

/// The result of a graphics operation.
pub type GameResult<T = ()> = Result<T, GameError>;

/// Why the GPU refused to create a buffer; the flags or usage it refused are
/// given by their `Debug` text.
#[derive(Debug)]
pub enum BufferCreationError {
    /// Some of the bind flags are not supported.
    UnsupportedBind(String),
    /// The usage mode is not supported.
    UnsupportedUsage(String),
    /// Some other error.
    Other,
}

/// The message of the render error that a buffer creation error becomes.
pub open spec fn buffer_error_message(e: BufferCreationError) -> Seq<char> {
    match e {
        BufferCreationError::UnsupportedBind(b) =>
            "Could not create buffer: Unsupported Bind ("@ + b@ + ")"@,
        BufferCreationError::UnsupportedUsage(u) =>
            "Could not create buffer: Unsupported Usage ("@ + u@ + ")"@,
        BufferCreationError::Other => "Could not create buffer: Unknown error"@,
    }
}

impl GameError {
    /// The render error for a failed buffer creation.
    pub fn from_buffer_creation_error(e: BufferCreationError) -> (r: GameError)
        ensures
            r matches GameError::RenderError(msg) && msg@ == buffer_error_message(e),
    {
        match e {
            BufferCreationError::UnsupportedBind(b) => {
                let msg = String::from_str("Could not create buffer: Unsupported Bind (");
                let msg = msg.concat(b.as_str());
                let msg = msg.concat(")");
                GameError::RenderError(msg)
            },
            BufferCreationError::UnsupportedUsage(u) => {
                let msg = String::from_str("Could not create buffer: Unsupported Usage (");
                let msg = msg.concat(u.as_str());
                let msg = msg.concat(")");
                GameError::RenderError(msg)
            },
            BufferCreationError::Other => {
                GameError::RenderError(String::from_str("Could not create buffer: Unknown error"))
            },
        }
    }
}

} // verus!
