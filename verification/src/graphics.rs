//! The graphics backend the compositor can share a GL context with.
//!
//! The compositor renders client buffers with the scene runtime's own EGL
//! context, so it refuses to start on any other graphics backend. The runtime
//! reports its backend as a number; this module decides whether the compositor
//! can go on.
use vstd::prelude::*;

verus! {

/// The runtime does not render through OpenGL ES on EGL.
#[derive(Clone, Copy, Debug, PartialEq, Eq, Structural)]
pub enum BackendError {
    NotEgl,
}

impl BackendError {
    /// The message that reports the error.
    pub fn message(&self) -> (r: &'static str)
        ensures
            r@ == "StereoKit is not running using EGL!"@,
    {
        "StereoKit is not running using EGL!"
    }
}

/// Accepts the graphics backend `backend` that the runtime reports exactly
/// when it is `egl_backend`, the runtime's number for OpenGL ES on EGL.
pub fn require_egl_backend(backend: u32, egl_backend: u32) -> (r: Result<(), BackendError>)
    ensures
        r is Ok <==> backend == egl_backend,
        r is Err ==> r == Err::<(), BackendError>(BackendError::NotEgl),
{
    if backend == egl_backend {
        Ok(())
    } else {
        Err(BackendError::NotEgl)
    }
}

} // verus!
