use flatland::flatland::ClientState;
use flatland::graphics::{require_egl_backend, BackendError};

#[test]
fn client_lifecycle_lines() {
    let c = ClientState;
    assert_eq!(c.initialized(), "initialized");
    assert_eq!(c.disconnected(), "disconnected");
}

#[test]
fn egl_backend_required() {
    assert_eq!(require_egl_backend(5, 5), Ok(()));
    assert_eq!(require_egl_backend(1, 5), Err(BackendError::NotEgl));
    assert_eq!(BackendError::NotEgl.message(), "StereoKit is not running using EGL!");
}
