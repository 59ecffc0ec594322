//! The decision logic of Flatland, a Wayland compositor that shows desktop
//! windows as panels in a 3D scene.
//!
//! The windowing system, the Wayland server and the scene runtime are driven
//! by the program around this library; the library holds the state that the
//! compositor keeps and decides, for each thing that happens, what is done.
pub mod flatland;
pub mod graphics;
pub mod input_window;
pub mod surface;
