# flatland

The decision logic of Flatland, a Wayland compositor that shows desktop
windows as panels in a 3D scene, as a verified Verus library.

- `src/input_window.rs`: the input window's grab state machine (click to grab
  the cursor, Control+Escape to release it, recentring while grabbed, the
  window title), with the laws it keeps.
- `src/surface.rs`: a surface's window name and size defaults and the plan for
  its lazily created scene texture and panel model.
- `src/flatland.rs`: the per-client record of the Wayland server.
- `src/graphics.rs`: the check that the scene runtime renders through EGL.
- `app/`: the compositor program around the library: the Wayland server, the
  scene runtime, the desktop window and the frame loop.
