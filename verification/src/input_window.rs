//! Decision logic of the input window.
//!
//! The input window is an ordinary desktop window that captures the mouse
//! cursor while it is "grabbed". Clicking into it with the left button grabs
//! the cursor; releasing Escape while Control is held releases it again.
//!
//! The window itself belongs to the windowing system. This module holds the
//! state that the original window object kept (whether the cursor is grabbed
//! and which modifier keys are held) and, for every window event, decides what
//! has to happen. The caller performs the returned [`InputAction`] on the real
//! window and, for a cursor grab, reports back whether the windowing system
//! accepted it, which decides the window title.
use vstd::prelude::*;
use winit_main::reexports::event::ModifiersState;

verus! {

/// The bit of the windowing system's modifier set that stands for Control.
pub const CTRL_MODIFIER: u32 = 32;

/// True when the modifier set `bits` has the Control bit.
pub open spec fn ctrl_held(bits: u32) -> bool {
    bits & CTRL_MODIFIER != 0
}

/// Calls `winit::event::ModifiersState::ctrl` on the modifier set whose bits
/// are `bits` (taken with `from_bits_truncate`). winit defines `ctrl` as
/// `self.intersects(Self::CTRL)` with `CTRL = 0b100 << 3`, and truncation keeps
/// that bit, so the result is whether bit 32 of `bits` is set.
#[verifier::external_body]
fn modifiers_ctrl(bits: u32) -> (r: bool)
    ensures
        r == ctrl_held(bits),
{
    ModifiersState::from_bits_truncate(bits).ctrl()
}

/// Calls `winit::event::ModifiersState::empty` and returns its bits; the
/// bitflags macro defines the empty set as the one with no bit set.
#[verifier::external_body]
fn modifiers_empty() -> (r: u32)
    ensures
        r == 0,
{
    ModifiersState::empty().bits()
}

/// Whether a key or a mouse button went down or came up.
#[derive(Clone, Copy, Debug, PartialEq, Eq, Structural)]
pub enum ElementState {
    Pressed,
    Released,
}

/// A mouse button, as the windowing system names it.
#[derive(Clone, Copy, Debug, PartialEq, Eq, Structural)]
pub enum MouseButton {
    Left,
    Right,
    Middle,
    Other(u16),
}

/// The virtual key of a keyboard event, as far as the input window tells keys
/// apart: Escape, or any other key.
#[derive(Clone, Copy, Debug, PartialEq, Eq, Structural)]
pub enum KeyCode {
    Escape,
    Other,
}

/// A key going down or up.
#[derive(Clone, Copy, Debug, PartialEq, Eq, Structural)]
pub struct KeyboardInput {
    /// The virtual key, where the windowing system could tell it.
    pub virtual_keycode: Option<KeyCode>,
    pub state: ElementState,
}

/// An event that the windowing system sent to the input window.
#[derive(Clone, Copy, Debug, PartialEq, Eq, Structural)]
pub enum WindowEvent {
    CloseRequested,
    Destroyed,
    KeyboardInput(KeyboardInput),
    MouseInput { state: ElementState, button: MouseButton },
    /// The held modifier keys changed; the payload is the new modifier set.
    ModifiersChanged(u32),
    /// The cursor moved inside the window; the payload is the window's inner
    /// size in logical pixels at that moment.
    CursorMoved { window_width: u32, window_height: u32 },
    /// Any event the input window does not react to.
    Other,
}

/// What the caller has to do on the real window after an event.
#[derive(Clone, Copy, Debug, PartialEq, Eq, Structural)]
pub enum InputAction {
    /// End the program.
    Quit,
    /// Ask the windowing system to grab (`true`) or release (`false`) the
    /// cursor, then report the outcome to [`InputWindow::title_after_grab`].
    GrabCursor(bool),
    /// Move the cursor to this point of the window, in logical pixels.
    SetCursorPosition { x: u32, y: u32 },
}

/// The two titles the input window shows.
#[derive(Clone, Copy, Debug, PartialEq, Eq, Structural)]
pub enum WindowTitle {
    /// Shown while the cursor is grabbed.
    Grabbed,
    /// Shown while the cursor is free.
    Ungrabbed,
}

/// The title that belongs to a grab state.
pub open spec fn title_for(grab: bool) -> WindowTitle {
    if grab {
        WindowTitle::Grabbed
    } else {
        WindowTitle::Ungrabbed
    }
}

impl WindowTitle {
    /// The text of the title.
    pub fn text(&self) -> (r: &'static str)
        ensures
            *self == WindowTitle::Grabbed ==> r@ == "Flatland Input (ctrl+esc to release cursor)"@,
            *self == WindowTitle::Ungrabbed ==> r@ == "Flatland Input (click to grab input)"@,
    {
        match self {
            WindowTitle::Grabbed => "Flatland Input (ctrl+esc to release cursor)",
            WindowTitle::Ungrabbed => "Flatland Input (click to grab input)",
        }
    }
}

/// The state of the input window: whether the cursor is grabbed, and the set
/// of modifier keys held, in the windowing system's bit layout.
#[derive(Clone, Copy, Debug, PartialEq, Eq, Structural)]
pub struct InputWindow {
    pub grabbed: bool,
    pub modifiers: u32,
}

/// The state after `set_grab(grab)` and the grab request it makes: a request
/// exactly when the grab state changes.
pub open spec fn spec_set_grab(s: InputWindow, grab: bool) -> (InputWindow, Option<InputAction>) {
    (
        InputWindow { grabbed: grab, ..s },
        if grab != s.grabbed {
            Some(InputAction::GrabCursor(grab))
        } else {
            None
        },
    )
}

/// A left button coming up grabs the cursor; any other mouse event does nothing.
pub open spec fn spec_mouse_input(
    s: InputWindow,
    state: ElementState,
    button: MouseButton,
) -> (InputWindow, Option<InputAction>) {
    if state == ElementState::Released && button == MouseButton::Left {
        spec_set_grab(s, true)
    } else {
        (s, None)
    }
}

/// Escape coming up while Control is held releases the cursor; any other key
/// event does nothing.
pub open spec fn spec_keyboard_input(s: InputWindow, input: KeyboardInput) -> (
    InputWindow,
    Option<InputAction>,
) {
    if input.virtual_keycode == Some(KeyCode::Escape) && input.state == ElementState::Released
        && ctrl_held(s.modifiers) {
        spec_set_grab(s, false)
    } else {
        (s, None)
    }
}

/// While the cursor is grabbed, every cursor movement puts it back to the
/// centre of the window.
pub open spec fn spec_mouse_move(s: InputWindow, width: u32, height: u32) -> Option<InputAction> {
    if s.grabbed {
        Some(InputAction::SetCursorPosition { x: (width / 2) as u32, y: (height / 2) as u32 })
    } else {
        None
    }
}

/// The state after a window event and the action it calls for.
pub open spec fn spec_window_event(s: InputWindow, event: WindowEvent) -> (
    InputWindow,
    Option<InputAction>,
) {
    match event {
        WindowEvent::CloseRequested => (s, Some(InputAction::Quit)),
        WindowEvent::Destroyed => (s, Some(InputAction::Quit)),
        WindowEvent::KeyboardInput(input) => spec_keyboard_input(s, input),
        WindowEvent::MouseInput { state, button } => spec_mouse_input(s, state, button),
        WindowEvent::ModifiersChanged(bits) => (InputWindow { modifiers: bits, ..s }, None),
        WindowEvent::CursorMoved { window_width, window_height } => (
            s,
            spec_mouse_move(s, window_width, window_height),
        ),
        WindowEvent::Other => (s, None),
    }
}

impl InputWindow {
    /// The state of a newly opened input window and the request that opening
    /// it makes. A window starts out marked as grabbed with no modifier held
    /// and is then released, so it ends up ungrabbed and asks the windowing
    /// system to release the cursor.
    pub fn new() -> (r: (InputWindow, Option<InputAction>))
        ensures
            r.0 == (InputWindow { grabbed: false, modifiers: 0 }),
            r.1 == Some(InputAction::GrabCursor(false)),
    {
        let mut input_window = InputWindow { grabbed: true, modifiers: modifiers_empty() };
        let action = input_window.set_grab(false);
        (input_window, action)
    }

    /// Reacts to one window event: updates the state and says what the
    /// caller has to do on the real window.
    pub fn handle_window_event(&mut self, event: WindowEvent) -> (action: Option<InputAction>)
        ensures
            (*final(self), action) == spec_window_event(*old(self), event),
    {
        match event {
            WindowEvent::CloseRequested => Some(InputAction::Quit),
            WindowEvent::Destroyed => Some(InputAction::Quit),
            WindowEvent::KeyboardInput(input) => self.handle_keyboard_input(input),
            WindowEvent::MouseInput { state, button } => self.handle_mouse_input(state, button),
            WindowEvent::ModifiersChanged(bits) => {
                self.modifiers = bits;
                None
            },
            WindowEvent::CursorMoved { window_width, window_height } => {
                self.handle_mouse_move(window_width, window_height)
            },
            WindowEvent::Other => None,
        }
    }

    /// Reacts to the cursor moving inside a window of the given logical size.
    pub fn handle_mouse_move(&self, window_width: u32, window_height: u32) -> (action: Option<
        InputAction,
    >)
        ensures
            action == spec_mouse_move(*self, window_width, window_height),
    {
        if self.grabbed {
            Some(InputAction::SetCursorPosition { x: window_width / 2, y: window_height / 2 })
        } else {
            None
        }
    }

    /// Reacts to a mouse button going down or up.
    pub fn handle_mouse_input(&mut self, state: ElementState, button: MouseButton) -> (action:
        Option<InputAction>)
        ensures
            (*final(self), action) == spec_mouse_input(*old(self), state, button),
    {
        let released = match state {
            ElementState::Released => true,
            ElementState::Pressed => false,
        };
        let left = match button {
            MouseButton::Left => true,
            _ => false,
        };
        if released && left {
            self.set_grab(true)
        } else {
            None
        }
    }

    /// Reacts to a key going down or up.
    pub fn handle_keyboard_input(&mut self, input: KeyboardInput) -> (action: Option<InputAction>)
        ensures
            (*final(self), action) == spec_keyboard_input(*old(self), input),
    {
        let escape = match input.virtual_keycode {
            Some(KeyCode::Escape) => true,
            _ => false,
        };
        let released = match input.state {
            ElementState::Released => true,
            ElementState::Pressed => false,
        };
        if escape && released && modifiers_ctrl(self.modifiers) {
            self.set_grab(false)
        } else {
            None
        }
    }

    /// Records the grab state `grab` and, where it differs from the current
    /// one, asks for the cursor to be grabbed or released accordingly.
    pub fn set_grab(&mut self, grab: bool) -> (action: Option<InputAction>)
        ensures
            (*final(self), action) == spec_set_grab(*old(self), grab),
            final(self).grabbed == grab,
            final(self).modifiers == old(self).modifiers,
            old(self).grabbed != grab ==> action == Some(InputAction::GrabCursor(grab)),
            old(self).grabbed == grab ==> action == None::<InputAction>,
    {
        if grab != self.grabbed {
            self.grabbed = grab;
            Some(InputAction::GrabCursor(grab))
        } else {
            None
        }
    }

    /// The title to show once the windowing system has answered a request to
    /// grab (`grab == true`) or release the cursor: the title of the new state
    /// where the request succeeded, and none (the title stays) where it failed.
    pub fn title_after_grab(grab: bool, succeeded: bool) -> (title: Option<WindowTitle>)
        ensures
            title == (if succeeded { Some(title_for(grab)) } else { None }),
            succeeded && grab ==> title == Some(WindowTitle::Grabbed),
            succeeded && !grab ==> title == Some(WindowTitle::Ungrabbed),
            !succeeded ==> title == None::<WindowTitle>,
    {
        if succeeded {
            if grab {
                Some(WindowTitle::Grabbed)
            } else {
                Some(WindowTitle::Ungrabbed)
            }
        } else {
            None
        }
    }
}

/// The title shown after the caller has carried out `action`, where every
/// grab request gets the answer `succeeded`: only a grab request can change
/// the title.
pub open spec fn title_after_action(
    title: WindowTitle,
    action: Option<InputAction>,
    succeeded: bool,
) -> WindowTitle {
    match action {
        Some(InputAction::GrabCursor(g)) => if succeeded {
            title_for(g)
        } else {
            title
        },
        _ => title,
    }
}

/// Asking twice for the same grab state asks the windowing system only once:
/// the second call changes nothing and requests nothing.
pub proof fn lemma_set_grab_idempotent(s: InputWindow, grab: bool)
    ensures
        spec_set_grab(spec_set_grab(s, grab).0, grab) == (spec_set_grab(s, grab).0, None::<
            InputAction,
        >),
{
}

/// The grab state changes exactly when an event asks the windowing system to
/// grab or release the cursor, and the request is for the new state.
pub proof fn lemma_grab_changes_only_by_request(s: InputWindow, event: WindowEvent)
    ensures
        ({
            let (next, action) = spec_window_event(s, event);
            &&& next.grabbed != s.grabbed <==> action == Some(InputAction::GrabCursor(next.grabbed))
            &&& (forall|g: bool| action == Some(InputAction::GrabCursor(g)) ==> next.grabbed == g && s.grabbed != g)
        }),
{
}

/// Only a change of the held modifier keys changes the recorded modifier
/// set, and it records exactly the new set.
pub proof fn lemma_modifiers_follow_modifier_events(s: InputWindow, event: WindowEvent)
    ensures
        ({
            let next = spec_window_event(s, event).0;
            match event {
                WindowEvent::ModifiersChanged(bits) => next.modifiers == bits,
                _ => next.modifiers == s.modifiers,
            }
        }),
{
}

/// The cursor is put back only while it is grabbed, only on a cursor
/// movement, and always to the centre of the window.
pub proof fn lemma_recenter_only_when_grabbed(s: InputWindow, event: WindowEvent, x: u32, y: u32)
    ensures
        spec_window_event(s, event).1 == Some(InputAction::SetCursorPosition { x, y }) <==> (
        s.grabbed && exists|w: u32, h: u32|
            event == WindowEvent::CursorMoved { window_width: w, window_height: h } && x == w / 2
                && y == h / 2),
{
    if s.grabbed {
        if let WindowEvent::CursorMoved { window_width, window_height } = event {
            assert(event == WindowEvent::CursorMoved {
                window_width: window_width,
                window_height: window_height,
            });
        }
    }
}

/// Closing or destroying the window ends the program and leaves the state as it was.
pub proof fn lemma_close_quits(s: InputWindow)
    ensures
        spec_window_event(s, WindowEvent::CloseRequested) == (s, Some(InputAction::Quit)),
        spec_window_event(s, WindowEvent::Destroyed) == (s, Some(InputAction::Quit)),
{
}

/// Releasing the left mouse button always leaves the cursor grabbed, from any state.
pub proof fn lemma_left_click_grabs(s: InputWindow)
    ensures
        spec_window_event(
            s,
            WindowEvent::MouseInput { state: ElementState::Released, button: MouseButton::Left },
        ).0.grabbed,
{
}

/// Releasing Escape with Control held always leaves the cursor free; without
/// Control it changes nothing.
pub proof fn lemma_ctrl_escape_releases(s: InputWindow)
    ensures
        ({
            let e = WindowEvent::KeyboardInput(
                KeyboardInput {
                    virtual_keycode: Some(KeyCode::Escape),
                    state: ElementState::Released,
                },
            );
            &&& ctrl_held(s.modifiers) ==> !spec_window_event(s, e).0.grabbed
            &&& !ctrl_held(s.modifiers) ==> spec_window_event(s, e) == (s, None::<InputAction>)
        }),
{
}

/// Releasing the cursor with Control+Escape and clicking back in undoes the
/// release: from a grabbed window with Control held, the two events request a
/// release and then a grab, and end in the state they started from.
pub proof fn lemma_release_then_click_regrabs(s: InputWindow)
    requires
        s.grabbed,
        ctrl_held(s.modifiers),
    ensures
        ({
            let release = WindowEvent::KeyboardInput(
                KeyboardInput {
                    virtual_keycode: Some(KeyCode::Escape),
                    state: ElementState::Released,
                },
            );
            let click = WindowEvent::MouseInput {
                state: ElementState::Released,
                button: MouseButton::Left,
            };
            let (s1, a1) = spec_window_event(s, release);
            let (s2, a2) = spec_window_event(s1, click);
            &&& a1 == Some(InputAction::GrabCursor(false))
            &&& a2 == Some(InputAction::GrabCursor(true))
            &&& s2 == s
        }),
{
}

/// The title keeps matching the grab state: if it matched before an event
/// and the windowing system grants every grab request, it matches after the
/// caller has carried out the event's action.
pub proof fn lemma_title_tracks_grab(s: InputWindow, title: WindowTitle, event: WindowEvent)
    requires
        title == title_for(s.grabbed),
    ensures
        ({
            let (next, action) = spec_window_event(s, event);
            title_after_action(title, action, true) == title_for(next.grabbed)
        }),
{
}

/// Only closing or destroying the window ends the program, and ending it
/// leaves the state as it was; no key, click, modifier change or cursor
/// movement ever does.
pub proof fn lemma_only_close_quits(s: InputWindow, event: WindowEvent)
    ensures
        (spec_window_event(s, event).1 == Some(InputAction::Quit)) <==> (event
            == WindowEvent::CloseRequested || event == WindowEvent::Destroyed),
        (event == WindowEvent::CloseRequested || event == WindowEvent::Destroyed)
            ==> spec_window_event(s, event).0 == s,
{
}

/// A key event does exactly one thing: Escape coming up while Control (bit
/// 32 of the modifier set) is held, on a grabbed window, frees the cursor and
/// asks for its release. Every other key event, including Control+Escape on a
/// window that is already free, leaves the state as it was and asks nothing.
pub proof fn lemma_keyboard_input_effect(s: InputWindow, input: KeyboardInput)
    ensures
        ({
            let (next, action) = spec_window_event(s, WindowEvent::KeyboardInput(input));
            let releases = s.grabbed && input.virtual_keycode == Some(KeyCode::Escape)
                && input.state == ElementState::Released && s.modifiers & 32u32 != 0;
            &&& releases ==> next == InputWindow { grabbed: false, modifiers: s.modifiers }
                && action == Some(InputAction::GrabCursor(false))
            &&& !releases ==> next == s && action == None::<InputAction>
        }),
{
}

/// A mouse button event does exactly one thing: the left button coming up
/// grabs the cursor, asking for the grab only where the window was free.
/// Any other button, and any button going down, leaves the state as it was
/// and asks nothing.
pub proof fn lemma_mouse_input_effect(s: InputWindow, state: ElementState, button: MouseButton)
    ensures
        ({
            let (next, action) = spec_window_event(
                s,
                WindowEvent::MouseInput { state, button },
            );
            &&& (state == ElementState::Released && button == MouseButton::Left) ==> next
                == InputWindow { grabbed: true, modifiers: s.modifiers } && action == (if s.grabbed {
                None
            } else {
                Some(InputAction::GrabCursor(true))
            })
            &&& !(state == ElementState::Released && button == MouseButton::Left) ==> next == s
                && action == None::<InputAction>
        }),
{
}

/// A change of the held modifier keys records the new set, keeps the grab
/// state and asks nothing.
pub proof fn lemma_modifiers_changed_effect(s: InputWindow, bits: u32)
    ensures
        spec_window_event(s, WindowEvent::ModifiersChanged(bits)) == (InputWindow {
            grabbed: s.grabbed,
            modifiers: bits,
        }, None::<InputAction>),
{
}

/// Only a key or a mouse button event can change the grab state.
pub proof fn lemma_grab_changes_only_on_key_or_button(s: InputWindow, event: WindowEvent)
    ensures
        spec_window_event(s, event).0.grabbed != s.grabbed ==> (event is KeyboardInput
            || event is MouseInput),
{
}

} // verus!
