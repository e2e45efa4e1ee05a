//! What a window system reports, as plain values: the events of a window,
//! of its input devices and of the event loop itself.

use vstd::prelude::*;

verus! {

/// The size of a surface in physical pixels.
#[derive(Debug, Clone, Copy, PartialEq, Eq, Structural)]
pub struct PhysicalSize {
    /// Pixels across.
    pub width: u32,
    /// Pixels down.
    pub height: u32,
}

impl PhysicalSize {
    /// Whether the size has no pixels: the size of a minimised window.
    pub open spec fn spec_is_empty(&self) -> bool {
        self.width == 0 || self.height == 0
    }

    /// Whether the size has no pixels: the size of a minimised window.
    #[verifier::when_used_as_spec(spec_is_empty)]
    pub fn is_empty(&self) -> (r: bool)
        ensures
            r == self.spec_is_empty(),
    {
        self.width == 0 || self.height == 0
    }
}

/// Identifies one window among those of the window system.
#[derive(Debug, Clone, Copy, PartialEq, Eq, Hash, Structural)]
pub struct WindowId(pub u64);

/// Whether a key or button went down or came up.
#[derive(Debug, Clone, Copy, PartialEq, Eq, Hash, Structural)]
pub enum ElementState {
    /// The key or button went down.
    Pressed,
    /// The key or button came up.
    Released,
}

/// A key of the keyboard, by its meaning rather than its place.
#[derive(Debug, Clone, Copy, PartialEq, Eq, Hash, Structural)]
pub enum KeyCode {
    /// The escape key.
    Escape,
    /// Any other key, by the number the window system gives it.
    Other(u32),
}

/// A button of the mouse.
#[derive(Debug, Clone, Copy, PartialEq, Eq, Hash, Structural)]
pub enum MouseButton {
    /// The left button.
    Left,
    /// The right button.
    Right,
    /// The middle button.
    Middle,
    /// Any other button, by its number.
    Other(u16),
}

/// Something that happened to a window.
#[derive(Debug, Clone, PartialEq, Eq)]
pub enum WindowEvent {
    /// The size of the window has changed.
    Resized(PhysicalSize),
    /// The user asked for the window to be closed.
    CloseRequested,
    /// A file was dropped into the window.
    DroppedFile(String),
    /// A file is being held over the window.
    HoveredFile(String),
    /// The window received a character of text.
    ReceivedCharacter(char),
    /// The window gained or lost focus.
    Focused(bool),
    /// A key went down or came up. `key` is absent where the window system
    /// could not tell which key it was.
    KeyboardInput {
        /// The key, where it is known.
        key: Option<KeyCode>,
        /// Whether it went down or came up.
        state: ElementState,
    },
    /// The cursor moved within the window.
    CursorMoved,
    /// The cursor entered the window.
    CursorEntered,
    /// The cursor left the window.
    CursorLeft,
    /// The mouse wheel or a touchpad scrolled.
    MouseWheel,
    /// A mouse button went down or came up.
    MouseInput {
        /// The button.
        button: MouseButton,
        /// Whether it went down or came up.
        state: ElementState,
    },
    /// The ratio of physical to logical pixels of the window changed, and
    /// with it the size of the window.
    ScaleFactorChanged {
        /// The new ratio.
        scale_factor: crate::window::ScaleFactor,
        /// The new size of the window.
        new_inner_size: PhysicalSize,
    },
    /// Any other event of a window.
    Other,
}

} // verus!
