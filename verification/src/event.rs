//! What the platform reports to the runtime, as plain values.
//!
//! Floating-point payloads are carried by their bit patterns: binary32 in
//! a `u32`, binary64 in a `u64`.
use vstd::prelude::*;

verus! {

/// A size in device pixels.
#[derive(Clone, Copy, Debug, PartialEq, Eq)]
pub struct PhysicalSize {
    pub width: u32,
    pub height: u32,
}

/// A position in device pixels, each coordinate a binary64 bit pattern.
#[derive(Clone, Copy, Debug, PartialEq, Eq)]
pub struct PhysicalPosition {
    pub x: u64,
    pub y: u64,
}

/// How far a wheel or touchpad scrolled.
#[derive(Clone, Copy, Debug, PartialEq, Eq)]
pub enum MouseScrollDelta {
    /// Lines or rows, horizontal then vertical, as binary32 bit patterns.
    LineDelta(u32, u32),
    /// Pixels.
    PixelDelta(PhysicalPosition),
}

/// The named keys that the demos react to.
#[derive(Clone, Copy, Debug, PartialEq, Eq)]
pub enum NamedKey {
    ArrowDown,
    ArrowLeft,
    ArrowRight,
    ArrowUp,
    /// Any other named key.
    Other,
}

/// The key that was pressed or released, after keyboard layout.
#[derive(Clone, Copy, Debug, PartialEq, Eq)]
pub enum Key {
    Named(NamedKey),
    /// A key without a name: a character, a dead key, an unidentified key.
    Other,
}

/// A keyboard event.
#[derive(Clone, Debug, PartialEq, Eq)]
pub struct KeyEvent {
    pub logical_key: Key,
    /// The text that the key produced, if any.
    pub text: Option<String>,
}

/// An event of one window.
#[derive(Clone, Debug, PartialEq, Eq)]
pub enum WindowEvent {
    CloseRequested,
    KeyboardInput(KeyEvent),
    MouseWheel(MouseScrollDelta),
    CursorMoved(PhysicalPosition),
    Resized(PhysicalSize),
    RedrawRequested,
    /// Any other window event.
    Other,
}

/// An event of the platform's event loop.
#[derive(Clone, Debug, PartialEq, Eq)]
pub enum Event {
    WindowEvent { window_id: u64, event: WindowEvent },
    /// Any other event.
    Other,
}

/// What the runtime reads of its window.
#[derive(Clone, Copy, Debug, PartialEq, Eq)]
pub struct Window {
    pub id: u64,
    /// The size of the window's drawable area right now.
    pub inner_size: PhysicalSize,
}

/// A dimension of a surface is never zero: zero becomes one.
pub open spec fn clamped(dimension: u32) -> u32 {
    if dimension == 0 {
        1
    } else {
        dimension
    }
}

/// The dimension itself, or one where it is zero.
pub fn clamp_dimension(dimension: u32) -> (result: u32)
    ensures
        result == clamped(dimension),
        result >= 1,
{
    if dimension == 0 {
        1
    } else {
        dimension
    }
}

impl KeyEvent {
    /// The key produced exactly this one character as text.
    pub open spec fn typed(self, character: char) -> bool {
        self.text matches Some(text) && text@ == seq![character]
    }

    /// Whether the key produced exactly this one character as text.
    pub fn text_is(&self, character: char) -> (result: bool)
        ensures
            result == self.typed(character),
    {
        match &self.text {
            Some(text) => {
                let text = text.as_str();
                if text.unicode_len() == 1 {
                    let first = text.get_char(0);
                    assert(first == character ==> text@ =~= seq![character]);
                    first == character
                } else {
                    false
                }
            },
            None => false,
        }
    }
}

impl PhysicalSize {
    /// Neither dimension is zero.
    pub open spec fn is_drawable(self) -> bool {
        self.width >= 1 && self.height >= 1
    }

    /// The size with each zero dimension raised to one.
    pub open spec fn clamped(self) -> PhysicalSize {
        PhysicalSize { width: clamped(self.width), height: clamped(self.height) }
    }

    /// The size with each zero dimension raised to one.
    pub fn clamp(self) -> (result: PhysicalSize)
        ensures
            result == self.clamped(),
            result.is_drawable(),
    {
        PhysicalSize {
            width: clamp_dimension(self.width),
            height: clamp_dimension(self.height),
        }
    }
}

} // verus!
