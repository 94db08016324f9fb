use vstd::prelude::*;

verus! {

/// What the per-frame hook asks of the run loop.
#[derive(Clone, Copy, Debug, PartialEq, Eq, Structural)]
pub enum AppState {
    Exit,
    Continue,
}

/// An RGBA color. Each channel is the IEEE-754 single-precision bit pattern of
/// the channel's value, so a color passes through the host unchanged.
#[derive(Clone, Copy, Debug, PartialEq, Eq, Structural)]
pub struct Color {
    pub r: u32,
    pub g: u32,
    pub b: u32,
    pub a: u32,
}

/// Bit pattern of the single-precision value nearest to 0.8.
pub const LIGHT_CHANNEL: u32 = 0x3F4C_CCCD;

/// Bit pattern of the single-precision value 1.0.
pub const FULL_CHANNEL: u32 = 0x3F80_0000;

impl Color {
    /// The background of a host that was given none: opaque light grey.
    pub open spec fn spec_light_grey() -> Color {
        Color { r: LIGHT_CHANNEL, g: LIGHT_CHANNEL, b: LIGHT_CHANNEL, a: FULL_CHANNEL }
    }

    #[verifier::when_used_as_spec(spec_light_grey)]
    pub fn light_grey() -> (color: Color)
        ensures
            color == Color::spec_light_grey(),
    {
        Color { r: LIGHT_CHANNEL, g: LIGHT_CHANNEL, b: LIGHT_CHANNEL, a: FULL_CHANNEL }
    }

    /// The channels in the order red, green, blue, alpha.
    pub fn as_arr(&self) -> (channels: [u32; 4])
        ensures
            channels@ == seq![self.r, self.g, self.b, self.a],
    {
        let channels: [u32; 4] = [self.r, self.g, self.b, self.a];
        assert(channels@ =~= seq![self.r, self.g, self.b, self.a]);
        channels
    }
}

/// One window event, reduced to what the run loop reads of it.
///
/// Pointer coordinates are the IEEE-754 double-precision bit patterns of the
/// window system's coordinates.
#[derive(Clone, Copy, Debug, PartialEq, Eq, Structural)]
pub enum Event {
    /// The user asked to close the window.
    Closed,
    /// The Escape key was pressed.
    EscapePressed,
    /// The window now has this width and height.
    Resized(u32, u32),
    /// The pointer moved to this position.
    CursorMoved(u64, u64),
    /// The primary pointer button was pressed.
    LeftPressed,
    /// Anything else.
    Other,
}

/// Why the host gave up.
#[derive(Debug, PartialEq, Eq)]
pub enum AppError<RE> {
    /// The window or its GPU context could not be created; holds the cause's
    /// description.
    CreationError(String),
    /// The GPU context could not be made current or its buffers could not be
    /// swapped; holds the cause's description.
    ContextError(String),
    /// The render backend failed; holds its own error.
    RendererError(RE),
    /// The window's size could not be queried: the window is gone.
    WindowNoLongerExists,
    /// A run was started while another run held the event source.
    EventsLoopIsNone,
}

/// Tracks the pointer: the last position that a pointer-move event reported.
#[derive(Clone, Copy, Debug, PartialEq, Eq, Structural)]
pub struct MouseInput {
    x: u64,
    y: u64,
}

impl View for MouseInput {
    type V = (u64, u64);

    closed spec fn view(&self) -> (u64, u64) {
        (self.x, self.y)
    }
}

impl MouseInput {
    /// A tracker that has seen no move yet: it stands at the origin.
    pub fn new() -> (tracker: MouseInput)
        ensures
            tracker@ == (0u64, 0u64),
    {
        MouseInput { x: 0, y: 0 }
    }

    /// Overwrites the last known position.
    pub fn update_pos(&mut self, x: u64, y: u64)
        ensures
            final(self)@ == (x, y),
    {
        self.x = x;
        self.y = y;
    }

    /// The position at which a press is dispatched: the last known one.
    pub fn position(&self) -> (pos: (u64, u64))
        ensures
            pos == self@,
    {
        (self.x, self.y)
    }
}

} // verus!
