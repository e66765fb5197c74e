//! The frame protocol spoken between the browser client and the streaming
//! server. Every message is a `WireFrame` holding at most one `Frame`.
//!
//! Geometry travels as IEEE-754 single-precision values; this library carries
//! each such value as its 32-bit pattern and never computes with it.
use vstd::prelude::*;

verus! {

/// A point on the wire; `x` and `y` are the bit patterns of the coordinates.
#[derive(Debug, Clone, Copy, PartialEq, Eq, Structural)]
pub struct WirePoint {
    pub x: u32,
    pub y: u32,
}

/// Modifier keys held during a browser input event.
#[derive(Debug, Clone, Copy, PartialEq, Eq, Structural)]
pub struct DisplayModifiers {
    pub control: bool,
    pub alt: bool,
    pub shift: bool,
    pub meta: bool,
}

/// Identifier of a node of the display tree.
#[derive(Debug, Clone, Copy, PartialEq, Eq, Structural)]
pub struct DisplayNodeId {
    pub id: u64,
}

#[derive(Debug, Clone, Copy, PartialEq, Eq, Structural)]
pub struct ClickAction {
    pub position: Option<WirePoint>,
    pub button: u32,
    pub click_count: u32,
    pub modifiers: Option<DisplayModifiers>,
}

#[derive(Debug, Clone, Copy, PartialEq, Eq, Structural)]
pub struct MouseDownAction {
    pub position: Option<WirePoint>,
    pub button: u32,
    pub modifiers: Option<DisplayModifiers>,
}

#[derive(Debug, Clone, Copy, PartialEq, Eq, Structural)]
pub struct MouseUpAction {
    pub position: Option<WirePoint>,
    pub button: u32,
    pub modifiers: Option<DisplayModifiers>,
}

#[derive(Debug, Clone, Copy, PartialEq, Eq, Structural)]
pub struct MouseMoveAction {
    pub position: Option<WirePoint>,
    pub modifiers: Option<DisplayModifiers>,
}

#[derive(Debug, Clone, Copy, PartialEq, Eq, Structural)]
pub struct ScrollAction {
    pub delta: Option<WirePoint>,
    pub modifiers: Option<DisplayModifiers>,
}

#[derive(Debug, Clone, PartialEq, Eq)]
pub struct KeyDownAction {
    pub key: String,
    pub modifiers: Option<DisplayModifiers>,
}

#[derive(Debug, Clone, PartialEq, Eq)]
pub struct KeyUpAction {
    pub key: String,
    pub modifiers: Option<DisplayModifiers>,
}

#[derive(Debug, Clone, Copy, PartialEq, Eq, Structural)]
pub struct HoverAction {
    pub entered: bool,
}

/// One browser interaction.
#[derive(Debug, Clone, PartialEq, Eq)]
pub enum Action {
    Click(ClickAction),
    MouseDown(MouseDownAction),
    MouseUp(MouseUpAction),
    MouseMove(MouseMoveAction),
    Scroll(ScrollAction),
    KeyDown(KeyDownAction),
    KeyUp(KeyUpAction),
    Hover(HoverAction),
    Resize,
}

#[derive(Debug, Clone, PartialEq, Eq)]
pub struct DisplayActionKind {
    pub action: Option<Action>,
}

/// An interaction, optionally aimed at a node of the display tree.
#[derive(Debug, Clone, PartialEq, Eq)]
pub struct DisplayAction {
    pub node_id: Option<DisplayNodeId>,
    pub element_id: Option<String>,
    pub action: Option<DisplayActionKind>,
}

/// A viewport size; each field is the bit pattern of the value.
#[derive(Debug, Clone, Copy, PartialEq, Eq, Structural)]
pub struct ViewportChanged {
    pub width: u32,
    pub height: u32,
    pub scale_factor: u32,
}

/// The payload of a wire frame. `T` is the display tree that snapshots carry.
#[derive(Debug, Clone, PartialEq, Eq)]
pub enum Frame<T> {
    /// A full display tree (server to client).
    Snapshot(T),
    /// A patch against an earlier frame (server to client).
    Delta,
    /// An input was applied (server to client).
    ActionAck,
    /// The server's viewport (server to client).
    SetViewport(ViewportChanged),
    /// Liveness probe with a sequence number (server to client).
    Ping(u64),
    /// An interaction (client to server).
    Action(DisplayAction),
    /// The browser viewport changed (client to server).
    ViewportChanged(ViewportChanged),
    /// Ask for a full snapshot (client to server).
    RequestSnapshot,
    /// Answer to a ping (client to server).
    Pong(u64),
}

#[derive(Debug, Clone, PartialEq, Eq)]
pub struct WireFrame<T> {
    pub frame: Option<Frame<T>>,
}

/// The action kind carried by a display action, if any.
pub open spec fn action_of(a: DisplayAction) -> Option<Action> {
    match a.action {
        Some(k) => k.action,
        None => None,
    }
}

} // verus!
