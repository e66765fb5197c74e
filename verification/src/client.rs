//! Frames that the browser client sends to the streaming server.
use vstd::prelude::*;

use crate::wire::{
    action_of, Action, ClickAction, DisplayAction, DisplayActionKind, DisplayModifiers, DisplayNodeId, Frame,
    HoverAction, KeyDownAction, KeyUpAction, MouseDownAction, MouseUpAction, ScrollAction,
    ViewportChanged, WireFrame, WirePoint,
};

verus! {

/// A frame carrying an action aimed at node `node_id`.
pub open spec fn node_action_frame<T>(
    node_id: u64,
    element_id: Option<String>,
    action: Action,
) -> WireFrame<T> {
    WireFrame {
        frame: Some(
            Frame::Action(
                DisplayAction {
                    node_id: Some(DisplayNodeId { id: node_id }),
                    element_id,
                    action: Some(DisplayActionKind { action: Some(action) }),
                },
            ),
        ),
    }
}

/// A frame carrying an action aimed at no node in particular.
pub open spec fn global_action_frame<T>(action: Action) -> WireFrame<T> {
    WireFrame {
        frame: Some(
            Frame::Action(
                DisplayAction {
                    node_id: None,
                    element_id: None,
                    action: Some(DisplayActionKind { action: Some(action) }),
                },
            ),
        ),
    }
}

fn node_action<T>(node_id: u64, element_id: Option<String>, action: Action) -> (r: WireFrame<T>)
    ensures
        r == node_action_frame::<T>(node_id, element_id, action),
{
    WireFrame {
        frame: Some(
            Frame::Action(
                DisplayAction {
                    node_id: Some(DisplayNodeId { id: node_id }),
                    element_id,
                    action: Some(DisplayActionKind { action: Some(action) }),
                },
            ),
        ),
    }
}

fn global_action<T>(action: Action) -> (r: WireFrame<T>)
    ensures
        r == global_action_frame::<T>(action),
{
    WireFrame {
        frame: Some(
            Frame::Action(
                DisplayAction {
                    node_id: None,
                    element_id: None,
                    action: Some(DisplayActionKind { action: Some(action) }),
                },
            ),
        ),
    }
}

/// A click at `(x, y)` on node `node_id`.
pub fn click_frame<T>(
    node_id: u64,
    element_id: Option<String>,
    x: u32,
    y: u32,
    button: u32,
    click_count: u32,
    modifiers: DisplayModifiers,
) -> (r: WireFrame<T>)
    ensures
        r == node_action_frame::<T>(
            node_id,
            element_id,
            Action::Click(
                ClickAction {
                    position: Some(WirePoint { x, y }),
                    button,
                    click_count,
                    modifiers: Some(modifiers),
                },
            ),
        ),
{
    node_action(
        node_id,
        element_id,
        Action::Click(
            ClickAction {
                position: Some(WirePoint { x, y }),
                button,
                click_count,
                modifiers: Some(modifiers),
            },
        ),
    )
}

/// A mouse button press at `(x, y)` on node `node_id`.
pub fn mouse_down_frame<T>(
    node_id: u64,
    element_id: Option<String>,
    x: u32,
    y: u32,
    button: u32,
    modifiers: DisplayModifiers,
) -> (r: WireFrame<T>)
    ensures
        r == node_action_frame::<T>(
            node_id,
            element_id,
            Action::MouseDown(
                MouseDownAction {
                    position: Some(WirePoint { x, y }),
                    button,
                    modifiers: Some(modifiers),
                },
            ),
        ),
{
    node_action(
        node_id,
        element_id,
        Action::MouseDown(
            MouseDownAction { position: Some(WirePoint { x, y }), button, modifiers: Some(modifiers) },
        ),
    )
}

/// A mouse button release at `(x, y)` on node `node_id`.
pub fn mouse_up_frame<T>(
    node_id: u64,
    element_id: Option<String>,
    x: u32,
    y: u32,
    button: u32,
    modifiers: DisplayModifiers,
) -> (r: WireFrame<T>)
    ensures
        r == node_action_frame::<T>(
            node_id,
            element_id,
            Action::MouseUp(
                MouseUpAction {
                    position: Some(WirePoint { x, y }),
                    button,
                    modifiers: Some(modifiers),
                },
            ),
        ),
{
    node_action(
        node_id,
        element_id,
        Action::MouseUp(
            MouseUpAction { position: Some(WirePoint { x, y }), button, modifiers: Some(modifiers) },
        ),
    )
}

/// The pointer entered (`entered`) or left node `node_id`.
pub fn hover_frame<T>(node_id: u64, element_id: Option<String>, entered: bool) -> (r: WireFrame<
    T,
>)
    ensures
        r == node_action_frame::<T>(node_id, element_id, Action::Hover(HoverAction { entered })),
{
    node_action(node_id, element_id, Action::Hover(HoverAction { entered }))
}

/// A scroll by `(delta_x, delta_y)` over node `node_id`.
pub fn scroll_frame<T>(
    node_id: u64,
    element_id: Option<String>,
    delta_x: u32,
    delta_y: u32,
    modifiers: DisplayModifiers,
) -> (r: WireFrame<T>)
    ensures
        r == node_action_frame::<T>(
            node_id,
            element_id,
            Action::Scroll(
                ScrollAction {
                    delta: Some(WirePoint { x: delta_x, y: delta_y }),
                    modifiers: Some(modifiers),
                },
            ),
        ),
{
    node_action(
        node_id,
        element_id,
        Action::Scroll(
            ScrollAction {
                delta: Some(WirePoint { x: delta_x, y: delta_y }),
                modifiers: Some(modifiers),
            },
        ),
    )
}

/// A key press, not aimed at any node.
pub fn key_down_frame<T>(key: String, modifiers: DisplayModifiers) -> (r: WireFrame<T>)
    ensures
        r == global_action_frame::<T>(
            Action::KeyDown(KeyDownAction { key, modifiers: Some(modifiers) }),
        ),
{
    global_action(Action::KeyDown(KeyDownAction { key, modifiers: Some(modifiers) }))
}

/// A key release, not aimed at any node.
pub fn key_up_frame<T>(key: String, modifiers: DisplayModifiers) -> (r: WireFrame<T>)
    ensures
        r == global_action_frame::<T>(
            Action::KeyUp(KeyUpAction { key, modifiers: Some(modifiers) }),
        ),
{
    global_action(Action::KeyUp(KeyUpAction { key, modifiers: Some(modifiers) }))
}

/// The browser viewport changed.
pub fn viewport_changed_frame<T>(width: u32, height: u32, scale_factor: u32) -> (r: WireFrame<T>)
    ensures
        r == (WireFrame::<T> {
            frame: Some(Frame::ViewportChanged(ViewportChanged { width, height, scale_factor })),
        }),
{
    WireFrame {
        frame: Some(Frame::ViewportChanged(ViewportChanged { width, height, scale_factor })),
    }
}

/// A request for a full snapshot.
pub fn snapshot_request_frame<T>() -> (r: WireFrame<T>)
    ensures
        r == (WireFrame::<T> { frame: Some(Frame::RequestSnapshot) }),
{
    WireFrame { frame: Some(Frame::RequestSnapshot) }
}

/// The answer to ping `seq`.
pub fn pong_frame<T>(seq: u64) -> (r: WireFrame<T>)
    ensures
        r == (WireFrame::<T> { frame: Some(Frame::Pong(seq)) }),
{
    WireFrame { frame: Some(Frame::Pong(seq)) }
}

/// A full snapshot of the display tree `tree`, as the server publishes it.
pub fn snapshot_frame<T>(tree: T) -> (r: WireFrame<T>)
    ensures
        r == (WireFrame::<T> { frame: Some(Frame::Snapshot(tree)) }),
{
    WireFrame { frame: Some(Frame::Snapshot(tree)) }
}

/// A frame aimed at a node carries that node's id, the element id as given and
/// exactly the action given; a frame aimed at no node carries neither id.
pub proof fn lemma_action_frames_carry_their_arguments<T>(
    node_id: u64,
    element_id: Option<String>,
    action: Action,
)
    ensures
        node_action_frame::<T>(node_id, element_id, action).frame matches Some(Frame::Action(a))
            && a.node_id == Some(DisplayNodeId { id: node_id }) && a.element_id == element_id
            && action_of(a) == Some(action),
        global_action_frame::<T>(action).frame matches Some(Frame::Action(a)) && a.node_id is None
            && a.element_id is None && action_of(a) == Some(action),
{
}

} // verus!
