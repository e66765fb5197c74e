use zed_web::client::{
    click_frame, hover_frame, key_down_frame, key_up_frame, mouse_down_frame, mouse_up_frame,
    pong_frame, scroll_frame, snapshot_frame, snapshot_request_frame, viewport_changed_frame,
};
use zed_web::input::{MouseButton, PlatformInput};
use zed_web::remote_view::{RemoteView, Reply};
use zed_web::server::{client_frame_commands, ServerCommand};
use zed_web::wire::{
    Action, ClickAction, DisplayAction, DisplayActionKind, DisplayModifiers, DisplayNodeId, Frame,
    HoverAction, KeyDownAction, ViewportChanged, WireFrame, WirePoint,
};
use zed_web::PROTOCOL_VERSION;

type Tree = &'static str;

fn mods() -> DisplayModifiers {
    DisplayModifiers { control: false, alt: false, shift: true, meta: false }
}

#[test]
fn protocol_version() {
    assert_eq!(PROTOCOL_VERSION, 68);
}

#[test]
fn click_frame_shape() {
    let f: WireFrame<Tree> = click_frame(9, Some("button".to_string()), 1, 2, 0, 1, mods());
    assert_eq!(
        f,
        WireFrame {
            frame: Some(Frame::Action(DisplayAction {
                node_id: Some(DisplayNodeId { id: 9 }),
                element_id: Some("button".to_string()),
                action: Some(DisplayActionKind {
                    action: Some(Action::Click(ClickAction {
                        position: Some(WirePoint { x: 1, y: 2 }),
                        button: 0,
                        click_count: 1,
                        modifiers: Some(mods()),
                    })),
                }),
            })),
        }
    );
}

#[test]
fn key_frames_target_no_node() {
    let f: WireFrame<Tree> = key_down_frame("a".to_string(), mods());
    assert_eq!(
        f,
        WireFrame {
            frame: Some(Frame::Action(DisplayAction {
                node_id: None,
                element_id: None,
                action: Some(DisplayActionKind {
                    action: Some(Action::KeyDown(KeyDownAction {
                        key: "a".to_string(),
                        modifiers: Some(mods()),
                    })),
                }),
            })),
        }
    );
    let f: WireFrame<Tree> = key_up_frame("a".to_string(), mods());
    match f.frame {
        Some(Frame::Action(a)) => {
            assert_eq!(a.node_id, None);
            assert!(matches!(
                a.action,
                Some(DisplayActionKind { action: Some(Action::KeyUp(_)) })
            ));
        }
        other => panic!("unexpected {:?}", other),
    }
}

#[test]
fn other_client_frames() {
    let f: WireFrame<Tree> = hover_frame(3, None, true);
    match f.frame {
        Some(Frame::Action(a)) => {
            assert_eq!(a.node_id, Some(DisplayNodeId { id: 3 }));
            assert_eq!(
                a.action,
                Some(DisplayActionKind { action: Some(Action::Hover(HoverAction { entered: true })) })
            );
        }
        other => panic!("unexpected {:?}", other),
    }
    let f: WireFrame<Tree> = scroll_frame(3, None, 5, 6, mods());
    assert!(matches!(f.frame, Some(Frame::Action(_))));
    let f: WireFrame<Tree> = mouse_down_frame(3, None, 5, 6, 1, mods());
    assert!(matches!(f.frame, Some(Frame::Action(_))));
    let f: WireFrame<Tree> = mouse_up_frame(3, None, 5, 6, 1, mods());
    assert!(matches!(f.frame, Some(Frame::Action(_))));
    let f: WireFrame<Tree> = viewport_changed_frame(1, 2, 3);
    assert_eq!(
        f.frame,
        Some(Frame::ViewportChanged(ViewportChanged { width: 1, height: 2, scale_factor: 3 }))
    );
    let f: WireFrame<Tree> = snapshot_request_frame();
    assert_eq!(f.frame, Some(Frame::RequestSnapshot));
    let f: WireFrame<Tree> = pong_frame(41);
    assert_eq!(f.frame, Some(Frame::Pong(41)));
    assert_eq!(snapshot_frame("tree").frame, Some(Frame::Snapshot("tree")));
}

#[test]
fn view_shows_latest_snapshot() {
    let mut view: RemoteView<Tree> = RemoteView::new();
    assert_eq!(view.tree(), &None);
    assert_eq!(view.apply_frame(snapshot_frame("first")), None);
    assert_eq!(view.tree(), &Some("first"));
    assert_eq!(view.apply_frame(snapshot_frame("second")), None);
    assert_eq!(view.tree(), &Some("second"));
}

#[test]
fn delta_asks_for_snapshot_and_keeps_tree() {
    let mut view: RemoteView<Tree> = RemoteView::new();
    view.apply_frame(snapshot_frame("first"));
    let reply = view.apply_frame(WireFrame { frame: Some(Frame::Delta) });
    assert_eq!(reply, Some(Reply::RequestSnapshot));
    assert_eq!(view.tree(), &Some("first"));
}

#[test]
fn ping_is_answered_with_same_seq() {
    let mut view: RemoteView<Tree> = RemoteView::new();
    assert_eq!(view.apply_frame(WireFrame { frame: Some(Frame::Ping(17)) }), Some(Reply::Pong(17)));
    assert_eq!(view.tree(), &None);
}

#[test]
fn other_frames_change_nothing() {
    let mut view: RemoteView<Tree> = RemoteView::new();
    view.apply_frame(snapshot_frame("t"));
    assert_eq!(view.apply_frame(WireFrame { frame: None }), None);
    assert_eq!(view.apply_frame(WireFrame { frame: Some(Frame::ActionAck) }), None);
    let vc = ViewportChanged { width: 1, height: 1, scale_factor: 1 };
    assert_eq!(view.apply_frame(WireFrame { frame: Some(Frame::SetViewport(vc)) }), None);
    assert_eq!(view.tree(), &Some("t"));
}

#[test]
fn server_routes_client_frames() {
    let vc = ViewportChanged { width: 10, height: 20, scale_factor: 30 };
    let f: WireFrame<Tree> = viewport_changed_frame(10, 20, 30);
    assert_eq!(client_frame_commands(&f), vec![ServerCommand::Resize(vc)]);

    let f: WireFrame<Tree> = click_frame(1, None, 4, 5, 2, 3, mods());
    let cmds = client_frame_commands(&f);
    assert_eq!(cmds.len(), 2);
    match (&cmds[0], &cmds[1]) {
        (
            ServerCommand::Inject(PlatformInput::MouseDown(d)),
            ServerCommand::Inject(PlatformInput::MouseUp(u)),
        ) => {
            assert_eq!(d.button, MouseButton::Right);
            assert_eq!(d.position, WirePoint { x: 4, y: 5 });
            assert_eq!(d.click_count, 3);
            assert!(d.modifiers.shift);
            assert_eq!(u.position, d.position);
        }
        other => panic!("unexpected {:?}", other),
    }

    let f: WireFrame<Tree> = key_down_frame("Shift".to_string(), mods());
    assert!(client_frame_commands(&f).is_empty());
    let f: WireFrame<Tree> = pong_frame(1);
    assert!(client_frame_commands(&f).is_empty());
    let f: WireFrame<Tree> = snapshot_request_frame();
    assert!(client_frame_commands(&f).is_empty());
}
