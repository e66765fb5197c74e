//! What the streaming server does with the frames a client sends.
use vstd::prelude::*;

use crate::client::{global_action_frame, node_action_frame};
use crate::input::{
    action_to_platform_input, click_count_of, keystroke_is, modifiers_or_none, spec_wire_button,
    yields_inputs, types_character, MouseDownEvent, MouseUpEvent, PlatformInput,
};
use crate::keys::{gpui_key_name, is_modifier_only_key};
use crate::wire::{
    Action, ClickAction, DisplayModifiers, Frame, KeyDownAction, KeyUpAction, ViewportChanged,
    WireFrame, WirePoint,
};

verus! {

/// Work for the GPUI application that a client frame asks for.
#[derive(Debug, Clone, PartialEq, Eq)]
pub enum ServerCommand {
    /// Resize the streamed window. The sizes are bit patterns; sizes that
    /// are not positive are dropped by the server loop, which owns the
    /// floating-point comparison.
    Resize(ViewportChanged),
    /// Inject an input event.
    Inject(PlatformInput),
}

/// The input events carried by a sequence of `Inject` commands.
pub open spec fn injected(cmds: Seq<ServerCommand>) -> Seq<PlatformInput> {
    Seq::new(
        cmds.len(),
        |i: int|
            match cmds[i] {
                ServerCommand::Inject(e) => e,
                ServerCommand::Resize(_) => arbitrary(),
            },
    )
}

/// `cmds` is what the server does for the client frame `frame`: a viewport
/// change resizes, an action injects the input events it stands for, and
/// every other frame is ignored.
pub open spec fn commands_for<T>(frame: WireFrame<T>, cmds: Seq<ServerCommand>) -> bool {
    match frame.frame {
        Some(Frame::ViewportChanged(vc)) => cmds.len() == 1 && cmds[0] == ServerCommand::Resize(
            vc,
        ),
        Some(Frame::Action(a)) => {
            &&& forall|i: int| 0 <= i < cmds.len() ==> #[trigger] cmds[i] is Inject
            &&& yields_inputs(a, injected(cmds))
        },
        _ => cmds.len() == 0,
    }
}

/// The commands for one frame received from a client.
pub fn client_frame_commands<T>(frame: &WireFrame<T>) -> (r: Vec<ServerCommand>)
    ensures
        commands_for(*frame, r@),
{
    match &frame.frame {
        Some(Frame::ViewportChanged(vc)) => vec![ServerCommand::Resize(*vc)],
        Some(Frame::Action(action)) => {
            let mut events = action_to_platform_input(action);
            let ghost all = events@;
            let mut cmds: Vec<ServerCommand> = Vec::new();
            while events.len() > 0
                invariant
                    cmds@.len() + events@.len() == all.len(),
                    events@ == all.subrange(cmds@.len() as int, all.len() as int),
                    forall|j: int| 0 <= j < cmds@.len() ==> cmds@[j] == ServerCommand::Inject(all[j]),
                decreases events@.len(),
            {
                let e = events.remove(0);
                cmds.push(ServerCommand::Inject(e));
            }
            assert(injected(cmds@) =~= all);
            cmds
        },
        _ => vec![],
    }
}

/// A click that a client sends reaches the application as a press followed by
/// a release of the same button, at the click's position, counting at least
/// one click.
pub proof fn lemma_click_becomes_press_then_release<T>(
    node_id: u64,
    element_id: Option<String>,
    x: u32,
    y: u32,
    button: u32,
    click_count: u32,
    modifiers: DisplayModifiers,
    cmds: Seq<ServerCommand>,
)
    requires
        commands_for(
            node_action_frame::<T>(
                node_id,
                element_id,
                Action::Click(
                    ClickAction {
                        position: Some(WirePoint { x, y }),
                        button,
                        click_count,
                        modifiers: Some(modifiers),
                    },
                ),
            ),
            cmds,
        ),
    ensures
        cmds.len() == 2,
        cmds[0] == ServerCommand::Inject(
            PlatformInput::MouseDown(
                MouseDownEvent {
                    button: spec_wire_button(button),
                    position: WirePoint { x, y },
                    modifiers: modifiers_or_none(Some(modifiers)),
                    click_count: click_count_of(click_count),
                    first_mouse: false,
                },
            ),
        ),
        cmds[1] == ServerCommand::Inject(
            PlatformInput::MouseUp(
                MouseUpEvent {
                    button: spec_wire_button(button),
                    position: WirePoint { x, y },
                    modifiers: modifiers_or_none(Some(modifiers)),
                    click_count: click_count_of(click_count),
                },
            ),
        ),
        click_count_of(click_count) >= 1,
{
    assert(cmds[0] is Inject);
    assert(cmds[1] is Inject);
}

/// A key press that a client sends reaches the application as one key-down
/// event for the key's GPUI name, typing the key as a character when it is a
/// single character pressed without control or the platform key; a
/// modifier-only key sends nothing.
pub proof fn lemma_key_press_reaches_app<T>(
    key: String,
    modifiers: DisplayModifiers,
    cmds: Seq<ServerCommand>,
)
    requires
        commands_for(
            global_action_frame::<T>(
                Action::KeyDown(KeyDownAction { key, modifiers: Some(modifiers) }),
            ),
            cmds,
        ),
    ensures
        is_modifier_only_key(key@) ==> cmds.len() == 0,
        !is_modifier_only_key(key@) && gpui_key_name(key@).len() > 0 ==> {
            &&& cmds.len() == 1
            &&& cmds[0] matches ServerCommand::Inject(PlatformInput::KeyDown(e))
            &&& keystroke_is(
                e.keystroke,
                modifiers_or_none(Some(modifiers)),
                gpui_key_name(key@),
                types_character(gpui_key_name(key@), modifiers_or_none(Some(modifiers))),
            )
        },
{
    if cmds.len() > 0 {
        assert(cmds[0] is Inject);
    }
}

/// A key release of a modifier-only key sends nothing to the application.
pub proof fn lemma_modifier_release_sends_nothing<T>(
    key: String,
    modifiers: DisplayModifiers,
    cmds: Seq<ServerCommand>,
)
    requires
        is_modifier_only_key(key@),
        commands_for(
            global_action_frame::<T>(Action::KeyUp(KeyUpAction { key, modifiers: Some(modifiers) })),
            cmds,
        ),
    ensures
        cmds.len() == 0,
{
}

/// A viewport change is forwarded as exactly one resize to the same size; an
/// action gives only input injections, as many as the events it stands for;
/// every other frame asks the application for nothing.
pub proof fn lemma_routing<T>(frame: WireFrame<T>, cmds: Seq<ServerCommand>)
    requires
        commands_for(frame, cmds),
    ensures
        frame.frame matches Some(Frame::ViewportChanged(vc)) ==> (cmds.len() == 1
            && cmds[0] == ServerCommand::Resize(vc)),
        frame.frame matches Some(Frame::Action(_)) ==> forall|i: int|
            0 <= i < cmds.len() ==> !(#[trigger] cmds[i] is Resize),
        !(frame.frame matches Some(Frame::ViewportChanged(_))) && !(frame.frame matches Some(
            Frame::Action(_),
        )) ==> cmds.len() == 0,
{
    if frame.frame matches Some(Frame::Action(_)) {
        assert forall|i: int| 0 <= i < cmds.len() implies !(#[trigger] cmds[i] is Resize) by {
            assert(cmds[i] is Inject);
        }
    }
}

} // verus!
