//! How browser interactions become GPUI platform input events.
use vstd::prelude::*;
use vstd::string::StrSliceExecFns;

use crate::keys::{dom_key_to_gpui, gpui_key_name};
use crate::wire::{action_of, Action, DisplayAction, DisplayModifiers, WirePoint};

verus! {

/// Modifier keys as GPUI sees them.
#[derive(Debug, Clone, Copy, PartialEq, Eq, Structural)]
pub struct Modifiers {
    pub control: bool,
    pub alt: bool,
    pub shift: bool,
    pub platform: bool,
    pub function: bool,
}

#[derive(Debug, Clone, Copy, PartialEq, Eq, Structural)]
pub enum MouseButton {
    Left,
    Right,
    Middle,
}

#[derive(Debug, Clone, Copy, PartialEq, Eq, Structural)]
pub enum TouchPhase {
    Started,
    Moved,
    Ended,
}

#[derive(Debug, Clone, Copy, PartialEq, Eq, Structural)]
pub enum ScrollDelta {
    Pixels(WirePoint),
    Lines(WirePoint),
}

#[derive(Debug, Clone, Copy, PartialEq, Eq, Structural)]
pub struct MouseDownEvent {
    pub button: MouseButton,
    pub position: WirePoint,
    pub modifiers: Modifiers,
    pub click_count: usize,
    pub first_mouse: bool,
}

#[derive(Debug, Clone, Copy, PartialEq, Eq, Structural)]
pub struct MouseUpEvent {
    pub button: MouseButton,
    pub position: WirePoint,
    pub modifiers: Modifiers,
    pub click_count: usize,
}

#[derive(Debug, Clone, Copy, PartialEq, Eq, Structural)]
pub struct MouseMoveEvent {
    pub position: WirePoint,
    pub pressed_button: Option<MouseButton>,
    pub modifiers: Modifiers,
}

#[derive(Debug, Clone, Copy, PartialEq, Eq, Structural)]
pub struct ScrollWheelEvent {
    pub position: WirePoint,
    pub delta: ScrollDelta,
    pub modifiers: Modifiers,
    pub touch_phase: TouchPhase,
}

#[derive(Debug, Clone, PartialEq, Eq)]
pub struct Keystroke {
    pub modifiers: Modifiers,
    pub key: String,
    pub key_char: Option<String>,
}

#[derive(Debug, Clone, PartialEq, Eq)]
pub struct KeyDownEvent {
    pub keystroke: Keystroke,
    pub is_held: bool,
    pub prefer_character_input: bool,
}

#[derive(Debug, Clone, PartialEq, Eq)]
pub struct KeyUpEvent {
    pub keystroke: Keystroke,
}

/// An input event to inject into the GPUI application.
#[derive(Debug, Clone, PartialEq, Eq)]
pub enum PlatformInput {
    MouseDown(MouseDownEvent),
    MouseUp(MouseUpEvent),
    MouseMove(MouseMoveEvent),
    ScrollWheel(ScrollWheelEvent),
    KeyDown(KeyDownEvent),
    KeyUp(KeyUpEvent),
}

/// All modifiers released.
pub open spec fn no_modifiers() -> Modifiers {
    Modifiers { control: false, alt: false, shift: false, platform: false, function: false }
}

/// The origin, `(0, 0)`.
pub open spec fn origin() -> WirePoint {
    WirePoint { x: 0, y: 0 }
}

pub open spec fn spec_wire_modifiers(m: DisplayModifiers) -> Modifiers {
    Modifiers { control: m.control, alt: m.alt, shift: m.shift, platform: m.meta, function: false }
}

/// Modifiers of an action: the wire modifiers if present, else none held.
pub open spec fn modifiers_or_none(m: Option<DisplayModifiers>) -> Modifiers {
    match m {
        Some(m) => spec_wire_modifiers(m),
        None => no_modifiers(),
    }
}

pub open spec fn point_or_origin(p: Option<WirePoint>) -> WirePoint {
    match p {
        Some(p) => p,
        None => origin(),
    }
}

pub open spec fn spec_wire_button(button: u32) -> MouseButton {
    if button == 2 {
        MouseButton::Right
    } else if button == 1 {
        MouseButton::Middle
    } else {
        MouseButton::Left
    }
}

/// A click counts at least once.
pub open spec fn click_count_of(n: u32) -> usize {
    if n == 0 { 1 } else { n as usize }
}

/// A keystroke whose key is `key`, with `modifiers`, and whose typed character
/// is `expected_char`.
pub open spec fn keystroke_is(
    k: Keystroke,
    modifiers: Modifiers,
    key: Seq<char>,
    expected_char: bool,
) -> bool {
    &&& k.modifiers == modifiers
    &&& k.key@ == key
    &&& if expected_char {
        k.key_char is Some && k.key_char->0@ == key
    } else {
        k.key_char is None
    }
}

/// A key press types its key as a character when the key is a single character
/// and neither control nor the platform key is held.
pub open spec fn types_character(key: Seq<char>, m: Modifiers) -> bool {
    key.len() == 1 && !m.control && !m.platform
}

/// `out` is the sequence of platform inputs that stands for `action`.
pub open spec fn yields_inputs(action: DisplayAction, out: Seq<PlatformInput>) -> bool {
    match action_of(action) {
        None => out.len() == 0,
        Some(kind) => kind_yields_inputs(kind, out),
    }
}

/// `out` is the sequence of platform inputs that stands for an action of kind `kind`.
pub open spec fn kind_yields_inputs(kind: Action, out: Seq<PlatformInput>) -> bool {
    match kind {
        Action::Click(c) => {
            let button = spec_wire_button(c.button);
            let position = point_or_origin(c.position);
            let modifiers = modifiers_or_none(c.modifiers);
            let click_count = click_count_of(c.click_count);
            &&& out.len() == 2
            &&& out[0] == PlatformInput::MouseDown(
                MouseDownEvent { button, position, modifiers, click_count, first_mouse: false },
            )
            &&& out[1] == PlatformInput::MouseUp(
                MouseUpEvent { button, position, modifiers, click_count },
            )
        },
        Action::MouseDown(md) => out.len() == 1 && out[0] == PlatformInput::MouseDown(
                MouseDownEvent {
                    button: spec_wire_button(md.button),
                    position: point_or_origin(md.position),
                    modifiers: modifiers_or_none(md.modifiers),
                    click_count: 1,
                    first_mouse: false,
                },
            ),
        Action::MouseUp(mu) => out.len() == 1 && out[0] == PlatformInput::MouseUp(
                MouseUpEvent {
                    button: spec_wire_button(mu.button),
                    position: point_or_origin(mu.position),
                    modifiers: modifiers_or_none(mu.modifiers),
                    click_count: 1,
                },
            ),
        Action::MouseMove(mm) => out.len() == 1 && out[0] == PlatformInput::MouseMove(
                MouseMoveEvent {
                    position: point_or_origin(mm.position),
                    pressed_button: None,
                    modifiers: modifiers_or_none(mm.modifiers),
                },
            ),
        Action::Scroll(s) => out.len() == 1 && out[0] == PlatformInput::ScrollWheel(
                ScrollWheelEvent {
                    position: origin(),
                    delta: ScrollDelta::Pixels(point_or_origin(s.delta)),
                    modifiers: modifiers_or_none(s.modifiers),
                    touch_phase: TouchPhase::Moved,
                },
            ),
        Action::KeyDown(kd) => {
            let key = gpui_key_name(kd.key@);
            let modifiers = modifiers_or_none(kd.modifiers);
            if key.len() == 0 {
                out.len() == 0
            } else {
                &&& out.len() == 1
                &&& out[0] matches PlatformInput::KeyDown(e)
                &&& !e.is_held
                &&& !e.prefer_character_input
                &&& keystroke_is(e.keystroke, modifiers, key, types_character(key, modifiers))
            }
        },
        Action::KeyUp(ku) => {
            let key = gpui_key_name(ku.key@);
            if key.len() == 0 {
                out.len() == 0
            } else {
                &&& out.len() == 1
                &&& out[0] matches PlatformInput::KeyUp(e)
                &&& keystroke_is(e.keystroke, modifiers_or_none(ku.modifiers), key, false)
            }
        },
        Action::Hover(_) => out.len() == 0,
        Action::Resize => out.len() == 0,
    }
}

/// GPUI modifiers for wire modifiers; the meta key is GPUI's platform key.
pub fn wire_modifiers_to_gpui(m: &DisplayModifiers) -> (r: Modifiers)
    ensures
        r == spec_wire_modifiers(*m),
{
    Modifiers { control: m.control, alt: m.alt, shift: m.shift, platform: m.meta, function: false }
}

/// GPUI mouse button for a DOM button number: 1 is the middle button, 2 the
/// right one, and every other number the left one.
pub fn wire_button_to_gpui(button: u32) -> (r: MouseButton)
    ensures
        r == spec_wire_button(button),
{
    match button {
        2 => MouseButton::Right,
        1 => MouseButton::Middle,
        _ => MouseButton::Left,
    }
}

fn modifiers_of(m: &Option<DisplayModifiers>) -> (r: Modifiers)
    ensures
        r == modifiers_or_none(*m),
{
    match m {
        Some(m) => wire_modifiers_to_gpui(m),
        None => Modifiers {
            control: false,
            alt: false,
            shift: false,
            platform: false,
            function: false,
        },
    }
}

fn point_of(p: &Option<WirePoint>) -> (r: WirePoint)
    ensures
        r == point_or_origin(*p),
{
    match p {
        Some(p) => *p,
        None => WirePoint { x: 0, y: 0 },
    }
}

fn click_count_at_least_one(n: u32) -> (r: usize)
    ensures
        r == click_count_of(n),
{
    if n == 0 {
        1
    } else {
        n as usize
    }
}

/// The platform input events that a browser interaction stands for.
///
/// A click becomes a mouse-down followed by a mouse-up; key events for
/// modifier-only keys, hovers, resizes and actions without a kind give nothing.
pub fn action_to_platform_input(action: &DisplayAction) -> (r: Vec<PlatformInput>)
    ensures
        yields_inputs(*action, r@),
{
    match &action.action {
        Some(k) => match &k.action {
            Some(kind) => kind_to_platform_input(kind),
            None => vec![],
        },
        None => vec![],
    }
}

fn kind_to_platform_input(kind: &Action) -> (r: Vec<PlatformInput>)
    ensures
        kind_yields_inputs(*kind, r@),
{
    match kind {
        Action::Click(click) => {
            let position = point_of(&click.position);
            let modifiers = modifiers_of(&click.modifiers);
            let button = wire_button_to_gpui(click.button);
            let click_count = click_count_at_least_one(click.click_count);
            vec![
                PlatformInput::MouseDown(
                    MouseDownEvent { button, position, modifiers, click_count, first_mouse: false },
                ),
                PlatformInput::MouseUp(MouseUpEvent { button, position, modifiers, click_count }),
            ]
        },
        Action::MouseDown(md) => vec![
            PlatformInput::MouseDown(
                MouseDownEvent {
                    button: wire_button_to_gpui(md.button),
                    position: point_of(&md.position),
                    modifiers: modifiers_of(&md.modifiers),
                    click_count: 1,
                    first_mouse: false,
                },
            ),
        ],
        Action::MouseUp(mu) => vec![
            PlatformInput::MouseUp(
                MouseUpEvent {
                    button: wire_button_to_gpui(mu.button),
                    position: point_of(&mu.position),
                    modifiers: modifiers_of(&mu.modifiers),
                    click_count: 1,
                },
            ),
        ],
        Action::MouseMove(mm) => vec![
            PlatformInput::MouseMove(
                MouseMoveEvent {
                    position: point_of(&mm.position),
                    pressed_button: None,
                    modifiers: modifiers_of(&mm.modifiers),
                },
            ),
        ],
        Action::Scroll(scroll) => vec![
            PlatformInput::ScrollWheel(
                ScrollWheelEvent {
                    position: WirePoint { x: 0, y: 0 },
                    delta: ScrollDelta::Pixels(point_of(&scroll.delta)),
                    modifiers: modifiers_of(&scroll.modifiers),
                    touch_phase: TouchPhase::Moved,
                },
            ),
        ],
        Action::KeyDown(kd) => {
            let modifiers = modifiers_of(&kd.modifiers);
            let gpui_key = dom_key_to_gpui(kd.key.as_str());
            let len = gpui_key.as_str().unicode_len();
            if len == 0 {
                return vec![];
            }
            let key_char = if len == 1 && !modifiers.control && !modifiers.platform {
                Some(String::from_str(gpui_key.as_str()))
            } else {
                None
            };
            let keystroke = Keystroke { modifiers, key: gpui_key, key_char };
            vec![
                PlatformInput::KeyDown(
                    KeyDownEvent { keystroke, is_held: false, prefer_character_input: false },
                ),
            ]
        },
        Action::KeyUp(ku) => {
            let modifiers = modifiers_of(&ku.modifiers);
            let gpui_key = dom_key_to_gpui(ku.key.as_str());
            if gpui_key.as_str().unicode_len() == 0 {
                return vec![];
            }
            let keystroke = Keystroke { modifiers, key: gpui_key, key_char: None };
            vec![PlatformInput::KeyUp(KeyUpEvent { keystroke })]
        },
        Action::Hover(_) => vec![],
        Action::Resize => vec![],
    }
}

/// The modifiers an input event reports.
pub open spec fn event_modifiers(e: PlatformInput) -> Modifiers {
    match e {
        PlatformInput::MouseDown(e) => e.modifiers,
        PlatformInput::MouseUp(e) => e.modifiers,
        PlatformInput::MouseMove(e) => e.modifiers,
        PlatformInput::ScrollWheel(e) => e.modifiers,
        PlatformInput::KeyDown(e) => e.keystroke.modifiers,
        PlatformInput::KeyUp(e) => e.keystroke.modifiers,
    }
}

/// The wire modifiers an action carries, if any.
pub open spec fn action_modifiers(k: Action) -> Option<DisplayModifiers> {
    match k {
        Action::Click(c) => c.modifiers,
        Action::MouseDown(a) => a.modifiers,
        Action::MouseUp(a) => a.modifiers,
        Action::MouseMove(a) => a.modifiers,
        Action::Scroll(a) => a.modifiers,
        Action::KeyDown(a) => a.modifiers,
        Action::KeyUp(a) => a.modifiers,
        Action::Hover(_) => None,
        Action::Resize => None,
    }
}

/// Every event that an action gives reports the modifiers held during the
/// action: control, alt and shift as they were, meta as the platform key, and
/// never the function key; with no modifiers on the wire, none is held.
pub proof fn lemma_events_carry_action_modifiers(
    action: DisplayAction,
    out: Seq<PlatformInput>,
    i: int,
)
    requires
        yields_inputs(action, out),
        0 <= i < out.len(),
    ensures
        action_of(action) matches Some(k) && {
            let m = event_modifiers(out[i]);
            &&& !m.function
            &&& match action_modifiers(k) {
                Some(w) => m.control == w.control && m.alt == w.alt && m.shift == w.shift
                    && m.platform == w.meta,
                None => !m.control && !m.alt && !m.shift && !m.platform,
            }
        },
{
}

/// A key press types its key as a character exactly when the key's GPUI name
/// is a single character and neither control nor meta is held; shift and alt
/// do not matter. The typed character is the key name itself.
pub proof fn lemma_key_press_types_single_characters(
    action: DisplayAction,
    out: Seq<PlatformInput>,
    i: int,
)
    requires
        yields_inputs(action, out),
        0 <= i < out.len(),
        out[i] is KeyDown,
    ensures
        action_of(action) matches Some(Action::KeyDown(kd)) && out[i] matches PlatformInput::KeyDown(
            e,
        ) && {
            let held = match kd.modifiers {
                Some(m) => m.control || m.meta,
                None => false,
            };
            &&& (e.keystroke.key@.len() == 1 && !held) ==> (e.keystroke.key_char matches Some(c)
                && c@ == e.keystroke.key@)
            &&& (e.keystroke.key@.len() != 1 || held) ==> e.keystroke.key_char is None
        },
{
}

/// The GPUI button for a DOM button number, stated as a table: 0 is the left
/// button, 1 the middle one, 2 the right one, and any other number falls back
/// to the left button.
pub proof fn lemma_button_numbers(button: u32)
    ensures
        spec_wire_button(0) == MouseButton::Left,
        spec_wire_button(1) == MouseButton::Middle,
        spec_wire_button(2) == MouseButton::Right,
        button > 2 ==> spec_wire_button(button) == MouseButton::Left,
{
}

/// How many events each kind of action gives: a click two (a press, then a
/// release), every other pointer action one event of its own kind, a key
/// action one key event unless the key has no GPUI name, and a hover, a
/// resize or an action without a kind none.
pub proof fn lemma_event_counts(action: DisplayAction, out: Seq<PlatformInput>)
    requires
        yields_inputs(action, out),
    ensures
        (action_of(action) is None || action_of(action) matches Some(Action::Hover(_))
            || action_of(action) matches Some(Action::Resize)) ==> out.len() == 0,
        action_of(action) matches Some(Action::Click(_)) ==> (out.len() == 2 && out[0] is MouseDown
            && out[1] is MouseUp),
        action_of(action) matches Some(Action::MouseDown(_)) ==> (out.len() == 1
            && out[0] is MouseDown),
        action_of(action) matches Some(Action::MouseUp(_)) ==> (out.len() == 1 && out[0] is MouseUp),
        action_of(action) matches Some(Action::MouseMove(_)) ==> (out.len() == 1
            && out[0] is MouseMove),
        action_of(action) matches Some(Action::Scroll(_)) ==> (out.len() == 1
            && out[0] is ScrollWheel),
        action_of(action) matches Some(Action::KeyDown(kd)) ==> (out.len() <= 1 && (out.len() == 1
            ==> out[0] is KeyDown) && (out.len() == 0 <==> gpui_key_name(kd.key@).len() == 0)),
        action_of(action) matches Some(Action::KeyUp(ku)) ==> (out.len() <= 1 && (out.len() == 1
            ==> out[0] is KeyUp) && (out.len() == 0 <==> gpui_key_name(ku.key@).len() == 0)),
{
}

/// Where a pointer event is reported: at the action's position, or at the
/// origin when the action carries none.
pub open spec fn reported_at(p: Option<WirePoint>) -> WirePoint {
    match p {
        Some(q) => q,
        None => WirePoint { x: 0, y: 0 },
    }
}

/// Pointer events happen where the action happened, with the action's
/// button; a click's press and release agree and count at least one click
/// (the wire count when it is positive); a plain press or release counts one
/// click. A scroll is reported at the origin and moves by the action's delta
/// (nothing when it has none).
pub proof fn lemma_pointer_events(action: DisplayAction, out: Seq<PlatformInput>)
    requires
        yields_inputs(action, out),
    ensures
        action_of(action) matches Some(Action::Click(c)) ==> (out[0] matches PlatformInput::MouseDown(
            d,
        ) && out[1] matches PlatformInput::MouseUp(u) && d.button == u.button && d.position
            == u.position && d.click_count == u.click_count && d.click_count >= 1 && (c.click_count
            > 0 ==> d.click_count == c.click_count) && d.button == spec_wire_button(c.button)
            && d.position == reported_at(c.position) && !d.first_mouse),
        action_of(action) matches Some(Action::MouseDown(a)) ==> (out[0] matches PlatformInput::MouseDown(
            d,
        ) && d.button == spec_wire_button(a.button) && d.click_count == 1 && d.position
            == reported_at(a.position)),
        action_of(action) matches Some(Action::MouseUp(a)) ==> (out[0] matches PlatformInput::MouseUp(
            u,
        ) && u.button == spec_wire_button(a.button) && u.click_count == 1 && u.position
            == reported_at(a.position)),
        action_of(action) matches Some(Action::MouseMove(a)) ==> (out[0] matches PlatformInput::MouseMove(
            m,
        ) && m.pressed_button is None && m.position == reported_at(a.position)),
        action_of(action) matches Some(Action::Scroll(a)) ==> (out[0] matches PlatformInput::ScrollWheel(
            w,
        ) && w.position == reported_at(None) && w.touch_phase == TouchPhase::Moved && w.delta
            == ScrollDelta::Pixels(reported_at(a.delta))),
{
}

/// Key events carry the key's GPUI name; a release never types a character
/// and a press is never reported as held.
pub proof fn lemma_key_events_name_the_key(action: DisplayAction, out: Seq<PlatformInput>, i: int)
    requires
        yields_inputs(action, out),
        0 <= i < out.len(),
    ensures
        out[i] matches PlatformInput::KeyDown(e) ==> action_of(action) matches Some(
            Action::KeyDown(kd),
        ) && e.keystroke.key@ == gpui_key_name(kd.key@) && !e.is_held
            && !e.prefer_character_input,
        out[i] matches PlatformInput::KeyUp(e) ==> action_of(action) matches Some(
            Action::KeyUp(ku),
        ) && e.keystroke.key@ == gpui_key_name(ku.key@) && e.keystroke.key_char is None,
{
}

} // verus!
