use vstd::prelude::*;

use crate::http::{decimal, digit_char};
use crate::text::str_eq;

verus! {

/// What `str::to_lowercase` gives for a string: its Unicode lowercase mapping.
pub uninterp spec fn lowercase_of(s: Seq<char>) -> Seq<char>;

/// Calls `str::to_lowercase`; the contract names its result `lowercase_of`, which
/// depends on the characters of the argument alone. Each character maps to one or
/// more characters (`char::to_lowercase`), so the result is empty exactly when the
/// argument is; nothing else is claimed of the Unicode case tables.
#[verifier::external_body]
fn str_to_lowercase(s: &str) -> (r: String)
    ensures
        r@ == lowercase_of(s@),
        s@.len() == 0 <==> r@.len() == 0,
{
    s.to_lowercase()
}

/// DOM key names that only report a modifier and produce no key event of their own.
pub open spec fn is_modifier_only_key(k: Seq<char>) -> bool {
    k == "Shift"@
        || k == "Control"@
        || k == "Alt"@
        || k == "Meta"@
        || k == "CapsLock"@
        || k == "NumLock"@
        || k == "ScrollLock"@
}

/// The GPUI name of a DOM key that has a dedicated name (arrows, navigation,
/// editing keys, space and the function keys), if it has one.
pub open spec fn named_key(k: Seq<char>) -> Option<Seq<char>> {
    if k == "ArrowLeft"@ {
        Some("left"@)
    } else if k == "ArrowRight"@ {
        Some("right"@)
    } else if k == "ArrowUp"@ {
        Some("up"@)
    } else if k == "ArrowDown"@ {
        Some("down"@)
    } else if k == "Home"@ {
        Some("home"@)
    } else if k == "End"@ {
        Some("end"@)
    } else if k == "PageUp"@ {
        Some("pageup"@)
    } else if k == "PageDown"@ {
        Some("pagedown"@)
    } else if k == "Backspace"@ {
        Some("backspace"@)
    } else if k == "Delete"@ {
        Some("delete"@)
    } else if k == "Enter"@ {
        Some("enter"@)
    } else if k == "Tab"@ {
        Some("tab"@)
    } else if k == "Escape"@ {
        Some("escape"@)
    } else if k == "Insert"@ {
        Some("insert"@)
    } else if k == " "@ {
        Some("space"@)
    } else if k == "F1"@ {
        Some("f1"@)
    } else if k == "F2"@ {
        Some("f2"@)
    } else if k == "F3"@ {
        Some("f3"@)
    } else if k == "F4"@ {
        Some("f4"@)
    } else if k == "F5"@ {
        Some("f5"@)
    } else if k == "F6"@ {
        Some("f6"@)
    } else if k == "F7"@ {
        Some("f7"@)
    } else if k == "F8"@ {
        Some("f8"@)
    } else if k == "F9"@ {
        Some("f9"@)
    } else if k == "F10"@ {
        Some("f10"@)
    } else if k == "F11"@ {
        Some("f11"@)
    } else if k == "F12"@ {
        Some("f12"@)
    } else {
        None
    }
}

/// GPUI's key name for a DOM `KeyboardEvent.key` value: empty for modifier-only
/// keys, the dedicated name where there is one, and otherwise the lowercase of
/// the DOM value.
pub open spec fn gpui_key_name(k: Seq<char>) -> Seq<char> {
    if is_modifier_only_key(k) {
        Seq::empty()
    } else {
        match named_key(k) {
            Some(n) => n,
            None => lowercase_of(k),
        }
    }
}

fn named_key_exec(k: &str) -> (r: Option<&'static str>)
    ensures
        match named_key(k@) {
            Some(n) => r is Some && r->0@ == n && n.len() > 0 && k@.len() > 0,
            None => r is None,
        },
{
    proof {
        reveal_strlit("ArrowLeft");
        reveal_strlit("ArrowRight");
        reveal_strlit("ArrowUp");
        reveal_strlit("ArrowDown");
        reveal_strlit("Home");
        reveal_strlit("End");
        reveal_strlit("PageUp");
        reveal_strlit("PageDown");
        reveal_strlit("Backspace");
        reveal_strlit("Delete");
        reveal_strlit("Enter");
        reveal_strlit("Tab");
        reveal_strlit("Escape");
        reveal_strlit("Insert");
        reveal_strlit(" ");
        reveal_strlit("F1");
        reveal_strlit("F2");
        reveal_strlit("F3");
        reveal_strlit("F4");
        reveal_strlit("F5");
        reveal_strlit("F6");
        reveal_strlit("F7");
        reveal_strlit("F8");
        reveal_strlit("F9");
        reveal_strlit("F10");
        reveal_strlit("F11");
        reveal_strlit("F12");
        reveal_strlit("left");
        reveal_strlit("right");
        reveal_strlit("up");
        reveal_strlit("down");
        reveal_strlit("home");
        reveal_strlit("end");
        reveal_strlit("pageup");
        reveal_strlit("pagedown");
        reveal_strlit("backspace");
        reveal_strlit("delete");
        reveal_strlit("enter");
        reveal_strlit("tab");
        reveal_strlit("escape");
        reveal_strlit("insert");
        reveal_strlit("space");
        reveal_strlit("f1");
        reveal_strlit("f2");
        reveal_strlit("f3");
        reveal_strlit("f4");
        reveal_strlit("f5");
        reveal_strlit("f6");
        reveal_strlit("f7");
        reveal_strlit("f8");
        reveal_strlit("f9");
        reveal_strlit("f10");
        reveal_strlit("f11");
        reveal_strlit("f12");
    }
    if str_eq(k, "ArrowLeft") {
        return Some("left");
    }
    if str_eq(k, "ArrowRight") {
        return Some("right");
    }
    if str_eq(k, "ArrowUp") {
        return Some("up");
    }
    if str_eq(k, "ArrowDown") {
        return Some("down");
    }
    if str_eq(k, "Home") {
        return Some("home");
    }
    if str_eq(k, "End") {
        return Some("end");
    }
    if str_eq(k, "PageUp") {
        return Some("pageup");
    }
    if str_eq(k, "PageDown") {
        return Some("pagedown");
    }
    if str_eq(k, "Backspace") {
        return Some("backspace");
    }
    if str_eq(k, "Delete") {
        return Some("delete");
    }
    if str_eq(k, "Enter") {
        return Some("enter");
    }
    if str_eq(k, "Tab") {
        return Some("tab");
    }
    if str_eq(k, "Escape") {
        return Some("escape");
    }
    if str_eq(k, "Insert") {
        return Some("insert");
    }
    if str_eq(k, " ") {
        return Some("space");
    }
    if str_eq(k, "F1") {
        return Some("f1");
    }
    if str_eq(k, "F2") {
        return Some("f2");
    }
    if str_eq(k, "F3") {
        return Some("f3");
    }
    if str_eq(k, "F4") {
        return Some("f4");
    }
    if str_eq(k, "F5") {
        return Some("f5");
    }
    if str_eq(k, "F6") {
        return Some("f6");
    }
    if str_eq(k, "F7") {
        return Some("f7");
    }
    if str_eq(k, "F8") {
        return Some("f8");
    }
    if str_eq(k, "F9") {
        return Some("f9");
    }
    if str_eq(k, "F10") {
        return Some("f10");
    }
    if str_eq(k, "F11") {
        return Some("f11");
    }
    if str_eq(k, "F12") {
        return Some("f12");
    }
    None
}

/// Map a DOM `KeyboardEvent.key` value to GPUI's lowercase key name.
/// Returns the empty string for modifier-only keys, which generate no event,
/// and for the empty key; every other key gets a non-empty name.
pub fn dom_key_to_gpui(dom_key: &str) -> (r: String)
    ensures
        r@ == gpui_key_name(dom_key@),
        r@.len() == 0 <==> (dom_key@.len() == 0 || is_modifier_only_key(dom_key@)),
{
    if str_eq(dom_key, "Shift")
        || str_eq(dom_key, "Control")
        || str_eq(dom_key, "Alt")
        || str_eq(dom_key, "Meta")
        || str_eq(dom_key, "CapsLock")
        || str_eq(dom_key, "NumLock")
        || str_eq(dom_key, "ScrollLock") {
        return String::new();
    }
    match named_key_exec(dom_key) {
        Some(name) => String::from_str(name),
        None => str_to_lowercase(dom_key),
    }
}

/// The DOM names of the arrow, navigation and editing keys and of the space
/// bar, with the GPUI name each gets: the arrows lose their `Arrow` prefix,
/// the space bar is `space`, and every other name is lowercased.
pub proof fn lemma_named_key_table()
    ensures
        gpui_key_name("ArrowLeft"@) == "left"@,
        gpui_key_name("ArrowRight"@) == "right"@,
        gpui_key_name("ArrowUp"@) == "up"@,
        gpui_key_name("ArrowDown"@) == "down"@,
        gpui_key_name("Home"@) == "home"@,
        gpui_key_name("End"@) == "end"@,
        gpui_key_name("PageUp"@) == "pageup"@,
        gpui_key_name("PageDown"@) == "pagedown"@,
        gpui_key_name("Backspace"@) == "backspace"@,
        gpui_key_name("Delete"@) == "delete"@,
        gpui_key_name("Enter"@) == "enter"@,
        gpui_key_name("Tab"@) == "tab"@,
        gpui_key_name("Escape"@) == "escape"@,
        gpui_key_name("Insert"@) == "insert"@,
        gpui_key_name(" "@) == "space"@,

{
    assert(gpui_key_name("ArrowLeft"@) == "left"@) by {
        reveal_strlit("ArrowLeft");
        reveal_strlit("left");
        assert("ArrowLeft"@.len() == 9);
        reveal_strlit("Shift");
        assert("Shift"@.len() == 5);
        reveal_strlit("Control");
        assert("Control"@.len() == 7);
        reveal_strlit("Alt");
        assert("Alt"@.len() == 3);
        reveal_strlit("Meta");
        assert("Meta"@.len() == 4);
        reveal_strlit("CapsLock");
        assert("CapsLock"@.len() == 8);
        reveal_strlit("NumLock");
        assert("NumLock"@.len() == 7);
        reveal_strlit("ScrollLock");
        assert("ScrollLock"@.len() == 10);
    }
    assert(gpui_key_name("ArrowRight"@) == "right"@) by {
        reveal_strlit("ArrowRight");
        reveal_strlit("right");
        assert("ArrowRight"@.len() == 10);
        reveal_strlit("Shift");
        assert("Shift"@.len() == 5);
        reveal_strlit("Control");
        assert("Control"@.len() == 7);
        reveal_strlit("Alt");
        assert("Alt"@.len() == 3);
        reveal_strlit("Meta");
        assert("Meta"@.len() == 4);
        reveal_strlit("CapsLock");
        assert("CapsLock"@.len() == 8);
        reveal_strlit("NumLock");
        assert("NumLock"@.len() == 7);
        reveal_strlit("ScrollLock");
        assert("ScrollLock"@.len() == 10);
        assert("ArrowRight"@[0] != "ScrollLock"@[0]);
        reveal_strlit("ArrowLeft");
        assert("ArrowLeft"@.len() == 9);
    }
    assert(gpui_key_name("ArrowUp"@) == "up"@) by {
        reveal_strlit("ArrowUp");
        reveal_strlit("up");
        assert("ArrowUp"@.len() == 7);
        reveal_strlit("Shift");
        assert("Shift"@.len() == 5);
        reveal_strlit("Control");
        assert("Control"@.len() == 7);
        assert("ArrowUp"@[0] != "Control"@[0]);
        reveal_strlit("Alt");
        assert("Alt"@.len() == 3);
        reveal_strlit("Meta");
        assert("Meta"@.len() == 4);
        reveal_strlit("CapsLock");
        assert("CapsLock"@.len() == 8);
        reveal_strlit("NumLock");
        assert("NumLock"@.len() == 7);
        assert("ArrowUp"@[0] != "NumLock"@[0]);
        reveal_strlit("ScrollLock");
        assert("ScrollLock"@.len() == 10);
        reveal_strlit("ArrowLeft");
        assert("ArrowLeft"@.len() == 9);
        reveal_strlit("ArrowRight");
        assert("ArrowRight"@.len() == 10);
    }
    assert(gpui_key_name("ArrowDown"@) == "down"@) by {
        reveal_strlit("ArrowDown");
        reveal_strlit("down");
        assert("ArrowDown"@.len() == 9);
        reveal_strlit("Shift");
        assert("Shift"@.len() == 5);
        reveal_strlit("Control");
        assert("Control"@.len() == 7);
        reveal_strlit("Alt");
        assert("Alt"@.len() == 3);
        reveal_strlit("Meta");
        assert("Meta"@.len() == 4);
        reveal_strlit("CapsLock");
        assert("CapsLock"@.len() == 8);
        reveal_strlit("NumLock");
        assert("NumLock"@.len() == 7);
        reveal_strlit("ScrollLock");
        assert("ScrollLock"@.len() == 10);
        reveal_strlit("ArrowLeft");
        assert("ArrowLeft"@.len() == 9);
        assert("ArrowDown"@[5] != "ArrowLeft"@[5]);
        reveal_strlit("ArrowRight");
        assert("ArrowRight"@.len() == 10);
        reveal_strlit("ArrowUp");
        assert("ArrowUp"@.len() == 7);
    }
    assert(gpui_key_name("Home"@) == "home"@) by {
        reveal_strlit("Home");
        reveal_strlit("home");
        assert("Home"@.len() == 4);
        reveal_strlit("Shift");
        assert("Shift"@.len() == 5);
        reveal_strlit("Control");
        assert("Control"@.len() == 7);
        reveal_strlit("Alt");
        assert("Alt"@.len() == 3);
        reveal_strlit("Meta");
        assert("Meta"@.len() == 4);
        assert("Home"@[0] != "Meta"@[0]);
        reveal_strlit("CapsLock");
        assert("CapsLock"@.len() == 8);
        reveal_strlit("NumLock");
        assert("NumLock"@.len() == 7);
        reveal_strlit("ScrollLock");
        assert("ScrollLock"@.len() == 10);
        reveal_strlit("ArrowLeft");
        assert("ArrowLeft"@.len() == 9);
        reveal_strlit("ArrowRight");
        assert("ArrowRight"@.len() == 10);
        reveal_strlit("ArrowUp");
        assert("ArrowUp"@.len() == 7);
        reveal_strlit("ArrowDown");
        assert("ArrowDown"@.len() == 9);
    }
    assert(gpui_key_name("End"@) == "end"@) by {
        reveal_strlit("End");
        reveal_strlit("end");
        assert("End"@.len() == 3);
        reveal_strlit("Shift");
        assert("Shift"@.len() == 5);
        reveal_strlit("Control");
        assert("Control"@.len() == 7);
        reveal_strlit("Alt");
        assert("Alt"@.len() == 3);
        assert("End"@[0] != "Alt"@[0]);
        reveal_strlit("Meta");
        assert("Meta"@.len() == 4);
        reveal_strlit("CapsLock");
        assert("CapsLock"@.len() == 8);
        reveal_strlit("NumLock");
        assert("NumLock"@.len() == 7);
        reveal_strlit("ScrollLock");
        assert("ScrollLock"@.len() == 10);
        reveal_strlit("ArrowLeft");
        assert("ArrowLeft"@.len() == 9);
        reveal_strlit("ArrowRight");
        assert("ArrowRight"@.len() == 10);
        reveal_strlit("ArrowUp");
        assert("ArrowUp"@.len() == 7);
        reveal_strlit("ArrowDown");
        assert("ArrowDown"@.len() == 9);
        reveal_strlit("Home");
        assert("Home"@.len() == 4);
    }
    assert(gpui_key_name("PageUp"@) == "pageup"@) by {
        reveal_strlit("PageUp");
        reveal_strlit("pageup");
        assert("PageUp"@.len() == 6);
        reveal_strlit("Shift");
        assert("Shift"@.len() == 5);
        reveal_strlit("Control");
        assert("Control"@.len() == 7);
        reveal_strlit("Alt");
        assert("Alt"@.len() == 3);
        reveal_strlit("Meta");
        assert("Meta"@.len() == 4);
        reveal_strlit("CapsLock");
        assert("CapsLock"@.len() == 8);
        reveal_strlit("NumLock");
        assert("NumLock"@.len() == 7);
        reveal_strlit("ScrollLock");
        assert("ScrollLock"@.len() == 10);
        reveal_strlit("ArrowLeft");
        assert("ArrowLeft"@.len() == 9);
        reveal_strlit("ArrowRight");
        assert("ArrowRight"@.len() == 10);
        reveal_strlit("ArrowUp");
        assert("ArrowUp"@.len() == 7);
        reveal_strlit("ArrowDown");
        assert("ArrowDown"@.len() == 9);
        reveal_strlit("Home");
        assert("Home"@.len() == 4);
        reveal_strlit("End");
        assert("End"@.len() == 3);
    }
    assert(gpui_key_name("PageDown"@) == "pagedown"@) by {
        reveal_strlit("PageDown");
        reveal_strlit("pagedown");
        assert("PageDown"@.len() == 8);
        reveal_strlit("Shift");
        assert("Shift"@.len() == 5);
        reveal_strlit("Control");
        assert("Control"@.len() == 7);
        reveal_strlit("Alt");
        assert("Alt"@.len() == 3);
        reveal_strlit("Meta");
        assert("Meta"@.len() == 4);
        reveal_strlit("CapsLock");
        assert("CapsLock"@.len() == 8);
        assert("PageDown"@[0] != "CapsLock"@[0]);
        reveal_strlit("NumLock");
        assert("NumLock"@.len() == 7);
        reveal_strlit("ScrollLock");
        assert("ScrollLock"@.len() == 10);
        reveal_strlit("ArrowLeft");
        assert("ArrowLeft"@.len() == 9);
        reveal_strlit("ArrowRight");
        assert("ArrowRight"@.len() == 10);
        reveal_strlit("ArrowUp");
        assert("ArrowUp"@.len() == 7);
        reveal_strlit("ArrowDown");
        assert("ArrowDown"@.len() == 9);
        reveal_strlit("Home");
        assert("Home"@.len() == 4);
        reveal_strlit("End");
        assert("End"@.len() == 3);
        reveal_strlit("PageUp");
        assert("PageUp"@.len() == 6);
    }
    assert(gpui_key_name("Backspace"@) == "backspace"@) by {
        reveal_strlit("Backspace");
        reveal_strlit("backspace");
        assert("Backspace"@.len() == 9);
        reveal_strlit("Shift");
        assert("Shift"@.len() == 5);
        reveal_strlit("Control");
        assert("Control"@.len() == 7);
        reveal_strlit("Alt");
        assert("Alt"@.len() == 3);
        reveal_strlit("Meta");
        assert("Meta"@.len() == 4);
        reveal_strlit("CapsLock");
        assert("CapsLock"@.len() == 8);
        reveal_strlit("NumLock");
        assert("NumLock"@.len() == 7);
        reveal_strlit("ScrollLock");
        assert("ScrollLock"@.len() == 10);
        reveal_strlit("ArrowLeft");
        assert("ArrowLeft"@.len() == 9);
        assert("Backspace"@[0] != "ArrowLeft"@[0]);
        reveal_strlit("ArrowRight");
        assert("ArrowRight"@.len() == 10);
        reveal_strlit("ArrowUp");
        assert("ArrowUp"@.len() == 7);
        reveal_strlit("ArrowDown");
        assert("ArrowDown"@.len() == 9);
        assert("Backspace"@[0] != "ArrowDown"@[0]);
        reveal_strlit("Home");
        assert("Home"@.len() == 4);
        reveal_strlit("End");
        assert("End"@.len() == 3);
        reveal_strlit("PageUp");
        assert("PageUp"@.len() == 6);
        reveal_strlit("PageDown");
        assert("PageDown"@.len() == 8);
    }
    assert(gpui_key_name("Delete"@) == "delete"@) by {
        reveal_strlit("Delete");
        reveal_strlit("delete");
        assert("Delete"@.len() == 6);
        reveal_strlit("Shift");
        assert("Shift"@.len() == 5);
        reveal_strlit("Control");
        assert("Control"@.len() == 7);
        reveal_strlit("Alt");
        assert("Alt"@.len() == 3);
        reveal_strlit("Meta");
        assert("Meta"@.len() == 4);
        reveal_strlit("CapsLock");
        assert("CapsLock"@.len() == 8);
        reveal_strlit("NumLock");
        assert("NumLock"@.len() == 7);
        reveal_strlit("ScrollLock");
        assert("ScrollLock"@.len() == 10);
        reveal_strlit("ArrowLeft");
        assert("ArrowLeft"@.len() == 9);
        reveal_strlit("ArrowRight");
        assert("ArrowRight"@.len() == 10);
        reveal_strlit("ArrowUp");
        assert("ArrowUp"@.len() == 7);
        reveal_strlit("ArrowDown");
        assert("ArrowDown"@.len() == 9);
        reveal_strlit("Home");
        assert("Home"@.len() == 4);
        reveal_strlit("End");
        assert("End"@.len() == 3);
        reveal_strlit("PageUp");
        assert("PageUp"@.len() == 6);
        assert("Delete"@[0] != "PageUp"@[0]);
        reveal_strlit("PageDown");
        assert("PageDown"@.len() == 8);
        reveal_strlit("Backspace");
        assert("Backspace"@.len() == 9);
    }
    assert(gpui_key_name("Enter"@) == "enter"@) by {
        reveal_strlit("Enter");
        reveal_strlit("enter");
        assert("Enter"@.len() == 5);
        reveal_strlit("Shift");
        assert("Shift"@.len() == 5);
        assert("Enter"@[0] != "Shift"@[0]);
        reveal_strlit("Control");
        assert("Control"@.len() == 7);
        reveal_strlit("Alt");
        assert("Alt"@.len() == 3);
        reveal_strlit("Meta");
        assert("Meta"@.len() == 4);
        reveal_strlit("CapsLock");
        assert("CapsLock"@.len() == 8);
        reveal_strlit("NumLock");
        assert("NumLock"@.len() == 7);
        reveal_strlit("ScrollLock");
        assert("ScrollLock"@.len() == 10);
        reveal_strlit("ArrowLeft");
        assert("ArrowLeft"@.len() == 9);
        reveal_strlit("ArrowRight");
        assert("ArrowRight"@.len() == 10);
        reveal_strlit("ArrowUp");
        assert("ArrowUp"@.len() == 7);
        reveal_strlit("ArrowDown");
        assert("ArrowDown"@.len() == 9);
        reveal_strlit("Home");
        assert("Home"@.len() == 4);
        reveal_strlit("End");
        assert("End"@.len() == 3);
        reveal_strlit("PageUp");
        assert("PageUp"@.len() == 6);
        reveal_strlit("PageDown");
        assert("PageDown"@.len() == 8);
        reveal_strlit("Backspace");
        assert("Backspace"@.len() == 9);
        reveal_strlit("Delete");
        assert("Delete"@.len() == 6);
    }
    assert(gpui_key_name("Tab"@) == "tab"@) by {
        reveal_strlit("Tab");
        reveal_strlit("tab");
        assert("Tab"@.len() == 3);
        reveal_strlit("Shift");
        assert("Shift"@.len() == 5);
        reveal_strlit("Control");
        assert("Control"@.len() == 7);
        reveal_strlit("Alt");
        assert("Alt"@.len() == 3);
        assert("Tab"@[0] != "Alt"@[0]);
        reveal_strlit("Meta");
        assert("Meta"@.len() == 4);
        reveal_strlit("CapsLock");
        assert("CapsLock"@.len() == 8);
        reveal_strlit("NumLock");
        assert("NumLock"@.len() == 7);
        reveal_strlit("ScrollLock");
        assert("ScrollLock"@.len() == 10);
        reveal_strlit("ArrowLeft");
        assert("ArrowLeft"@.len() == 9);
        reveal_strlit("ArrowRight");
        assert("ArrowRight"@.len() == 10);
        reveal_strlit("ArrowUp");
        assert("ArrowUp"@.len() == 7);
        reveal_strlit("ArrowDown");
        assert("ArrowDown"@.len() == 9);
        reveal_strlit("Home");
        assert("Home"@.len() == 4);
        reveal_strlit("End");
        assert("End"@.len() == 3);
        assert("Tab"@[0] != "End"@[0]);
        reveal_strlit("PageUp");
        assert("PageUp"@.len() == 6);
        reveal_strlit("PageDown");
        assert("PageDown"@.len() == 8);
        reveal_strlit("Backspace");
        assert("Backspace"@.len() == 9);
        reveal_strlit("Delete");
        assert("Delete"@.len() == 6);
        reveal_strlit("Enter");
        assert("Enter"@.len() == 5);
    }
    assert(gpui_key_name("Escape"@) == "escape"@) by {
        reveal_strlit("Escape");
        reveal_strlit("escape");
        assert("Escape"@.len() == 6);
        reveal_strlit("Shift");
        assert("Shift"@.len() == 5);
        reveal_strlit("Control");
        assert("Control"@.len() == 7);
        reveal_strlit("Alt");
        assert("Alt"@.len() == 3);
        reveal_strlit("Meta");
        assert("Meta"@.len() == 4);
        reveal_strlit("CapsLock");
        assert("CapsLock"@.len() == 8);
        reveal_strlit("NumLock");
        assert("NumLock"@.len() == 7);
        reveal_strlit("ScrollLock");
        assert("ScrollLock"@.len() == 10);
        reveal_strlit("ArrowLeft");
        assert("ArrowLeft"@.len() == 9);
        reveal_strlit("ArrowRight");
        assert("ArrowRight"@.len() == 10);
        reveal_strlit("ArrowUp");
        assert("ArrowUp"@.len() == 7);
        reveal_strlit("ArrowDown");
        assert("ArrowDown"@.len() == 9);
        reveal_strlit("Home");
        assert("Home"@.len() == 4);
        reveal_strlit("End");
        assert("End"@.len() == 3);
        reveal_strlit("PageUp");
        assert("PageUp"@.len() == 6);
        assert("Escape"@[0] != "PageUp"@[0]);
        reveal_strlit("PageDown");
        assert("PageDown"@.len() == 8);
        reveal_strlit("Backspace");
        assert("Backspace"@.len() == 9);
        reveal_strlit("Delete");
        assert("Delete"@.len() == 6);
        assert("Escape"@[0] != "Delete"@[0]);
        reveal_strlit("Enter");
        assert("Enter"@.len() == 5);
        reveal_strlit("Tab");
        assert("Tab"@.len() == 3);
    }
    assert(gpui_key_name("Insert"@) == "insert"@) by {
        reveal_strlit("Insert");
        reveal_strlit("insert");
        assert("Insert"@.len() == 6);
        reveal_strlit("Shift");
        assert("Shift"@.len() == 5);
        reveal_strlit("Control");
        assert("Control"@.len() == 7);
        reveal_strlit("Alt");
        assert("Alt"@.len() == 3);
        reveal_strlit("Meta");
        assert("Meta"@.len() == 4);
        reveal_strlit("CapsLock");
        assert("CapsLock"@.len() == 8);
        reveal_strlit("NumLock");
        assert("NumLock"@.len() == 7);
        reveal_strlit("ScrollLock");
        assert("ScrollLock"@.len() == 10);
        reveal_strlit("ArrowLeft");
        assert("ArrowLeft"@.len() == 9);
        reveal_strlit("ArrowRight");
        assert("ArrowRight"@.len() == 10);
        reveal_strlit("ArrowUp");
        assert("ArrowUp"@.len() == 7);
        reveal_strlit("ArrowDown");
        assert("ArrowDown"@.len() == 9);
        reveal_strlit("Home");
        assert("Home"@.len() == 4);
        reveal_strlit("End");
        assert("End"@.len() == 3);
        reveal_strlit("PageUp");
        assert("PageUp"@.len() == 6);
        assert("Insert"@[0] != "PageUp"@[0]);
        reveal_strlit("PageDown");
        assert("PageDown"@.len() == 8);
        reveal_strlit("Backspace");
        assert("Backspace"@.len() == 9);
        reveal_strlit("Delete");
        assert("Delete"@.len() == 6);
        assert("Insert"@[0] != "Delete"@[0]);
        reveal_strlit("Enter");
        assert("Enter"@.len() == 5);
        reveal_strlit("Tab");
        assert("Tab"@.len() == 3);
        reveal_strlit("Escape");
        assert("Escape"@.len() == 6);
        assert("Insert"@[0] != "Escape"@[0]);
    }
    assert(gpui_key_name(" "@) == "space"@) by {
        reveal_strlit(" ");
        reveal_strlit("space");
        assert(" "@.len() == 1);
        reveal_strlit("Shift");
        assert("Shift"@.len() == 5);
        reveal_strlit("Control");
        assert("Control"@.len() == 7);
        reveal_strlit("Alt");
        assert("Alt"@.len() == 3);
        reveal_strlit("Meta");
        assert("Meta"@.len() == 4);
        reveal_strlit("CapsLock");
        assert("CapsLock"@.len() == 8);
        reveal_strlit("NumLock");
        assert("NumLock"@.len() == 7);
        reveal_strlit("ScrollLock");
        assert("ScrollLock"@.len() == 10);
        reveal_strlit("ArrowLeft");
        assert("ArrowLeft"@.len() == 9);
        reveal_strlit("ArrowRight");
        assert("ArrowRight"@.len() == 10);
        reveal_strlit("ArrowUp");
        assert("ArrowUp"@.len() == 7);
        reveal_strlit("ArrowDown");
        assert("ArrowDown"@.len() == 9);
        reveal_strlit("Home");
        assert("Home"@.len() == 4);
        reveal_strlit("End");
        assert("End"@.len() == 3);
        reveal_strlit("PageUp");
        assert("PageUp"@.len() == 6);
        reveal_strlit("PageDown");
        assert("PageDown"@.len() == 8);
        reveal_strlit("Backspace");
        assert("Backspace"@.len() == 9);
        reveal_strlit("Delete");
        assert("Delete"@.len() == 6);
        reveal_strlit("Enter");
        assert("Enter"@.len() == 5);
        reveal_strlit("Tab");
        assert("Tab"@.len() == 3);
        reveal_strlit("Escape");
        assert("Escape"@.len() == 6);
        reveal_strlit("Insert");
        assert("Insert"@.len() == 6);
    }
}

/// Function key `Fn`, for `n` from 1 to 12, gets the GPUI name `fn`.
pub proof fn lemma_function_keys(n: nat)
    requires
        1 <= n <= 12,
    ensures
        gpui_key_name(seq!['F'] + decimal(n)) == seq!['f'] + decimal(n),
{
    assert(digit_char(0) == '0');
    assert(digit_char(1) == '1');
    assert(digit_char(2) == '2');
    assert(digit_char(3) == '3');
    assert(digit_char(4) == '4');
    assert(digit_char(5) == '5');
    assert(digit_char(6) == '6');
    assert(digit_char(7) == '7');
    assert(digit_char(8) == '8');
    assert(digit_char(9) == '9');
    reveal_with_fuel(decimal, 3);
    assert(decimal(n) == if n < 10 {
        seq![digit_char(n)]
    } else {
        seq!['1', digit_char((n - 10) as nat)]
    });
    if n == 1 {
        reveal_strlit("F1");
        reveal_strlit("f1");
        assert(seq!['F'] + decimal(n) =~= "F1"@);
        assert(seq!['f'] + decimal(n) =~= "f1"@);
        assert(gpui_key_name("F1"@) == "f1"@) by {
            reveal_strlit("F1");
            reveal_strlit("f1");
            assert("F1"@.len() == 2);
            reveal_strlit("Shift");
            assert("Shift"@.len() == 5);
            reveal_strlit("Control");
            assert("Control"@.len() == 7);
            reveal_strlit("Alt");
            assert("Alt"@.len() == 3);
            reveal_strlit("Meta");
            assert("Meta"@.len() == 4);
            reveal_strlit("CapsLock");
            assert("CapsLock"@.len() == 8);
            reveal_strlit("NumLock");
            assert("NumLock"@.len() == 7);
            reveal_strlit("ScrollLock");
            assert("ScrollLock"@.len() == 10);
            reveal_strlit("ArrowLeft");
            assert("ArrowLeft"@.len() == 9);
            reveal_strlit("ArrowRight");
            assert("ArrowRight"@.len() == 10);
            reveal_strlit("ArrowUp");
            assert("ArrowUp"@.len() == 7);
            reveal_strlit("ArrowDown");
            assert("ArrowDown"@.len() == 9);
            reveal_strlit("Home");
            assert("Home"@.len() == 4);
            reveal_strlit("End");
            assert("End"@.len() == 3);
            reveal_strlit("PageUp");
            assert("PageUp"@.len() == 6);
            reveal_strlit("PageDown");
            assert("PageDown"@.len() == 8);
            reveal_strlit("Backspace");
            assert("Backspace"@.len() == 9);
            reveal_strlit("Delete");
            assert("Delete"@.len() == 6);
            reveal_strlit("Enter");
            assert("Enter"@.len() == 5);
            reveal_strlit("Tab");
            assert("Tab"@.len() == 3);
            reveal_strlit("Escape");
            assert("Escape"@.len() == 6);
            reveal_strlit("Insert");
            assert("Insert"@.len() == 6);
            reveal_strlit(" ");
            assert(" "@.len() == 1);
        }
    }
    if n == 2 {
        reveal_strlit("F2");
        reveal_strlit("f2");
        assert(seq!['F'] + decimal(n) =~= "F2"@);
        assert(seq!['f'] + decimal(n) =~= "f2"@);
        assert(gpui_key_name("F2"@) == "f2"@) by {
            reveal_strlit("F2");
            reveal_strlit("f2");
            assert("F2"@.len() == 2);
            reveal_strlit("Shift");
            assert("Shift"@.len() == 5);
            reveal_strlit("Control");
            assert("Control"@.len() == 7);
            reveal_strlit("Alt");
            assert("Alt"@.len() == 3);
            reveal_strlit("Meta");
            assert("Meta"@.len() == 4);
            reveal_strlit("CapsLock");
            assert("CapsLock"@.len() == 8);
            reveal_strlit("NumLock");
            assert("NumLock"@.len() == 7);
            reveal_strlit("ScrollLock");
            assert("ScrollLock"@.len() == 10);
            reveal_strlit("ArrowLeft");
            assert("ArrowLeft"@.len() == 9);
            reveal_strlit("ArrowRight");
            assert("ArrowRight"@.len() == 10);
            reveal_strlit("ArrowUp");
            assert("ArrowUp"@.len() == 7);
            reveal_strlit("ArrowDown");
            assert("ArrowDown"@.len() == 9);
            reveal_strlit("Home");
            assert("Home"@.len() == 4);
            reveal_strlit("End");
            assert("End"@.len() == 3);
            reveal_strlit("PageUp");
            assert("PageUp"@.len() == 6);
            reveal_strlit("PageDown");
            assert("PageDown"@.len() == 8);
            reveal_strlit("Backspace");
            assert("Backspace"@.len() == 9);
            reveal_strlit("Delete");
            assert("Delete"@.len() == 6);
            reveal_strlit("Enter");
            assert("Enter"@.len() == 5);
            reveal_strlit("Tab");
            assert("Tab"@.len() == 3);
            reveal_strlit("Escape");
            assert("Escape"@.len() == 6);
            reveal_strlit("Insert");
            assert("Insert"@.len() == 6);
            reveal_strlit(" ");
            assert(" "@.len() == 1);
            reveal_strlit("F1");
            assert("F1"@.len() == 2);
            assert("F2"@[1] != "F1"@[1]);
        }
    }
    if n == 3 {
        reveal_strlit("F3");
        reveal_strlit("f3");
        assert(seq!['F'] + decimal(n) =~= "F3"@);
        assert(seq!['f'] + decimal(n) =~= "f3"@);
        assert(gpui_key_name("F3"@) == "f3"@) by {
            reveal_strlit("F3");
            reveal_strlit("f3");
            assert("F3"@.len() == 2);
            reveal_strlit("Shift");
            assert("Shift"@.len() == 5);
            reveal_strlit("Control");
            assert("Control"@.len() == 7);
            reveal_strlit("Alt");
            assert("Alt"@.len() == 3);
            reveal_strlit("Meta");
            assert("Meta"@.len() == 4);
            reveal_strlit("CapsLock");
            assert("CapsLock"@.len() == 8);
            reveal_strlit("NumLock");
            assert("NumLock"@.len() == 7);
            reveal_strlit("ScrollLock");
            assert("ScrollLock"@.len() == 10);
            reveal_strlit("ArrowLeft");
            assert("ArrowLeft"@.len() == 9);
            reveal_strlit("ArrowRight");
            assert("ArrowRight"@.len() == 10);
            reveal_strlit("ArrowUp");
            assert("ArrowUp"@.len() == 7);
            reveal_strlit("ArrowDown");
            assert("ArrowDown"@.len() == 9);
            reveal_strlit("Home");
            assert("Home"@.len() == 4);
            reveal_strlit("End");
            assert("End"@.len() == 3);
            reveal_strlit("PageUp");
            assert("PageUp"@.len() == 6);
            reveal_strlit("PageDown");
            assert("PageDown"@.len() == 8);
            reveal_strlit("Backspace");
            assert("Backspace"@.len() == 9);
            reveal_strlit("Delete");
            assert("Delete"@.len() == 6);
            reveal_strlit("Enter");
            assert("Enter"@.len() == 5);
            reveal_strlit("Tab");
            assert("Tab"@.len() == 3);
            reveal_strlit("Escape");
            assert("Escape"@.len() == 6);
            reveal_strlit("Insert");
            assert("Insert"@.len() == 6);
            reveal_strlit(" ");
            assert(" "@.len() == 1);
            reveal_strlit("F1");
            assert("F1"@.len() == 2);
            assert("F3"@[1] != "F1"@[1]);
            reveal_strlit("F2");
            assert("F2"@.len() == 2);
            assert("F3"@[1] != "F2"@[1]);
        }
    }
    if n == 4 {
        reveal_strlit("F4");
        reveal_strlit("f4");
        assert(seq!['F'] + decimal(n) =~= "F4"@);
        assert(seq!['f'] + decimal(n) =~= "f4"@);
        assert(gpui_key_name("F4"@) == "f4"@) by {
            reveal_strlit("F4");
            reveal_strlit("f4");
            assert("F4"@.len() == 2);
            reveal_strlit("Shift");
            assert("Shift"@.len() == 5);
            reveal_strlit("Control");
            assert("Control"@.len() == 7);
            reveal_strlit("Alt");
            assert("Alt"@.len() == 3);
            reveal_strlit("Meta");
            assert("Meta"@.len() == 4);
            reveal_strlit("CapsLock");
            assert("CapsLock"@.len() == 8);
            reveal_strlit("NumLock");
            assert("NumLock"@.len() == 7);
            reveal_strlit("ScrollLock");
            assert("ScrollLock"@.len() == 10);
            reveal_strlit("ArrowLeft");
            assert("ArrowLeft"@.len() == 9);
            reveal_strlit("ArrowRight");
            assert("ArrowRight"@.len() == 10);
            reveal_strlit("ArrowUp");
            assert("ArrowUp"@.len() == 7);
            reveal_strlit("ArrowDown");
            assert("ArrowDown"@.len() == 9);
            reveal_strlit("Home");
            assert("Home"@.len() == 4);
            reveal_strlit("End");
            assert("End"@.len() == 3);
            reveal_strlit("PageUp");
            assert("PageUp"@.len() == 6);
            reveal_strlit("PageDown");
            assert("PageDown"@.len() == 8);
            reveal_strlit("Backspace");
            assert("Backspace"@.len() == 9);
            reveal_strlit("Delete");
            assert("Delete"@.len() == 6);
            reveal_strlit("Enter");
            assert("Enter"@.len() == 5);
            reveal_strlit("Tab");
            assert("Tab"@.len() == 3);
            reveal_strlit("Escape");
            assert("Escape"@.len() == 6);
            reveal_strlit("Insert");
            assert("Insert"@.len() == 6);
            reveal_strlit(" ");
            assert(" "@.len() == 1);
            reveal_strlit("F1");
            assert("F1"@.len() == 2);
            assert("F4"@[1] != "F1"@[1]);
            reveal_strlit("F2");
            assert("F2"@.len() == 2);
            assert("F4"@[1] != "F2"@[1]);
            reveal_strlit("F3");
            assert("F3"@.len() == 2);
            assert("F4"@[1] != "F3"@[1]);
        }
    }
    if n == 5 {
        reveal_strlit("F5");
        reveal_strlit("f5");
        assert(seq!['F'] + decimal(n) =~= "F5"@);
        assert(seq!['f'] + decimal(n) =~= "f5"@);
        assert(gpui_key_name("F5"@) == "f5"@) by {
            reveal_strlit("F5");
            reveal_strlit("f5");
            assert("F5"@.len() == 2);
            reveal_strlit("Shift");
            assert("Shift"@.len() == 5);
            reveal_strlit("Control");
            assert("Control"@.len() == 7);
            reveal_strlit("Alt");
            assert("Alt"@.len() == 3);
            reveal_strlit("Meta");
            assert("Meta"@.len() == 4);
            reveal_strlit("CapsLock");
            assert("CapsLock"@.len() == 8);
            reveal_strlit("NumLock");
            assert("NumLock"@.len() == 7);
            reveal_strlit("ScrollLock");
            assert("ScrollLock"@.len() == 10);
            reveal_strlit("ArrowLeft");
            assert("ArrowLeft"@.len() == 9);
            reveal_strlit("ArrowRight");
            assert("ArrowRight"@.len() == 10);
            reveal_strlit("ArrowUp");
            assert("ArrowUp"@.len() == 7);
            reveal_strlit("ArrowDown");
            assert("ArrowDown"@.len() == 9);
            reveal_strlit("Home");
            assert("Home"@.len() == 4);
            reveal_strlit("End");
            assert("End"@.len() == 3);
            reveal_strlit("PageUp");
            assert("PageUp"@.len() == 6);
            reveal_strlit("PageDown");
            assert("PageDown"@.len() == 8);
            reveal_strlit("Backspace");
            assert("Backspace"@.len() == 9);
            reveal_strlit("Delete");
            assert("Delete"@.len() == 6);
            reveal_strlit("Enter");
            assert("Enter"@.len() == 5);
            reveal_strlit("Tab");
            assert("Tab"@.len() == 3);
            reveal_strlit("Escape");
            assert("Escape"@.len() == 6);
            reveal_strlit("Insert");
            assert("Insert"@.len() == 6);
            reveal_strlit(" ");
            assert(" "@.len() == 1);
            reveal_strlit("F1");
            assert("F1"@.len() == 2);
            assert("F5"@[1] != "F1"@[1]);
            reveal_strlit("F2");
            assert("F2"@.len() == 2);
            assert("F5"@[1] != "F2"@[1]);
            reveal_strlit("F3");
            assert("F3"@.len() == 2);
            assert("F5"@[1] != "F3"@[1]);
            reveal_strlit("F4");
            assert("F4"@.len() == 2);
            assert("F5"@[1] != "F4"@[1]);
        }
    }
    if n == 6 {
        reveal_strlit("F6");
        reveal_strlit("f6");
        assert(seq!['F'] + decimal(n) =~= "F6"@);
        assert(seq!['f'] + decimal(n) =~= "f6"@);
        assert(gpui_key_name("F6"@) == "f6"@) by {
            reveal_strlit("F6");
            reveal_strlit("f6");
            assert("F6"@.len() == 2);
            reveal_strlit("Shift");
            assert("Shift"@.len() == 5);
            reveal_strlit("Control");
            assert("Control"@.len() == 7);
            reveal_strlit("Alt");
            assert("Alt"@.len() == 3);
            reveal_strlit("Meta");
            assert("Meta"@.len() == 4);
            reveal_strlit("CapsLock");
            assert("CapsLock"@.len() == 8);
            reveal_strlit("NumLock");
            assert("NumLock"@.len() == 7);
            reveal_strlit("ScrollLock");
            assert("ScrollLock"@.len() == 10);
            reveal_strlit("ArrowLeft");
            assert("ArrowLeft"@.len() == 9);
            reveal_strlit("ArrowRight");
            assert("ArrowRight"@.len() == 10);
            reveal_strlit("ArrowUp");
            assert("ArrowUp"@.len() == 7);
            reveal_strlit("ArrowDown");
            assert("ArrowDown"@.len() == 9);
            reveal_strlit("Home");
            assert("Home"@.len() == 4);
            reveal_strlit("End");
            assert("End"@.len() == 3);
            reveal_strlit("PageUp");
            assert("PageUp"@.len() == 6);
            reveal_strlit("PageDown");
            assert("PageDown"@.len() == 8);
            reveal_strlit("Backspace");
            assert("Backspace"@.len() == 9);
            reveal_strlit("Delete");
            assert("Delete"@.len() == 6);
            reveal_strlit("Enter");
            assert("Enter"@.len() == 5);
            reveal_strlit("Tab");
            assert("Tab"@.len() == 3);
            reveal_strlit("Escape");
            assert("Escape"@.len() == 6);
            reveal_strlit("Insert");
            assert("Insert"@.len() == 6);
            reveal_strlit(" ");
            assert(" "@.len() == 1);
            reveal_strlit("F1");
            assert("F1"@.len() == 2);
            assert("F6"@[1] != "F1"@[1]);
            reveal_strlit("F2");
            assert("F2"@.len() == 2);
            assert("F6"@[1] != "F2"@[1]);
            reveal_strlit("F3");
            assert("F3"@.len() == 2);
            assert("F6"@[1] != "F3"@[1]);
            reveal_strlit("F4");
            assert("F4"@.len() == 2);
            assert("F6"@[1] != "F4"@[1]);
            reveal_strlit("F5");
            assert("F5"@.len() == 2);
            assert("F6"@[1] != "F5"@[1]);
        }
    }
    if n == 7 {
        reveal_strlit("F7");
        reveal_strlit("f7");
        assert(seq!['F'] + decimal(n) =~= "F7"@);
        assert(seq!['f'] + decimal(n) =~= "f7"@);
        assert(gpui_key_name("F7"@) == "f7"@) by {
            reveal_strlit("F7");
            reveal_strlit("f7");
            assert("F7"@.len() == 2);
            reveal_strlit("Shift");
            assert("Shift"@.len() == 5);
            reveal_strlit("Control");
            assert("Control"@.len() == 7);
            reveal_strlit("Alt");
            assert("Alt"@.len() == 3);
            reveal_strlit("Meta");
            assert("Meta"@.len() == 4);
            reveal_strlit("CapsLock");
            assert("CapsLock"@.len() == 8);
            reveal_strlit("NumLock");
            assert("NumLock"@.len() == 7);
            reveal_strlit("ScrollLock");
            assert("ScrollLock"@.len() == 10);
            reveal_strlit("ArrowLeft");
            assert("ArrowLeft"@.len() == 9);
            reveal_strlit("ArrowRight");
            assert("ArrowRight"@.len() == 10);
            reveal_strlit("ArrowUp");
            assert("ArrowUp"@.len() == 7);
            reveal_strlit("ArrowDown");
            assert("ArrowDown"@.len() == 9);
            reveal_strlit("Home");
            assert("Home"@.len() == 4);
            reveal_strlit("End");
            assert("End"@.len() == 3);
            reveal_strlit("PageUp");
            assert("PageUp"@.len() == 6);
            reveal_strlit("PageDown");
            assert("PageDown"@.len() == 8);
            reveal_strlit("Backspace");
            assert("Backspace"@.len() == 9);
            reveal_strlit("Delete");
            assert("Delete"@.len() == 6);
            reveal_strlit("Enter");
            assert("Enter"@.len() == 5);
            reveal_strlit("Tab");
            assert("Tab"@.len() == 3);
            reveal_strlit("Escape");
            assert("Escape"@.len() == 6);
            reveal_strlit("Insert");
            assert("Insert"@.len() == 6);
            reveal_strlit(" ");
            assert(" "@.len() == 1);
            reveal_strlit("F1");
            assert("F1"@.len() == 2);
            assert("F7"@[1] != "F1"@[1]);
            reveal_strlit("F2");
            assert("F2"@.len() == 2);
            assert("F7"@[1] != "F2"@[1]);
            reveal_strlit("F3");
            assert("F3"@.len() == 2);
            assert("F7"@[1] != "F3"@[1]);
            reveal_strlit("F4");
            assert("F4"@.len() == 2);
            assert("F7"@[1] != "F4"@[1]);
            reveal_strlit("F5");
            assert("F5"@.len() == 2);
            assert("F7"@[1] != "F5"@[1]);
            reveal_strlit("F6");
            assert("F6"@.len() == 2);
            assert("F7"@[1] != "F6"@[1]);
        }
    }
    if n == 8 {
        reveal_strlit("F8");
        reveal_strlit("f8");
        assert(seq!['F'] + decimal(n) =~= "F8"@);
        assert(seq!['f'] + decimal(n) =~= "f8"@);
        assert(gpui_key_name("F8"@) == "f8"@) by {
            reveal_strlit("F8");
            reveal_strlit("f8");
            assert("F8"@.len() == 2);
            reveal_strlit("Shift");
            assert("Shift"@.len() == 5);
            reveal_strlit("Control");
            assert("Control"@.len() == 7);
            reveal_strlit("Alt");
            assert("Alt"@.len() == 3);
            reveal_strlit("Meta");
            assert("Meta"@.len() == 4);
            reveal_strlit("CapsLock");
            assert("CapsLock"@.len() == 8);
            reveal_strlit("NumLock");
            assert("NumLock"@.len() == 7);
            reveal_strlit("ScrollLock");
            assert("ScrollLock"@.len() == 10);
            reveal_strlit("ArrowLeft");
            assert("ArrowLeft"@.len() == 9);
            reveal_strlit("ArrowRight");
            assert("ArrowRight"@.len() == 10);
            reveal_strlit("ArrowUp");
            assert("ArrowUp"@.len() == 7);
            reveal_strlit("ArrowDown");
            assert("ArrowDown"@.len() == 9);
            reveal_strlit("Home");
            assert("Home"@.len() == 4);
            reveal_strlit("End");
            assert("End"@.len() == 3);
            reveal_strlit("PageUp");
            assert("PageUp"@.len() == 6);
            reveal_strlit("PageDown");
            assert("PageDown"@.len() == 8);
            reveal_strlit("Backspace");
            assert("Backspace"@.len() == 9);
            reveal_strlit("Delete");
            assert("Delete"@.len() == 6);
            reveal_strlit("Enter");
            assert("Enter"@.len() == 5);
            reveal_strlit("Tab");
            assert("Tab"@.len() == 3);
            reveal_strlit("Escape");
            assert("Escape"@.len() == 6);
            reveal_strlit("Insert");
            assert("Insert"@.len() == 6);
            reveal_strlit(" ");
            assert(" "@.len() == 1);
            reveal_strlit("F1");
            assert("F1"@.len() == 2);
            assert("F8"@[1] != "F1"@[1]);
            reveal_strlit("F2");
            assert("F2"@.len() == 2);
            assert("F8"@[1] != "F2"@[1]);
            reveal_strlit("F3");
            assert("F3"@.len() == 2);
            assert("F8"@[1] != "F3"@[1]);
            reveal_strlit("F4");
            assert("F4"@.len() == 2);
            assert("F8"@[1] != "F4"@[1]);
            reveal_strlit("F5");
            assert("F5"@.len() == 2);
            assert("F8"@[1] != "F5"@[1]);
            reveal_strlit("F6");
            assert("F6"@.len() == 2);
            assert("F8"@[1] != "F6"@[1]);
            reveal_strlit("F7");
            assert("F7"@.len() == 2);
            assert("F8"@[1] != "F7"@[1]);
        }
    }
    if n == 9 {
        reveal_strlit("F9");
        reveal_strlit("f9");
        assert(seq!['F'] + decimal(n) =~= "F9"@);
        assert(seq!['f'] + decimal(n) =~= "f9"@);
        assert(gpui_key_name("F9"@) == "f9"@) by {
            reveal_strlit("F9");
            reveal_strlit("f9");
            assert("F9"@.len() == 2);
            reveal_strlit("Shift");
            assert("Shift"@.len() == 5);
            reveal_strlit("Control");
            assert("Control"@.len() == 7);
            reveal_strlit("Alt");
            assert("Alt"@.len() == 3);
            reveal_strlit("Meta");
            assert("Meta"@.len() == 4);
            reveal_strlit("CapsLock");
            assert("CapsLock"@.len() == 8);
            reveal_strlit("NumLock");
            assert("NumLock"@.len() == 7);
            reveal_strlit("ScrollLock");
            assert("ScrollLock"@.len() == 10);
            reveal_strlit("ArrowLeft");
            assert("ArrowLeft"@.len() == 9);
            reveal_strlit("ArrowRight");
            assert("ArrowRight"@.len() == 10);
            reveal_strlit("ArrowUp");
            assert("ArrowUp"@.len() == 7);
            reveal_strlit("ArrowDown");
            assert("ArrowDown"@.len() == 9);
            reveal_strlit("Home");
            assert("Home"@.len() == 4);
            reveal_strlit("End");
            assert("End"@.len() == 3);
            reveal_strlit("PageUp");
            assert("PageUp"@.len() == 6);
            reveal_strlit("PageDown");
            assert("PageDown"@.len() == 8);
            reveal_strlit("Backspace");
            assert("Backspace"@.len() == 9);
            reveal_strlit("Delete");
            assert("Delete"@.len() == 6);
            reveal_strlit("Enter");
            assert("Enter"@.len() == 5);
            reveal_strlit("Tab");
            assert("Tab"@.len() == 3);
            reveal_strlit("Escape");
            assert("Escape"@.len() == 6);
            reveal_strlit("Insert");
            assert("Insert"@.len() == 6);
            reveal_strlit(" ");
            assert(" "@.len() == 1);
            reveal_strlit("F1");
            assert("F1"@.len() == 2);
            assert("F9"@[1] != "F1"@[1]);
            reveal_strlit("F2");
            assert("F2"@.len() == 2);
            assert("F9"@[1] != "F2"@[1]);
            reveal_strlit("F3");
            assert("F3"@.len() == 2);
            assert("F9"@[1] != "F3"@[1]);
            reveal_strlit("F4");
            assert("F4"@.len() == 2);
            assert("F9"@[1] != "F4"@[1]);
            reveal_strlit("F5");
            assert("F5"@.len() == 2);
            assert("F9"@[1] != "F5"@[1]);
            reveal_strlit("F6");
            assert("F6"@.len() == 2);
            assert("F9"@[1] != "F6"@[1]);
            reveal_strlit("F7");
            assert("F7"@.len() == 2);
            assert("F9"@[1] != "F7"@[1]);
            reveal_strlit("F8");
            assert("F8"@.len() == 2);
            assert("F9"@[1] != "F8"@[1]);
        }
    }
    if n == 10 {
        reveal_strlit("F10");
        reveal_strlit("f10");
        assert(seq!['F'] + decimal(n) =~= "F10"@);
        assert(seq!['f'] + decimal(n) =~= "f10"@);
        assert(gpui_key_name("F10"@) == "f10"@) by {
            reveal_strlit("F10");
            reveal_strlit("f10");
            assert("F10"@.len() == 3);
            reveal_strlit("Shift");
            assert("Shift"@.len() == 5);
            reveal_strlit("Control");
            assert("Control"@.len() == 7);
            reveal_strlit("Alt");
            assert("Alt"@.len() == 3);
            assert("F10"@[0] != "Alt"@[0]);
            reveal_strlit("Meta");
            assert("Meta"@.len() == 4);
            reveal_strlit("CapsLock");
            assert("CapsLock"@.len() == 8);
            reveal_strlit("NumLock");
            assert("NumLock"@.len() == 7);
            reveal_strlit("ScrollLock");
            assert("ScrollLock"@.len() == 10);
            reveal_strlit("ArrowLeft");
            assert("ArrowLeft"@.len() == 9);
            reveal_strlit("ArrowRight");
            assert("ArrowRight"@.len() == 10);
            reveal_strlit("ArrowUp");
            assert("ArrowUp"@.len() == 7);
            reveal_strlit("ArrowDown");
            assert("ArrowDown"@.len() == 9);
            reveal_strlit("Home");
            assert("Home"@.len() == 4);
            reveal_strlit("End");
            assert("End"@.len() == 3);
            assert("F10"@[0] != "End"@[0]);
            reveal_strlit("PageUp");
            assert("PageUp"@.len() == 6);
            reveal_strlit("PageDown");
            assert("PageDown"@.len() == 8);
            reveal_strlit("Backspace");
            assert("Backspace"@.len() == 9);
            reveal_strlit("Delete");
            assert("Delete"@.len() == 6);
            reveal_strlit("Enter");
            assert("Enter"@.len() == 5);
            reveal_strlit("Tab");
            assert("Tab"@.len() == 3);
            assert("F10"@[0] != "Tab"@[0]);
            reveal_strlit("Escape");
            assert("Escape"@.len() == 6);
            reveal_strlit("Insert");
            assert("Insert"@.len() == 6);
            reveal_strlit(" ");
            assert(" "@.len() == 1);
            reveal_strlit("F1");
            assert("F1"@.len() == 2);
            reveal_strlit("F2");
            assert("F2"@.len() == 2);
            reveal_strlit("F3");
            assert("F3"@.len() == 2);
            reveal_strlit("F4");
            assert("F4"@.len() == 2);
            reveal_strlit("F5");
            assert("F5"@.len() == 2);
            reveal_strlit("F6");
            assert("F6"@.len() == 2);
            reveal_strlit("F7");
            assert("F7"@.len() == 2);
            reveal_strlit("F8");
            assert("F8"@.len() == 2);
            reveal_strlit("F9");
            assert("F9"@.len() == 2);
        }
    }
    if n == 11 {
        reveal_strlit("F11");
        reveal_strlit("f11");
        assert(seq!['F'] + decimal(n) =~= "F11"@);
        assert(seq!['f'] + decimal(n) =~= "f11"@);
        assert(gpui_key_name("F11"@) == "f11"@) by {
            reveal_strlit("F11");
            reveal_strlit("f11");
            assert("F11"@.len() == 3);
            reveal_strlit("Shift");
            assert("Shift"@.len() == 5);
            reveal_strlit("Control");
            assert("Control"@.len() == 7);
            reveal_strlit("Alt");
            assert("Alt"@.len() == 3);
            assert("F11"@[0] != "Alt"@[0]);
            reveal_strlit("Meta");
            assert("Meta"@.len() == 4);
            reveal_strlit("CapsLock");
            assert("CapsLock"@.len() == 8);
            reveal_strlit("NumLock");
            assert("NumLock"@.len() == 7);
            reveal_strlit("ScrollLock");
            assert("ScrollLock"@.len() == 10);
            reveal_strlit("ArrowLeft");
            assert("ArrowLeft"@.len() == 9);
            reveal_strlit("ArrowRight");
            assert("ArrowRight"@.len() == 10);
            reveal_strlit("ArrowUp");
            assert("ArrowUp"@.len() == 7);
            reveal_strlit("ArrowDown");
            assert("ArrowDown"@.len() == 9);
            reveal_strlit("Home");
            assert("Home"@.len() == 4);
            reveal_strlit("End");
            assert("End"@.len() == 3);
            assert("F11"@[0] != "End"@[0]);
            reveal_strlit("PageUp");
            assert("PageUp"@.len() == 6);
            reveal_strlit("PageDown");
            assert("PageDown"@.len() == 8);
            reveal_strlit("Backspace");
            assert("Backspace"@.len() == 9);
            reveal_strlit("Delete");
            assert("Delete"@.len() == 6);
            reveal_strlit("Enter");
            assert("Enter"@.len() == 5);
            reveal_strlit("Tab");
            assert("Tab"@.len() == 3);
            assert("F11"@[0] != "Tab"@[0]);
            reveal_strlit("Escape");
            assert("Escape"@.len() == 6);
            reveal_strlit("Insert");
            assert("Insert"@.len() == 6);
            reveal_strlit(" ");
            assert(" "@.len() == 1);
            reveal_strlit("F1");
            assert("F1"@.len() == 2);
            reveal_strlit("F2");
            assert("F2"@.len() == 2);
            reveal_strlit("F3");
            assert("F3"@.len() == 2);
            reveal_strlit("F4");
            assert("F4"@.len() == 2);
            reveal_strlit("F5");
            assert("F5"@.len() == 2);
            reveal_strlit("F6");
            assert("F6"@.len() == 2);
            reveal_strlit("F7");
            assert("F7"@.len() == 2);
            reveal_strlit("F8");
            assert("F8"@.len() == 2);
            reveal_strlit("F9");
            assert("F9"@.len() == 2);
            reveal_strlit("F10");
            assert("F10"@.len() == 3);
            assert("F11"@[2] != "F10"@[2]);
        }
    }
    if n == 12 {
        reveal_strlit("F12");
        reveal_strlit("f12");
        assert(seq!['F'] + decimal(n) =~= "F12"@);
        assert(seq!['f'] + decimal(n) =~= "f12"@);
        assert(gpui_key_name("F12"@) == "f12"@) by {
            reveal_strlit("F12");
            reveal_strlit("f12");
            assert("F12"@.len() == 3);
            reveal_strlit("Shift");
            assert("Shift"@.len() == 5);
            reveal_strlit("Control");
            assert("Control"@.len() == 7);
            reveal_strlit("Alt");
            assert("Alt"@.len() == 3);
            assert("F12"@[0] != "Alt"@[0]);
            reveal_strlit("Meta");
            assert("Meta"@.len() == 4);
            reveal_strlit("CapsLock");
            assert("CapsLock"@.len() == 8);
            reveal_strlit("NumLock");
            assert("NumLock"@.len() == 7);
            reveal_strlit("ScrollLock");
            assert("ScrollLock"@.len() == 10);
            reveal_strlit("ArrowLeft");
            assert("ArrowLeft"@.len() == 9);
            reveal_strlit("ArrowRight");
            assert("ArrowRight"@.len() == 10);
            reveal_strlit("ArrowUp");
            assert("ArrowUp"@.len() == 7);
            reveal_strlit("ArrowDown");
            assert("ArrowDown"@.len() == 9);
            reveal_strlit("Home");
            assert("Home"@.len() == 4);
            reveal_strlit("End");
            assert("End"@.len() == 3);
            assert("F12"@[0] != "End"@[0]);
            reveal_strlit("PageUp");
            assert("PageUp"@.len() == 6);
            reveal_strlit("PageDown");
            assert("PageDown"@.len() == 8);
            reveal_strlit("Backspace");
            assert("Backspace"@.len() == 9);
            reveal_strlit("Delete");
            assert("Delete"@.len() == 6);
            reveal_strlit("Enter");
            assert("Enter"@.len() == 5);
            reveal_strlit("Tab");
            assert("Tab"@.len() == 3);
            assert("F12"@[0] != "Tab"@[0]);
            reveal_strlit("Escape");
            assert("Escape"@.len() == 6);
            reveal_strlit("Insert");
            assert("Insert"@.len() == 6);
            reveal_strlit(" ");
            assert(" "@.len() == 1);
            reveal_strlit("F1");
            assert("F1"@.len() == 2);
            reveal_strlit("F2");
            assert("F2"@.len() == 2);
            reveal_strlit("F3");
            assert("F3"@.len() == 2);
            reveal_strlit("F4");
            assert("F4"@.len() == 2);
            reveal_strlit("F5");
            assert("F5"@.len() == 2);
            reveal_strlit("F6");
            assert("F6"@.len() == 2);
            reveal_strlit("F7");
            assert("F7"@.len() == 2);
            reveal_strlit("F8");
            assert("F8"@.len() == 2);
            reveal_strlit("F9");
            assert("F9"@.len() == 2);
            reveal_strlit("F10");
            assert("F10"@.len() == 3);
            assert("F12"@[2] != "F10"@[2]);
            reveal_strlit("F11");
            assert("F11"@.len() == 3);
            assert("F12"@[2] != "F11"@[2]);
        }
    }
}

/// The modifier-only keys, which get no GPUI name (and so send no key event):
/// shift, control, alt, meta and the three lock keys.
pub proof fn lemma_modifier_only_keys()
    ensures
        gpui_key_name("Shift"@).len() == 0,
        gpui_key_name("Control"@).len() == 0,
        gpui_key_name("Alt"@).len() == 0,
        gpui_key_name("Meta"@).len() == 0,
        gpui_key_name("CapsLock"@).len() == 0,
        gpui_key_name("NumLock"@).len() == 0,
        gpui_key_name("ScrollLock"@).len() == 0,
{
}

} // verus!
