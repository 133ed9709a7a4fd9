use vstd::prelude::*;
use crate::key::Key;

verus! {

/// Virtual-key code of the Backspace key.
pub const VK_BACK: u16 = 8;
/// Virtual-key code of the Enter key.
pub const VK_RETURN: u16 = 13;
/// Virtual-key code of the Left arrow.
pub const VK_LEFT: u16 = 37;
/// Virtual-key code of the Up arrow.
pub const VK_UP: u16 = 38;
/// Virtual-key code of the Right arrow.
pub const VK_RIGHT: u16 = 39;
/// Virtual-key code of the Down arrow.
pub const VK_DOWN: u16 = 40;
/// Virtual-key code of the W key.
pub const VK_W: u16 = 87;
/// Control-key state flag of the left Ctrl key.
pub const LEFT_CTRL_PRESSED: u32 = 8;

/// The key that a console key-down event stands for, from its virtual-key
/// code `vk`, whether Ctrl was held, and its ASCII character (0 for none).
pub open spec fn console_key_of(vk: u16, ctrl: bool, ascii: u8) -> Key {
    if ctrl && (vk == VK_W || vk == VK_BACK) {
        Key::CtrlBackspace
    } else if ctrl && vk == VK_LEFT {
        Key::CtrlArrowLeft
    } else if ctrl && vk == VK_RIGHT {
        Key::CtrlArrowRight
    } else if vk == VK_RETURN {
        Key::Enter
    } else if vk == VK_BACK {
        Key::Backspace
    } else if vk == VK_UP {
        Key::ArrowUp
    } else if vk == VK_DOWN {
        Key::ArrowDown
    } else if vk == VK_LEFT {
        Key::ArrowLeft
    } else if vk == VK_RIGHT {
        Key::ArrowRight
    } else if !ctrl && ascii != 0 {
        Key::Char(ascii as char)
    } else {
        Key::NA
    }
}

/// Maps a console key-down event to a key: `vk` is its virtual-key code,
/// `control_state` its control-key state flags and `ascii` its ASCII
/// character (0 for none). Only the left Ctrl key counts as Ctrl.
pub fn console_key(vk: u16, control_state: u32, ascii: u8) -> (r: Key)
    ensures
        r == console_key_of(vk, control_state & LEFT_CTRL_PRESSED != 0, ascii),
{
    let ctrl = control_state & LEFT_CTRL_PRESSED != 0;
    if ctrl && (vk == VK_W || vk == VK_BACK) {
        Key::CtrlBackspace
    } else if ctrl && vk == VK_LEFT {
        Key::CtrlArrowLeft
    } else if ctrl && vk == VK_RIGHT {
        Key::CtrlArrowRight
    } else if vk == VK_RETURN {
        Key::Enter
    } else if vk == VK_BACK {
        Key::Backspace
    } else if vk == VK_UP {
        Key::ArrowUp
    } else if vk == VK_DOWN {
        Key::ArrowDown
    } else if vk == VK_LEFT {
        Key::ArrowLeft
    } else if vk == VK_RIGHT {
        Key::ArrowRight
    } else if !ctrl && ascii != 0 {
        Key::Char(ascii as char)
    } else {
        Key::NA
    }
}

} // verus!
