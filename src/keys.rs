use vstd::prelude::*;

verus! {

// GDK key values (X11 keysyms) that have a key of their own in the injector.

pub const KEY_RETURN: u32 = 0xff0d;
pub const KEY_TAB: u32 = 0xff09;
pub const KEY_SPACE: u32 = 0x0020;
pub const KEY_BACKSPACE: u32 = 0xff08;
pub const KEY_ESCAPE: u32 = 0xff1b;
pub const KEY_SUPER_L: u32 = 0xffeb;
pub const KEY_SUPER_R: u32 = 0xffec;
pub const KEY_CONTROL_L: u32 = 0xffe3;
pub const KEY_CONTROL_R: u32 = 0xffe4;
pub const KEY_SHIFT_L: u32 = 0xffe1;
pub const KEY_SHIFT_R: u32 = 0xffe2;
pub const KEY_SHIFT_LOCK: u32 = 0xffe6;
pub const KEY_ALT_L: u32 = 0xffe9;
pub const KEY_ALT_R: u32 = 0xffea;
pub const KEY_OPTION: u32 = 0x1008ff6c;
pub const KEY_END: u32 = 0xff57;
pub const KEY_HOME: u32 = 0xff50;
pub const KEY_PAGE_DOWN: u32 = 0xff56;
pub const KEY_PAGE_UP: u32 = 0xff55;
pub const KEY_LEFTARROW: u32 = 0x08fb;
pub const KEY_UPARROW: u32 = 0x08fc;
pub const KEY_RIGHTARROW: u32 = 0x08fd;
pub const KEY_DOWNARROW: u32 = 0x08fe;
pub const KEY_F1: u32 = 0xffbe;
pub const KEY_F2: u32 = 0xffbf;
pub const KEY_F3: u32 = 0xffc0;
pub const KEY_F4: u32 = 0xffc1;
pub const KEY_F5: u32 = 0xffc2;
pub const KEY_F6: u32 = 0xffc3;
pub const KEY_F7: u32 = 0xffc4;
pub const KEY_F8: u32 = 0xffc5;
pub const KEY_F9: u32 = 0xffc6;
pub const KEY_F10: u32 = 0xffc7;
pub const KEY_F11: u32 = 0xffc8;
pub const KEY_F12: u32 = 0xffc9;

/// A key as the input injector presses it.
#[derive(Clone, Copy, Debug, PartialEq, Eq, Structural)]
pub enum InputKey {
    Return,
    Tab,
    Space,
    Backspace,
    Escape,
    Meta,
    Control,
    Shift,
    CapsLock,
    Alt,
    Option,
    End,
    Home,
    PageDown,
    PageUp,
    LeftArrow,
    RightArrow,
    DownArrow,
    UpArrow,
    F1,
    F2,
    F3,
    F4,
    F5,
    F6,
    F7,
    F8,
    F9,
    F10,
    F11,
    F12,
    /// The key that types this character in the current layout.
    Layout(char),
    /// A raw key code.
    Raw(u16),
}

/// The injector key that stands for a GDK key value of its own, if it has one.
pub open spec fn named_key_spec(keyval: u32) -> core::option::Option<InputKey> {
    if keyval == KEY_RETURN { Some(InputKey::Return) }
    else if keyval == KEY_TAB { Some(InputKey::Tab) }
    else if keyval == KEY_SPACE { Some(InputKey::Space) }
    else if keyval == KEY_BACKSPACE { Some(InputKey::Backspace) }
    else if keyval == KEY_ESCAPE { Some(InputKey::Escape) }
    else if keyval == KEY_SUPER_L || keyval == KEY_SUPER_R { Some(InputKey::Meta) }
    else if keyval == KEY_CONTROL_L || keyval == KEY_CONTROL_R { Some(InputKey::Control) }
    else if keyval == KEY_SHIFT_L || keyval == KEY_SHIFT_R { Some(InputKey::Shift) }
    else if keyval == KEY_SHIFT_LOCK { Some(InputKey::CapsLock) }
    else if keyval == KEY_ALT_L || keyval == KEY_ALT_R { Some(InputKey::Alt) }
    else if keyval == KEY_OPTION { Some(InputKey::Option) }
    else if keyval == KEY_END { Some(InputKey::End) }
    else if keyval == KEY_HOME { Some(InputKey::Home) }
    else if keyval == KEY_PAGE_DOWN { Some(InputKey::PageDown) }
    else if keyval == KEY_PAGE_UP { Some(InputKey::PageUp) }
    else if keyval == KEY_LEFTARROW { Some(InputKey::LeftArrow) }
    else if keyval == KEY_RIGHTARROW { Some(InputKey::RightArrow) }
    else if keyval == KEY_DOWNARROW { Some(InputKey::DownArrow) }
    else if keyval == KEY_UPARROW { Some(InputKey::UpArrow) }
    else if KEY_F1 <= keyval <= KEY_F12 { Some(function_key_spec((keyval - KEY_F1) as nat)) }
    else { None }
}

/// The function key `F(n + 1)`, for `n` below twelve.
pub open spec fn function_key_spec(n: nat) -> InputKey {
    if n == 0 { InputKey::F1 }
    else if n == 1 { InputKey::F2 }
    else if n == 2 { InputKey::F3 }
    else if n == 3 { InputKey::F4 }
    else if n == 4 { InputKey::F5 }
    else if n == 5 { InputKey::F6 }
    else if n == 6 { InputKey::F7 }
    else if n == 7 { InputKey::F8 }
    else if n == 8 { InputKey::F9 }
    else if n == 9 { InputKey::F10 }
    else if n == 10 { InputKey::F11 }
    else { InputKey::F12 }
}

/// The injector key for a GDK key value, given the character that GDK says
/// the key value types (`None` where it types none): a key of its own where
/// there is one, else the layout key of that character, else the low
/// sixteen bits of the key value as a raw code.
pub open spec fn input_key_spec(keyval: u32, unicode: core::option::Option<char>) -> InputKey {
    match named_key_spec(keyval) {
        Some(k) => k,
        None => match unicode {
            Some(c) => InputKey::Layout(c),
            None => InputKey::Raw((keyval % 0x10000) as u16),
        },
    }
}

/// The injector key that stands for `keyval` by itself, if there is one.
pub fn named_key(keyval: u32) -> (r: core::option::Option<InputKey>)
    ensures
        r == named_key_spec(keyval),
{
    if keyval == KEY_RETURN {
        Some(InputKey::Return)
    } else if keyval == KEY_TAB {
        Some(InputKey::Tab)
    } else if keyval == KEY_SPACE {
        Some(InputKey::Space)
    } else if keyval == KEY_BACKSPACE {
        Some(InputKey::Backspace)
    } else if keyval == KEY_ESCAPE {
        Some(InputKey::Escape)
    } else if keyval == KEY_SUPER_L || keyval == KEY_SUPER_R {
        Some(InputKey::Meta)
    } else if keyval == KEY_CONTROL_L || keyval == KEY_CONTROL_R {
        Some(InputKey::Control)
    } else if keyval == KEY_SHIFT_L || keyval == KEY_SHIFT_R {
        Some(InputKey::Shift)
    } else if keyval == KEY_SHIFT_LOCK {
        Some(InputKey::CapsLock)
    } else if keyval == KEY_ALT_L || keyval == KEY_ALT_R {
        Some(InputKey::Alt)
    } else if keyval == KEY_OPTION {
        Some(InputKey::Option)
    } else if keyval == KEY_END {
        Some(InputKey::End)
    } else if keyval == KEY_HOME {
        Some(InputKey::Home)
    } else if keyval == KEY_PAGE_DOWN {
        Some(InputKey::PageDown)
    } else if keyval == KEY_PAGE_UP {
        Some(InputKey::PageUp)
    } else if keyval == KEY_LEFTARROW {
        Some(InputKey::LeftArrow)
    } else if keyval == KEY_RIGHTARROW {
        Some(InputKey::RightArrow)
    } else if keyval == KEY_DOWNARROW {
        Some(InputKey::DownArrow)
    } else if keyval == KEY_UPARROW {
        Some(InputKey::UpArrow)
    } else if KEY_F1 <= keyval && keyval <= KEY_F12 {
        Some(function_key(keyval - KEY_F1))
    } else {
        None
    }
}

/// The function key `F(n + 1)`.
pub fn function_key(n: u32) -> (r: InputKey)
    requires
        n < 12,
    ensures
        r == function_key_spec(n as nat),
{
    match n {
        0 => InputKey::F1,
        1 => InputKey::F2,
        2 => InputKey::F3,
        3 => InputKey::F4,
        4 => InputKey::F5,
        5 => InputKey::F6,
        6 => InputKey::F7,
        7 => InputKey::F8,
        8 => InputKey::F9,
        9 => InputKey::F10,
        10 => InputKey::F11,
        _ => InputKey::F12,
    }
}

/// The injector key for the GDK key value `keyval`; `unicode` is the
/// character that GDK maps the key value to, if any.
pub fn input_key(keyval: u32, unicode: core::option::Option<char>) -> (r: InputKey)
    ensures
        r == input_key_spec(keyval, unicode),
{
    match named_key(keyval) {
        Some(k) => k,
        None => match unicode {
            Some(c) => InputKey::Layout(c),
            None => InputKey::Raw((keyval % 0x10000) as u16),
        },
    }
}

} // verus!
