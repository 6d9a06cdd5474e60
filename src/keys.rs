use vstd::prelude::*;

verus! {

/// The escape byte that starts every ANSI sequence.
pub const ESC: u8 = 0x1b;

/// The key of a key press, as the local terminal reports it.
#[derive(Clone, Copy, PartialEq, Eq, Debug, Structural)]
pub enum KeyCode {
    Backspace,
    Enter,
    Left,
    Right,
    Up,
    Down,
    Home,
    End,
    PageUp,
    PageDown,
    Tab,
    BackTab,
    Delete,
    Insert,
    /// A function key with its number (`F(1)` is F1).
    F(u8),
    Char(char),
    Null,
    Esc,
    CapsLock,
    ScrollLock,
    NumLock,
    PrintScreen,
    Pause,
    Menu,
    KeypadBegin,
    /// A media key (play, volume, ...).
    Media,
    /// A modifier key pressed on its own.
    Modifier,
}

/// The modifier keys held during a key press.
#[derive(Clone, Copy, PartialEq, Eq, Debug, Structural)]
pub struct KeyModifiers {
    pub shift: bool,
    pub control: bool,
    pub alt: bool,
}

/// One key press.
#[derive(Clone, Copy, PartialEq, Eq, Debug, Structural)]
pub struct KeyEvent {
    pub code: KeyCode,
    pub modifiers: KeyModifiers,
}

/// The keys that have no encoding: lock, media and modifier keys, and the
/// function keys other than F1 to F4.
pub open spec fn is_unsupported(k: KeyEvent) -> bool {
    match k.code {
        KeyCode::F(n) => !(1 <= n <= 4),
        KeyCode::CapsLock | KeyCode::ScrollLock | KeyCode::NumLock | KeyCode::PrintScreen
        | KeyCode::Pause | KeyCode::Menu | KeyCode::KeypadBegin | KeyCode::Media
        | KeyCode::Modifier => true,
        _ => false,
    }
}

/// The control code of a lowercase letter: `a` is 0x01, `z` is 0x1a.
pub open spec fn control_code(c: char) -> u8
    recommends
        'a' <= c <= 'z',
{
    (c as u32 - 'a' as u32 + 1) as u8
}

/// The low eight bits of a character's code.
pub open spec fn low_byte(c: char) -> u8 {
    (c as u32 % 256) as u8
}

/// The bytes a key press sends to the remote device, or `None` for a key
/// without an encoding. Enter sends a carriage return alone; a line feed
/// after it is the session's choice, not the encoding's.
pub open spec fn key_bytes(k: KeyEvent) -> Option<Seq<u8>> {
    match k.code {
        KeyCode::Backspace => Some(seq![0x08u8]),
        KeyCode::Enter => Some(seq![0x0du8]),
        KeyCode::Tab => Some(seq![0x09u8]),
        KeyCode::Esc => Some(seq![ESC]),
        KeyCode::Null => Some(seq![0x00u8]),
        KeyCode::Left => Some(seq![ESC, 0x5bu8, 0x44u8]),
        KeyCode::Right => Some(seq![ESC, 0x5bu8, 0x43u8]),
        KeyCode::Up => Some(seq![ESC, 0x5bu8, 0x41u8]),
        KeyCode::Down => Some(seq![ESC, 0x5bu8, 0x42u8]),
        KeyCode::Home => Some(seq![ESC, 0x5bu8, 0x48u8]),
        KeyCode::End => Some(seq![ESC, 0x5bu8, 0x46u8]),
        KeyCode::PageUp => Some(seq![ESC, 0x5bu8, 0x35u8, 0x7eu8]),
        KeyCode::PageDown => Some(seq![ESC, 0x5bu8, 0x36u8, 0x7eu8]),
        KeyCode::Delete => Some(seq![ESC, 0x5bu8, 0x33u8, 0x7eu8]),
        KeyCode::Insert => Some(seq![ESC, 0x5bu8, 0x32u8, 0x7eu8]),
        KeyCode::BackTab => Some(seq![ESC, 0x5bu8, 0x5au8]),
        KeyCode::F(n) => if 1 <= n <= 4 {
            Some(seq![ESC, 0x4fu8, (0x4f + n) as u8])
        } else {
            None
        },
        KeyCode::Char(c) => if k.modifiers.control && 'a' <= c <= 'z' {
            Some(seq![control_code(c)])
        } else {
            Some(seq![low_byte(c)])
        },
        _ => None,
    }
}

/// Whether the Control modifier is held.
pub fn is_ctrl_key(key_event: KeyEvent) -> (r: bool)
    ensures
        r == key_event.modifiers.control,
{
    key_event.modifiers.control
}

/// Whether the key press is the command prefix, `Ctrl-A`.
pub open spec fn is_prefix(k: KeyEvent) -> bool {
    k.code == KeyCode::Char('a') && k.modifiers.control
}

/// Whether the key press is the command prefix, `Ctrl-A`.
pub fn is_ctrl_a(key_event: KeyEvent) -> (r: bool)
    ensures
        r == is_prefix(key_event),
{
    if let KeyCode::Char(c) = key_event.code {
        c == 'a' && key_event.modifiers.control
    } else {
        false
    }
}

/// Encodes a key press as the bytes an ANSI terminal sends for it.
pub fn encode(key_event: KeyEvent) -> (r: Option<Vec<u8>>)
    ensures
        r matches Some(v) ==> key_bytes(key_event) == Some(v@),
        r is None ==> key_bytes(key_event) is None,
{
    match key_event.code {
        KeyCode::Backspace => Some(vec![0x08u8]),
        KeyCode::Enter => Some(vec![0x0du8]),
        KeyCode::Tab => Some(vec![0x09u8]),
        KeyCode::Esc => Some(vec![ESC]),
        KeyCode::Null => Some(vec![0x00u8]),
        KeyCode::Left => Some(vec![ESC, 0x5bu8, 0x44u8]),
        KeyCode::Right => Some(vec![ESC, 0x5bu8, 0x43u8]),
        KeyCode::Up => Some(vec![ESC, 0x5bu8, 0x41u8]),
        KeyCode::Down => Some(vec![ESC, 0x5bu8, 0x42u8]),
        KeyCode::Home => Some(vec![ESC, 0x5bu8, 0x48u8]),
        KeyCode::End => Some(vec![ESC, 0x5bu8, 0x46u8]),
        KeyCode::PageUp => Some(vec![ESC, 0x5bu8, 0x35u8, 0x7eu8]),
        KeyCode::PageDown => Some(vec![ESC, 0x5bu8, 0x36u8, 0x7eu8]),
        KeyCode::Delete => Some(vec![ESC, 0x5bu8, 0x33u8, 0x7eu8]),
        KeyCode::Insert => Some(vec![ESC, 0x5bu8, 0x32u8, 0x7eu8]),
        KeyCode::BackTab => Some(vec![ESC, 0x5bu8, 0x5au8]),
        KeyCode::F(n) => {
            if 1 <= n && n <= 4 {
                Some(vec![ESC, 0x4fu8, 0x4fu8 + n])
            } else {
                None
            }
        },
        KeyCode::Char(ch) => {
            let code: u32 = ch as u32;
            if is_ctrl_key(key_event) && 'a' <= ch && ch <= 'z' {
                let byte: u8 = (code - ('a' as u32) + 1) as u8;
                Some(vec![byte])
            } else {
                let byte: u8 = (code % 256) as u8;
                Some(vec![byte])
            }
        },
        KeyCode::CapsLock | KeyCode::ScrollLock | KeyCode::NumLock | KeyCode::PrintScreen
        | KeyCode::Pause | KeyCode::Menu | KeyCode::KeypadBegin | KeyCode::Media
        | KeyCode::Modifier => None,
    }
}

} // verus!

verus! {

/// Every key press but the unsupported ones has an encoding, and no encoding
/// is empty. The encoding is a function of the key press, so equal key presses
/// always encode alike.
pub proof fn lemma_encode_total(k1: KeyEvent, k2: KeyEvent)
    ensures
        key_bytes(k1) is None <==> is_unsupported(k1),
        key_bytes(k1) matches Some(b) ==> b.len() > 0,
        k1 == k2 ==> key_bytes(k1) == key_bytes(k2),
{
}

/// Control held with a lowercase letter sends the letter's control code:
/// 0x01 for `a` up to 0x1a for `z`, whatever the other modifiers.
pub proof fn lemma_control_letters(c: char, shift: bool, alt: bool)
    requires
        'a' <= c <= 'z',
    ensures
        key_bytes(
            (KeyEvent {
                code: KeyCode::Char(c),
                modifiers: KeyModifiers { shift, control: true, alt },
            }),
        ) == Some(seq![(c as u32 - 'a' as u32 + 1) as u8]),
        0x01 <= control_code(c) <= 0x1a,
{
}

} // verus!
