//! Keyboard events: key types, runes and their textual form.
use vstd::prelude::*;

use crate::text::string_from_chars;

verus! {

/// KeyType indicates the type of key pressed.
#[derive(Debug, Clone, Copy, PartialEq, Eq, Hash, Structural)]
pub enum KeyType {
    /// A key producing unicode characters.
    KeyRunes,
    /// Enter.
    KeyEnter,
    /// Backspace.
    KeyBackspace,
    /// Tab.
    KeyTab,
    /// Space.
    KeySpace,
    /// Escape.
    KeyEsc,
    /// Up arrow.
    KeyUp,
    /// Down arrow.
    KeyDown,
    /// Right arrow.
    KeyRight,
    /// Left arrow.
    KeyLeft,
    /// Home.
    KeyHome,
    /// End.
    KeyEnd,
    /// Page up.
    KeyPgUp,
    /// Page down.
    KeyPgDown,
    /// Delete.
    KeyDelete,
    /// Shift+Tab.
    KeyShiftTab,
    /// Ctrl+C.
    KeyCtrlC,
    /// An unrecognized key.
    KeyUnknown,
}

/// KeyMsg describes a key press.
#[derive(Debug, Clone, PartialEq, Eq)]
pub struct KeyMsg {
    /// Type of the key.
    pub key_type: KeyType,
    /// Characters of the key, for `KeyRunes`.
    pub runes: Vec<char>,
    /// Whether Alt was held.
    pub alt: bool,
}

/// The name of a key type other than `KeyRunes`.
pub open spec fn key_name(t: KeyType) -> Seq<char> {
    match t {
        KeyType::KeyRunes => Seq::empty(),
        KeyType::KeyEnter => "enter"@,
        KeyType::KeyBackspace => "backspace"@,
        KeyType::KeyTab => "tab"@,
        KeyType::KeySpace => " "@,
        KeyType::KeyEsc => "esc"@,
        KeyType::KeyUp => "up"@,
        KeyType::KeyDown => "down"@,
        KeyType::KeyRight => "right"@,
        KeyType::KeyLeft => "left"@,
        KeyType::KeyHome => "home"@,
        KeyType::KeyEnd => "end"@,
        KeyType::KeyPgUp => "pgup"@,
        KeyType::KeyPgDown => "pgdown"@,
        KeyType::KeyDelete => "delete"@,
        KeyType::KeyShiftTab => "shift+tab"@,
        KeyType::KeyCtrlC => "ctrl+c"@,
        KeyType::KeyUnknown => "unknown"@,
    }
}

/// The textual form of a key press: its runes or its key name, preceded by
/// `alt+` when Alt was held.
pub open spec fn key_text(t: KeyType, runes: Seq<char>, alt: bool) -> Seq<char> {
    let base = if t == KeyType::KeyRunes {
        runes
    } else {
        key_name(t)
    };
    if alt {
        "alt+"@ + base
    } else {
        base
    }
}

/// Holding Alt puts `alt+` before the text of any key, runes or named; the
/// text of runes without Alt is the runes themselves, and that of a named key
/// does not depend on runes.
pub proof fn law_alt_prefixes_key_text(t: KeyType, runes: Seq<char>, other: Seq<char>)
    ensures
        key_text(t, runes, true) == "alt+"@ + key_text(t, runes, false),
        key_text(KeyType::KeyRunes, runes, false) == runes,
        t != KeyType::KeyRunes ==> key_text(t, runes, false) == key_text(t, other, false),
{
}

/// Returns the name of a key type other than `KeyRunes`.
fn key_name_string(t: KeyType) -> (s: String)
    ensures
        s@ == key_name(t),
{
    match t {
        KeyType::KeyRunes => String::new(),
        KeyType::KeyEnter => "enter".to_owned(),
        KeyType::KeyBackspace => "backspace".to_owned(),
        KeyType::KeyTab => "tab".to_owned(),
        KeyType::KeySpace => " ".to_owned(),
        KeyType::KeyEsc => "esc".to_owned(),
        KeyType::KeyUp => "up".to_owned(),
        KeyType::KeyDown => "down".to_owned(),
        KeyType::KeyRight => "right".to_owned(),
        KeyType::KeyLeft => "left".to_owned(),
        KeyType::KeyHome => "home".to_owned(),
        KeyType::KeyEnd => "end".to_owned(),
        KeyType::KeyPgUp => "pgup".to_owned(),
        KeyType::KeyPgDown => "pgdown".to_owned(),
        KeyType::KeyDelete => "delete".to_owned(),
        KeyType::KeyShiftTab => "shift+tab".to_owned(),
        KeyType::KeyCtrlC => "ctrl+c".to_owned(),
        KeyType::KeyUnknown => "unknown".to_owned(),
    }
}

impl KeyMsg {
    /// Creates a key press of the given type, without runes or Alt.
    pub fn new(key_type: KeyType) -> (k: KeyMsg)
        ensures
            k.key_type == key_type,
            k.runes@ == Seq::<char>::empty(),
            !k.alt,
    {
        KeyMsg { key_type, runes: Vec::new(), alt: false }
    }

    /// Creates a key press of runes.
    pub fn from_runes(runes: &[char], alt: bool) -> (k: KeyMsg)
        ensures
            k.key_type == KeyType::KeyRunes,
            k.runes@ == runes@,
            k.alt == alt,
    {
        let mut v: Vec<char> = Vec::new();
        let mut i: usize = 0;
        while i < runes.len()
            invariant
                i <= runes@.len(),
                v@ == runes@.take(i as int),
            decreases runes@.len() - i,
        {
            v.push(runes[i]);
            assert(runes@.take(i + 1) == runes@.take(i as int).push(runes@[i as int]));
            i = i + 1;
        }
        assert(runes@.take(runes@.len() as int) == runes@);
        KeyMsg { key_type: KeyType::KeyRunes, runes: v, alt }
    }

    /// Returns the textual form of the key press, such as `a`, `enter` or
    /// `alt+up`.
    pub fn to_string_rep(&self) -> (s: String)
        ensures
            s@ == key_text(self.key_type, self.runes@, self.alt),
    {
        let base = match self.key_type {
            KeyType::KeyRunes => string_from_chars(&self.runes),
            _ => key_name_string(self.key_type),
        };
        if self.alt {
            let mut s = "alt+".to_owned();
            s.append(base.as_str());
            s
        } else {
            base
        }
    }
}

} // verus!
