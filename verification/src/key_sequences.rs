//! Recognition of terminal input sequences: bracketed paste and the escape
//! sequences of cursor and editing keys.
use vstd::prelude::*;
use vstd::utf8::{decode_utf8, valid_utf8};

use crate::key::{KeyMsg, KeyType};

verus! {

/// The text that `String::from_utf8_lossy` makes of a byte sequence.
pub uninterp spec fn lossy_utf8(bytes: Seq<u8>) -> Seq<char>;

/// Decodes bytes as UTF-8, replacing invalid sequences with U+FFFD
/// (`String::from_utf8_lossy`). The result is named by `lossy_utf8`; the
/// standard library documents that valid UTF-8 comes back unchanged, which
/// the second clause states. How invalid sequences are replaced is left to
/// the name.
#[verifier::external_body]
pub fn utf8_lossy(bytes: &[u8]) -> (s: String)
    ensures
        s@ == lossy_utf8(bytes@),
        valid_utf8(bytes@) ==> s@ == decode_utf8(bytes@),
{
    String::from_utf8_lossy(bytes).into_owned()
}

/// The bracketed-paste marker `ESC [ 2 0 <d> ~`: `d` is `0` at the start of
/// a paste and `1` at its end.
pub open spec fn paste_marker(d: u8) -> Seq<u8> {
    seq![0x1bu8, 0x5bu8, 0x32u8, 0x30u8, d, 0x7eu8]
}

/// Whether `pat` occurs in `s` at index `i`.
pub open spec fn occurs_at(s: Seq<u8>, pat: Seq<u8>, i: int) -> bool {
    0 <= i && i + pat.len() <= s.len() && s.subrange(i, i + pat.len()) == pat
}

/// Whether `i` is the first index at which `pat` occurs in `s`.
pub open spec fn first_occurrence(s: Seq<u8>, pat: Seq<u8>, i: int) -> bool {
    occurs_at(s, pat, i) && forall|j: int| 0 <= j < i ==> !occurs_at(s, pat, j)
}

/// Whether bytes `s[i..i+6]` are the paste marker with digit `d`.
fn marker_at(s: &[u8], i: usize, d: u8) -> (b: bool)
    requires
        i + 6 <= s@.len(),
    ensures
        b == (s@.subrange(i as int, i + 6) == paste_marker(d)),
{
    let b = s[i] == 0x1b && s[i + 1] == 0x5b && s[i + 2] == 0x32 && s[i + 3] == 0x30 && s[i + 4]
        == d && s[i + 5] == 0x7e;
    proof {
        let sub = s@.subrange(i as int, i + 6);
        if b {
            assert(sub =~= paste_marker(d));
        } else if sub == paste_marker(d) {
            assert(sub[0] == s@[i as int] && sub[1] == s@[i + 1] && sub[2] == s@[i + 2] && sub[3]
                == s@[i + 3] && sub[4] == s@[i + 4] && sub[5] == s@[i + 5]);
        }
    }
    b
}

/// The outcome of bracketed-paste detection on `input`: when the input
/// starts with the start marker and an end marker follows, the bytes between
/// them, the first end marker counting; `None` otherwise.
pub open spec fn paste_span(input: Seq<u8>, pos: int) -> bool {
    &&& input.len() >= 6
    &&& input.subrange(0, 6) == paste_marker(0x30)
    &&& first_occurrence(input.subrange(6, input.len() as int), paste_marker(0x31), pos)
}

/// Detects a bracketed paste at the start of `input`. When the input starts
/// with `ESC[200~` and contains `ESC[201~` after it, returns the number of
/// bytes up to and including the first end marker and the pasted text
/// between the markers; otherwise returns `None`.
pub fn detect_bracketed_paste(input: &[u8]) -> (r: Option<(usize, String)>)
    ensures
        r is None <==> !exists|pos: int| paste_span(input@, pos),
        r matches Some((n, text)) ==> exists|pos: int|
            #![trigger paste_span(input@, pos)]
            paste_span(input@, pos) && n == pos + 12 && text@ == lossy_utf8(
                input@.subrange(6, 6 + pos),
            ) && (valid_utf8(input@.subrange(6, 6 + pos)) ==> text@ == decode_utf8(
                input@.subrange(6, 6 + pos),
            )),
{
    let len = input.len();
    if len < 6 || !marker_at(input, 0, 0x30) {
        return None;
    }
    let ghost rest = input@.subrange(6, len as int);
    let mut i: usize = 6;
    while i <= len - 6
        invariant
            6 <= i <= len,
            len >= 6,
            len == input@.len(),
            rest == input@.subrange(6, len as int),
            input@.subrange(0, 6) == paste_marker(0x30),
            forall|j: int| 0 <= j < i - 6 ==> !occurs_at(rest, paste_marker(0x31), j),
        decreases len - i,
    {
        let found = marker_at(input, i, 0x31);
        proof {
            assert(rest.subrange(i - 6, i - 6 + 6) =~= input@.subrange(i as int, i + 6));
        }
        if found {
            let content = &input[6..i];
            let text = utf8_lossy(content);
            proof {
                assert(paste_span(input@, i - 6));
            }
            return Some((i + 6, text));
        }
        i = i + 1;
    }
    proof {
        assert forall|pos: int| !paste_span(input@, pos) by {
            if paste_span(input@, pos) {
                assert(occurs_at(rest, paste_marker(0x31), pos));
                assert(pos < i - 6);
            }
        }
    }
    None
}

/// The key that a known escape sequence at the start of `s` stands for,
/// with the sequence's length.
pub open spec fn known_sequence(s: Seq<u8>) -> Option<(nat, KeyType)> {
    if s.len() >= 3 && s[0] == 0x1b && s[1] == 0x5b {
        let c = s[2];
        if c == 0x41 {
            Some((3, KeyType::KeyUp))
        } else if c == 0x42 {
            Some((3, KeyType::KeyDown))
        } else if c == 0x43 {
            Some((3, KeyType::KeyRight))
        } else if c == 0x44 {
            Some((3, KeyType::KeyLeft))
        } else if c == 0x48 {
            Some((3, KeyType::KeyHome))
        } else if c == 0x46 {
            Some((3, KeyType::KeyEnd))
        } else if c == 0x5a {
            Some((3, KeyType::KeyShiftTab))
        } else if s.len() >= 4 && s[3] == 0x7e && c == 0x35 {
            Some((4, KeyType::KeyPgUp))
        } else if s.len() >= 4 && s[3] == 0x7e && c == 0x36 {
            Some((4, KeyType::KeyPgDown))
        } else if s.len() >= 4 && s[3] == 0x7e && c == 0x33 {
            Some((4, KeyType::KeyDelete))
        } else {
            None
        }
    } else {
        None
    }
}

/// The cursor and editing keys decode to their ANSI meaning, whatever
/// follows them: `ESC [ A` is up, `ESC [ B` down, `ESC [ C` right, `ESC [ D`
/// left, `ESC [ H` home, `ESC [ F` end and `ESC [ Z` shift+tab, each three
/// bytes long; `ESC [ 5 ~` is page up, `ESC [ 6 ~` page down and
/// `ESC [ 3 ~` delete, each four bytes long.
pub proof fn law_sequences_decode_to_their_keys(s: Seq<u8>)
    ensures
        s.len() >= 3 && s[0] == 0x1bu8 && s[1] == 0x5bu8 ==> {
            &&& s[2] == 0x41u8 ==> known_sequence(s) == Some((3nat, KeyType::KeyUp))
            &&& s[2] == 0x42u8 ==> known_sequence(s) == Some((3nat, KeyType::KeyDown))
            &&& s[2] == 0x43u8 ==> known_sequence(s) == Some((3nat, KeyType::KeyRight))
            &&& s[2] == 0x44u8 ==> known_sequence(s) == Some((3nat, KeyType::KeyLeft))
            &&& s[2] == 0x48u8 ==> known_sequence(s) == Some((3nat, KeyType::KeyHome))
            &&& s[2] == 0x46u8 ==> known_sequence(s) == Some((3nat, KeyType::KeyEnd))
            &&& s[2] == 0x5au8 ==> known_sequence(s) == Some((3nat, KeyType::KeyShiftTab))
            &&& s.len() >= 4 && s[3] == 0x7eu8 && s[2] == 0x35u8 ==> known_sequence(s) == Some(
                (4nat, KeyType::KeyPgUp),
            )
            &&& s.len() >= 4 && s[3] == 0x7eu8 && s[2] == 0x36u8 ==> known_sequence(s) == Some(
                (4nat, KeyType::KeyPgDown),
            )
            &&& s.len() >= 4 && s[3] == 0x7eu8 && s[2] == 0x33u8 ==> known_sequence(s) == Some(
                (4nat, KeyType::KeyDelete),
            )
        },
        s.len() < 3 || s[0] != 0x1bu8 || s[1] != 0x5bu8 ==> known_sequence(s) is None,
{
}

/// Detects a known escape sequence of a cursor or editing key at the start
/// of `input` and returns its length with the key press.
pub fn detect_sequence(input: &[u8]) -> (r: Option<(usize, KeyMsg)>)
    ensures
        r is None <==> known_sequence(input@) is None,
        r matches Some((n, k)) ==> known_sequence(input@) == Some((n as nat, k.key_type))
            && k.runes@ == Seq::<char>::empty() && !k.alt,
{
    let len = input.len();
    if len < 3 || input[0] != 0x1b || input[1] != 0x5b {
        return None;
    }
    let c = input[2];
    let tilde = len >= 4 && input[3] == 0x7e;
    let found: Option<(usize, KeyType)> = if c == 0x41 {
        Some((3, KeyType::KeyUp))
    } else if c == 0x42 {
        Some((3, KeyType::KeyDown))
    } else if c == 0x43 {
        Some((3, KeyType::KeyRight))
    } else if c == 0x44 {
        Some((3, KeyType::KeyLeft))
    } else if c == 0x48 {
        Some((3, KeyType::KeyHome))
    } else if c == 0x46 {
        Some((3, KeyType::KeyEnd))
    } else if c == 0x5a {
        Some((3, KeyType::KeyShiftTab))
    } else if tilde && c == 0x35 {
        Some((4, KeyType::KeyPgUp))
    } else if tilde && c == 0x36 {
        Some((4, KeyType::KeyPgDown))
    } else if tilde && c == 0x33 {
        Some((4, KeyType::KeyDelete))
    } else {
        None
    };
    match found {
        Some((n, t)) => Some((n, KeyMsg::new(t))),
        None => None,
    }
}

} // verus!
