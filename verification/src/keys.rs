use vstd::prelude::*;
use vstd::string::*;

verus! {

/// The bit of the Alt modifier in a modifier set.
pub const ALT: u32 = 0x1;
/// The bit of the Caps Lock modifier.
pub const CAPS_LOCK: u32 = 0x4;
/// The bit of the Fn Lock modifier.
pub const FN_LOCK: u32 = 0x20;
/// The bit of the Num Lock modifier.
pub const NUM_LOCK: u32 = 0x80;
/// The bit of the Scroll Lock modifier.
pub const SCROLL_LOCK: u32 = 0x100;
/// The bit of the Symbol Lock modifier.
pub const SYMBOL_LOCK: u32 = 0x800;
/// The bits of the five lock modifiers together.
pub const LOCK_MASK: u32 = 0x9a4;
/// Every bit that stands for a known modifier.
pub const ALL_MODIFIERS: u32 = 0x3fff;

/// A key as the shortcut logic sees it: a printable character, one of the
/// five lock keys, or any other key.
#[derive(PartialEq, Debug)]
pub enum KeyInput {
    Character(String),
    CapsLock,
    FnLock,
    NumLock,
    ScrollLock,
    SymbolLock,
    Other,
}

/// The slot of the lock array that each lock key sets.
pub open spec fn lock_slot(key: KeyInput) -> Option<int> {
    match key {
        KeyInput::CapsLock => Some(0),
        KeyInput::FnLock => Some(1),
        KeyInput::NumLock => Some(2),
        KeyInput::ScrollLock => Some(3),
        KeyInput::SymbolLock => Some(4),
        _ => None,
    }
}

/// The modifier bit of each lock slot.
pub open spec fn lock_flag(i: int) -> u32 {
    if i == 0 {
        CAPS_LOCK
    } else if i == 1 {
        FN_LOCK
    } else if i == 2 {
        NUM_LOCK
    } else if i == 3 {
        SCROLL_LOCK
    } else {
        SYMBOL_LOCK
    }
}

/// The legacy character code of a key: the code of the first character of
/// a character key, and zero for every other key.
pub open spec fn charcode(key: KeyInput) -> u32 {
    match key {
        KeyInput::Character(s) => if s@.len() > 0 {
            s@[0] as u32
        } else {
            0
        },
        _ => 0,
    }
}

/// A modifier set that holds only known modifiers.
pub open spec fn valid_modifiers(bits: u32) -> bool {
    bits & !ALL_MODIFIERS == 0
}

/// `bits` with `flag` switched on or off.
pub open spec fn set_flag(bits: u32, flag: u32, on: bool) -> u32 {
    if on {
        bits | flag
    } else {
        bits & !flag
    }
}

/// `bits` with each lock modifier switched on exactly where the lock is set.
pub open spec fn with_lock_bits(bits: u32, l0: bool, l1: bool, l2: bool, l3: bool, l4: bool) -> u32 {
    set_flag(
        set_flag(
            set_flag(set_flag(set_flag(bits, CAPS_LOCK, l0), FN_LOCK, l1), NUM_LOCK, l2),
            SCROLL_LOCK,
            l3,
        ),
        SYMBOL_LOCK,
        l4,
    )
}

/// `bits` with the lock modifiers taken from the five lock slots.
pub open spec fn with_locks(bits: u32, locks: Seq<bool>) -> u32 {
    with_lock_bits(bits, locks[0], locks[1], locks[2], locks[3], locks[4])
}

/// The lock slots after `key` was pressed: a lock key sets its slot.
pub open spec fn noted(locks: Seq<bool>, key: KeyInput) -> Seq<bool> {
    match lock_slot(key) {
        Some(i) => locks.update(i, true),
        None => locks,
    }
}

impl KeyInput {
    /// The lock slot that this key sets, if it is a lock key.
    pub fn lock_index(&self) -> (slot: Option<usize>)
        ensures
            slot is Some <==> lock_slot(*self) is Some,
            slot matches Some(i) ==> lock_slot(*self) == Some(i as int),
    {
        match self {
            KeyInput::CapsLock => Some(0),
            KeyInput::FnLock => Some(1),
            KeyInput::NumLock => Some(2),
            KeyInput::ScrollLock => Some(3),
            KeyInput::SymbolLock => Some(4),
            _ => None,
        }
    }

    /// The legacy character code of the key.
    pub fn legacy_charcode(&self) -> (code: u32)
        ensures
            code == charcode(*self),
            !(*self is Character) ==> code == 0,
            *self matches KeyInput::Character(s) ==> code == if s@.len() > 0 {
                s@[0] as u32
            } else {
                0
            },
    {
        match self {
            KeyInput::Character(s) => {
                if s.as_str().is_empty() {
                    0
                } else {
                    s.as_str().get_char(0) as u32
                }
            },
            _ => 0,
        }
    }
}

/// Sets the lock slot of `key`, if it is a lock key.
pub fn note_lock_key(locks: &mut [bool; 5], key: &KeyInput)
    ensures
        final(locks)@ == noted(old(locks)@, *key),
{
    match key.lock_index() {
        Some(i) => {
            locks[i] = true;
        },
        None => {},
    }
}

/// The modifier set `bits` with each lock modifier on exactly where its lock
/// slot is set.
pub fn apply_locks(bits: u32, locks: &[bool; 5]) -> (out: u32)
    ensures
        out == with_locks(bits, locks@),
{
    let mut m = bits;
    if locks[0] {
        m = m | CAPS_LOCK;
    } else {
        m = m & !CAPS_LOCK;
    }
    if locks[1] {
        m = m | FN_LOCK;
    } else {
        m = m & !FN_LOCK;
    }
    if locks[2] {
        m = m | NUM_LOCK;
    } else {
        m = m & !NUM_LOCK;
    }
    if locks[3] {
        m = m | SCROLL_LOCK;
    } else {
        m = m & !SCROLL_LOCK;
    }
    if locks[4] {
        m = m | SYMBOL_LOCK;
    } else {
        m = m & !SYMBOL_LOCK;
    }
    m
}

proof fn lemma_lock_bits(bits: u32, l0: bool, l1: bool, l2: bool, l3: bool, l4: bool)
    ensures
        (with_lock_bits(bits, l0, l1, l2, l3, l4) & CAPS_LOCK != 0) == l0,
        (with_lock_bits(bits, l0, l1, l2, l3, l4) & FN_LOCK != 0) == l1,
        (with_lock_bits(bits, l0, l1, l2, l3, l4) & NUM_LOCK != 0) == l2,
        (with_lock_bits(bits, l0, l1, l2, l3, l4) & SCROLL_LOCK != 0) == l3,
        (with_lock_bits(bits, l0, l1, l2, l3, l4) & SYMBOL_LOCK != 0) == l4,
        with_lock_bits(bits, l0, l1, l2, l3, l4) & !LOCK_MASK == bits & !LOCK_MASK,
        with_lock_bits(with_lock_bits(bits, l0, l1, l2, l3, l4), l0, l1, l2, l3, l4)
            == with_lock_bits(bits, l0, l1, l2, l3, l4),
        (bits & !ALL_MODIFIERS == 0) ==> (with_lock_bits(bits, l0, l1, l2, l3, l4) & !ALL_MODIFIERS == 0),
        (!l0 && !l1 && !l2 && !l3 && !l4 && bits & LOCK_MASK == 0) ==> with_lock_bits(bits, l0, l1, l2, l3, l4) == bits,
{
    let r = with_lock_bits(bits, l0, l1, l2, l3, l4);
    let m1 = set_flag(bits, CAPS_LOCK, l0);
    let m2 = set_flag(m1, FN_LOCK, l1);
    let m3 = set_flag(m2, NUM_LOCK, l2);
    let m4 = set_flag(m3, SCROLL_LOCK, l3);
    assert(r == set_flag(m4, SYMBOL_LOCK, l4));
    assert(
        (m1 == if l0 { bits | 0x4u32 } else { bits & !0x4u32 })
        && (m2 == if l1 { m1 | 0x20u32 } else { m1 & !0x20u32 })
        && (m3 == if l2 { m2 | 0x80u32 } else { m2 & !0x80u32 })
        && (m4 == if l3 { m3 | 0x100u32 } else { m3 & !0x100u32 })
        && (r == if l4 { m4 | 0x800u32 } else { m4 & !0x800u32 })
        ==> (
            (r & 0x4u32 != 0) == l0
            && (r & 0x20u32 != 0) == l1
            && (r & 0x80u32 != 0) == l2
            && (r & 0x100u32 != 0) == l3
            && (r & 0x800u32 != 0) == l4
            && r & !0x9a4u32 == bits & !0x9a4u32
            && ((bits & !0x3fffu32 == 0) ==> (r & !0x3fffu32 == 0))
            && ((!l0 && !l1 && !l2 && !l3 && !l4 && bits & 0x9a4u32 == 0) ==> r == bits)
        )
    ) by (bit_vector);
    let r2 = with_lock_bits(r, l0, l1, l2, l3, l4);
    let n1 = set_flag(r, CAPS_LOCK, l0);
    let n2 = set_flag(n1, FN_LOCK, l1);
    let n3 = set_flag(n2, NUM_LOCK, l2);
    let n4 = set_flag(n3, SCROLL_LOCK, l3);
    assert(r2 == set_flag(n4, SYMBOL_LOCK, l4));
    assert(
        (r & 0x4u32 != 0) == l0
        && (r & 0x20u32 != 0) == l1
        && (r & 0x80u32 != 0) == l2
        && (r & 0x100u32 != 0) == l3
        && (r & 0x800u32 != 0) == l4
        && (n1 == if l0 { r | 0x4u32 } else { r & !0x4u32 })
        && (n2 == if l1 { n1 | 0x20u32 } else { n1 & !0x20u32 })
        && (n3 == if l2 { n2 | 0x80u32 } else { n2 & !0x80u32 })
        && (n4 == if l3 { n3 | 0x100u32 } else { n3 & !0x100u32 })
        && (r2 == if l4 { n4 | 0x800u32 } else { n4 & !0x800u32 })
        ==> r2 == r
    ) by (bit_vector);
}

/// Applying the lock slots: each lock modifier ends up on exactly where its
/// slot is set, every other modifier is kept, applying them twice changes
/// nothing more, and a set of known modifiers stays one.
pub proof fn lemma_with_locks(bits: u32, locks: Seq<bool>)
    requires
        locks.len() == 5,
    ensures
        forall|i: int| 0 <= i < 5 ==> ((with_locks(bits, locks) & #[trigger] lock_flag(i) != 0) == locks[i]),
        with_locks(bits, locks) & !LOCK_MASK == bits & !LOCK_MASK,
        with_locks(with_locks(bits, locks), locks) == with_locks(bits, locks),
        valid_modifiers(bits) ==> valid_modifiers(with_locks(bits, locks)),
        (forall|i: int| 0 <= i < 5 ==> !#[trigger] locks[i]) && bits & LOCK_MASK == 0
            ==> with_locks(bits, locks) == bits,
{
    lemma_lock_bits(bits, locks[0], locks[1], locks[2], locks[3], locks[4]);
    assert forall|i: int| 0 <= i < 5 implies ((with_locks(bits, locks) & #[trigger] lock_flag(i) != 0) == locks[i]) by {
        if i == 0 {
        } else if i == 1 {
        } else if i == 2 {
        } else if i == 3 {
        } else {
        }
    }
}

/// What `char::to_lowercase` yields for `c`, collected into a string.
pub uninterp spec fn lowercase(c: char) -> Seq<char>;

/// What `char::to_uppercase` yields for `c`, collected into a string.
pub uninterp spec fn uppercase(c: char) -> Seq<char>;

/// The code of the lowercase form of an ASCII code: `A` to `Z` become `a`
/// to `z`, every other code stays.
pub open spec fn ascii_lower_code(n: u32) -> u32 {
    if 65 <= n && n <= 90 {
        (n + 32) as u32
    } else {
        n
    }
}

/// The code of the uppercase form of an ASCII code: `a` to `z` become `A`
/// to `Z`, every other code stays.
pub open spec fn ascii_upper_code(n: u32) -> u32 {
    if 97 <= n && n <= 122 {
        (n - 32) as u32
    } else {
        n
    }
}

/// Calls `char::to_lowercase` and collects what it yields with `to_string`.
/// For an ASCII character the result is its single lowercase form: the
/// documentation gives the Unicode lowercase mapping, which for ASCII maps
/// `A` to `Z` to `a` to `z` and leaves every other character as it is.
/// Beyond ASCII the contract only names the result.
#[verifier::external_body]
fn lowercase_string(c: char) -> (s: String)
    ensures
        s@ == lowercase(c),
        (c as u32) < 128 ==> s@.len() == 1 && s@[0] as u32 == ascii_lower_code(c as u32),
{
    c.to_lowercase().to_string()
}

/// Calls `char::to_uppercase` and collects what it yields with `to_string`.
/// For an ASCII character the result is its single uppercase form: the
/// documentation gives the Unicode uppercase mapping, which for ASCII maps
/// `a` to `z` to `A` to `Z` and leaves every other character as it is.
/// Beyond ASCII the contract only names the result.
#[verifier::external_body]
fn uppercase_string(c: char) -> (s: String)
    ensures
        s@ == uppercase(c),
        (c as u32) < 128 ==> s@.len() == 1 && s@[0] as u32 == ascii_upper_code(c as u32),
{
    c.to_uppercase().to_string()
}

/// A number that is the code of a Unicode scalar value.
pub open spec fn is_char_code(n: u32) -> bool {
    n <= 0x10ffff && !(0xd800 <= n && n <= 0xdfff)
}

/// Calls `char::from_u32`, which gives the character with code `n` and
/// `None` where `n` is no Unicode scalar value, as its documentation says.
#[verifier::external_body]
fn char_from_u32(n: u32) -> (c: Option<char>)
    ensures
        c is Some <==> is_char_code(n),
        c matches Some(ch) ==> ch as u32 == n && ch == n as char,
{
    char::from_u32(n)
}

/// A character key whose text is the lower- or uppercase form of `c`.
pub open spec fn names_key(key: KeyInput, c: char) -> bool {
    match key {
        KeyInput::Character(s) => s@ == lowercase(c) || s@ == uppercase(c),
        _ => false,
    }
}

/// A key press with modifier set `event_mods` triggers the shortcut saved as
/// the modifier set `saved_mods` and the character code `saved_key`.
pub open spec fn shortcut_matches(event_mods: u32, key: KeyInput, saved_mods: u32, saved_key: u32) -> bool {
    event_mods == saved_mods && names_key(key, saved_key as char)
}

/// For a saved ASCII character: the key's text is one character that is the
/// saved one, whatever the letter case of either.
pub open spec fn ascii_key_matches(key: KeyInput, saved_key: u32) -> bool {
    match key {
        KeyInput::Character(s) => s@.len() == 1 && ascii_lower_code(s@[0] as u32) == ascii_lower_code(saved_key),
        _ => false,
    }
}

proof fn lemma_ascii_text_matches(text: Seq<char>, lower: Seq<char>, upper: Seq<char>, saved_key: u32, k: char)
    requires
        saved_key < 128,
        k as u32 == saved_key,
        lower.len() == 1,
        lower[0] as u32 == ascii_lower_code(saved_key),
        upper.len() == 1,
        upper[0] as u32 == ascii_upper_code(saved_key),
    ensures
        (text == lower || text == upper) == (text.len() == 1 && ascii_lower_code(text[0] as u32)
            == ascii_lower_code(saved_key)),
{
    if text.len() == 1 {
        let x = text[0];
        vstd::utf8::char_u32_cast(x, x as u32);
        vstd::utf8::char_u32_cast(lower[0], lower[0] as u32);
        vstd::utf8::char_u32_cast(upper[0], upper[0] as u32);
        if x as u32 == lower[0] as u32 {
            assert(text =~= lower);
        }
        if x as u32 == upper[0] as u32 {
            assert(text =~= upper);
        }
        if text == lower {
            assert(text[0] == lower[0]);
        }
        if text == upper {
            assert(text[0] == upper[0]);
        }
    } else {
        if text == lower {
            assert(text.len() == lower.len());
        }
        if text == upper {
            assert(text.len() == upper.len());
        }
    }
}

/// Whether a key press triggers the saved shortcut: same modifiers, and the
/// key's text is the saved character in lower or upper case. For a saved
/// ASCII character that is: the key's text is that character, in either case.
pub fn matches_shortcut(event_mods: u32, key: &KeyInput, saved_mods: u32, saved_key: u32) -> (hit: bool)
    requires
        valid_modifiers(saved_mods),
        is_char_code(saved_key),
    ensures
        hit == shortcut_matches(event_mods, *key, saved_mods, saved_key),
        saved_key < 128 ==> hit == (event_mods == saved_mods && ascii_key_matches(*key, saved_key)),
        hit ==> event_mods == saved_mods && *key is Character,
        event_mods == saved_mods && (*key matches KeyInput::Character(s) && (s@ == lowercase(
            saved_key as char,
        ) || s@ == uppercase(saved_key as char))) ==> hit,
{
    let k = match char_from_u32(saved_key) {
        Some(k) => k,
        None => {
            return false;
        },
    };
    assert(k == saved_key as char);
    if event_mods != saved_mods {
        return false;
    }
    match key {
        KeyInput::Character(s) => {
            let lower = lowercase_string(k);
            let upper = uppercase_string(k);
            let hit = *s == lower || *s == upper;
            proof {
                if saved_key < 128 {
                    lemma_ascii_text_matches(s@, lower@, upper@, saved_key, k);
                }
            }
            hit
        },
        _ => false,
    }
}

/// The legacy character code of a key is the code of the first character of
/// its text, zero for an empty text, and zero for every key that is not a
/// character key (lock keys included).
pub proof fn lemma_charcode_of_keys(key: KeyInput)
    ensures
        !(key is Character) ==> charcode(key) == 0,
        key matches KeyInput::Character(s) ==> (s@.len() == 0 ==> charcode(key) == 0),
        key matches KeyInput::Character(s) ==> (s@.len() > 0 ==> charcode(key) as char == s@[0]
            && charcode(key) == s@[0] as u32),
        is_char_code(charcode(key)),
{
    if let KeyInput::Character(s) = key {
        if s@.len() > 0 {
            vstd::utf8::char_is_scalar(s@[0]);
            vstd::utf8::char_u32_cast(s@[0], s@[0] as u32);
        }
    }
}

/// For every saved character, not only ASCII ones: with equal modifiers, a
/// character key whose text is the character's lowercase or uppercase form
/// triggers the shortcut; with different modifiers, or for a key that is no
/// character key, nothing does.
pub proof fn lemma_shortcut_matches_both_cases(event_mods: u32, key: KeyInput, saved_mods: u32, c: char)
    ensures
        key matches KeyInput::Character(s) && (s@ == lowercase(c) || s@ == uppercase(c))
            ==> shortcut_matches(saved_mods, key, saved_mods, c as u32),
        event_mods != saved_mods ==> !shortcut_matches(event_mods, key, saved_mods, c as u32),
        !(key is Character) ==> !shortcut_matches(event_mods, key, saved_mods, c as u32),
        key matches KeyInput::Character(s) && !(s@ == lowercase(c) || s@ == uppercase(c))
            ==> !shortcut_matches(event_mods, key, saved_mods, c as u32),
{
    vstd::utf8::char_u32_cast(c, c as u32);
}

} // verus!
