//! Key combinations: the keys a button or encoder action simulates.
//!
//! A combo is written in a manifest as parts joined by `+`, for example
//! `ctrl+alt+a`. Longer parts name modifiers or special keys; a part of
//! a single basic character stands for that character itself. The library
//! parses and validates combos and turns them into ordered press/release
//! sequences; the process that injects OS input events consumes those
//! sequences outside this crate.

use crate::str_eq;
use vstd::prelude::*;
use vstd::string::StrSliceExecFns;

verus! {

/// A key that can be simulated. Mirrors, as plain values, the keys the
/// injection backend understands.
#[derive(Clone, Copy, Debug, PartialEq, Eq, Structural)]
pub enum Key {
    Control,
    Meta,
    Shift,
    Alt,
    Home,
    End,
    PageUp,
    PageDown,
    Delete,
    Backspace,
    Tab,
    Space,
    Return,
    VolumeUp,
    VolumeDown,
    VolumeMute,
    BrightnessUp,
    BrightnessDown,
    IlluminationUp,
    IlluminationDown,
    F1,
    F2,
    F3,
    F4,
    F5,
    F6,
    F7,
    F8,
    F9,
    F10,
    F11,
    F12,
    F13,
    F14,
    F15,
    F16,
    F17,
    F18,
    F19,
    F20,
    Unicode(char),
}

impl Key {
    /// Whether this key acts as a held modifier rather than a plain key.
    pub open spec fn spec_is_modifier(&self) -> bool {
        self is Control || self is Meta || self is Shift || self is Alt
    }

    /// Whether this key acts as a held modifier rather than a plain key.
    pub fn is_modifier(&self) -> (r: bool)
        ensures
            r == self.spec_is_modifier(),
    {
        match self {
            Key::Control | Key::Meta | Key::Shift | Key::Alt => true,
            _ => false,
        }
    }
}

/// One of the four held modifiers.
#[derive(Clone, Copy, Debug, PartialEq, Eq, Structural)]
pub enum Modifier {
    Ctrl,
    Meta,
    Shift,
    Alt,
}

/// The set of modifiers a combo holds down around its keys.
#[derive(Clone, Copy, Debug, PartialEq, Eq, Structural)]
pub struct Modifiers {
    pub ctrl: bool,
    pub meta: bool,
    pub shift: bool,
    pub alt: bool,
}

impl Modifiers {
    /// The empty modifier set.
    pub fn empty() -> (r: Modifiers)
        ensures
            r == (Modifiers { ctrl: false, meta: false, shift: false, alt: false }),
    {
        Modifiers { ctrl: false, meta: false, shift: false, alt: false }
    }

    pub open spec fn spec_contains(&self, m: Modifier) -> bool {
        match m {
            Modifier::Ctrl => self.ctrl,
            Modifier::Meta => self.meta,
            Modifier::Shift => self.shift,
            Modifier::Alt => self.alt,
        }
    }

    /// Whether the set holds the given modifier.
    pub fn contains(&self, m: Modifier) -> (r: bool)
        ensures
            r == self.spec_contains(m),
    {
        match m {
            Modifier::Ctrl => self.ctrl,
            Modifier::Meta => self.meta,
            Modifier::Shift => self.shift,
            Modifier::Alt => self.alt,
        }
    }

    pub open spec fn spec_add(&self, m: Modifier) -> Modifiers {
        match m {
            Modifier::Ctrl => Modifiers { ctrl: true, ..*self },
            Modifier::Meta => Modifiers { meta: true, ..*self },
            Modifier::Shift => Modifiers { shift: true, ..*self },
            Modifier::Alt => Modifiers { alt: true, ..*self },
        }
    }

    /// Adds the given modifier to the set.
    pub fn add(&mut self, m: Modifier)
        ensures
            *final(self) == old(self).spec_add(m),
    {
        match m {
            Modifier::Ctrl => {
                self.ctrl = true;
            },
            Modifier::Meta => {
                self.meta = true;
            },
            Modifier::Shift => {
                self.shift = true;
            },
            Modifier::Alt => {
                self.alt = true;
            },
        }
    }
}

/// Mathematical model of a [`KeyCombo`].
#[verifier::ext_equal]
pub struct KeyComboView {
    pub modifiers: Modifiers,
    pub keys: Seq<Key>,
}

/// A parsed key combination: a modifier set and the plain keys in the
/// order they were written.
#[derive(Debug)]
pub struct KeyCombo {
    pub modifiers: Modifiers,
    pub keys: Vec<Key>,
}

impl View for KeyCombo {
    type V = KeyComboView;

    open spec fn view(&self) -> KeyComboView {
        KeyComboView { modifiers: self.modifiers, keys: self.keys@ }
    }
}

impl Clone for KeyCombo {
    fn clone(&self) -> (r: Self)
        ensures
            r@ == self@,
    {
        let keys = self.keys.clone();
        proof {
            assert(keys@ =~= self.keys@);
        }
        KeyCombo { modifiers: self.modifiers, keys }
    }
}

impl KeyComboView {
    /// Whether the combo is the deck's own illumination control: a single
    /// illumination key with no other keys.
    pub open spec fn spec_is_illumination(&self) -> bool {
        self.keys.len() == 1 && (self.keys[0] is IlluminationUp || self.keys[0] is IlluminationDown)
    }
}

impl KeyCombo {
    /// Whether the combo is the deck's own illumination control; such a
    /// combo adjusts the deck's brightness instead of being injected.
    pub fn is_illumination(&self) -> (r: bool)
        ensures
            r == self@.spec_is_illumination(),
    {
        if self.keys.len() == 1 {
            match self.keys[0] {
                Key::IlluminationUp | Key::IlluminationDown => true,
                _ => false,
            }
        } else {
            false
        }
    }
}

/// The key a combo part names, or `None` when the part names nothing.
/// A part of one byte — a single basic character — stands for itself;
/// longer parts name modifiers and special keys.
pub open spec fn spec_parse_key(s: Seq<char>) -> Option<Key> {
    if s.len() == 0 {
        None
    } else if s.len() == 1 && (s[0] as u32) < 128 {
        Some(Key::Unicode(s[0]))
    } else if s == "ctrl"@ {
        Some(Key::Control)
    } else if s == "meta"@ {
        Some(Key::Meta)
    } else if s == "cmd"@ {
        Some(Key::Meta)
    } else if s == "command"@ {
        Some(Key::Meta)
    } else if s == "super"@ {
        Some(Key::Meta)
    } else if s == "shift"@ {
        Some(Key::Shift)
    } else if s == "alt"@ {
        Some(Key::Alt)
    } else if s == "option"@ {
        Some(Key::Alt)
    } else if s == "home"@ {
        Some(Key::Home)
    } else if s == "end"@ {
        Some(Key::End)
    } else if s == "page_up"@ {
        Some(Key::PageUp)
    } else if s == "page_down"@ {
        Some(Key::PageDown)
    } else if s == "delete"@ {
        Some(Key::Delete)
    } else if s == "backspace"@ {
        Some(Key::Backspace)
    } else if s == "tab"@ {
        Some(Key::Tab)
    } else if s == "space"@ {
        Some(Key::Space)
    } else if s == "spacebar"@ {
        Some(Key::Space)
    } else if s == "enter"@ {
        Some(Key::Return)
    } else if s == "return"@ {
        Some(Key::Return)
    } else if s == "volume_up"@ {
        Some(Key::VolumeUp)
    } else if s == "volume_down"@ {
        Some(Key::VolumeDown)
    } else if s == "volume_mute"@ {
        Some(Key::VolumeMute)
    } else if s == "brightness_up"@ {
        Some(Key::BrightnessUp)
    } else if s == "brightness_down"@ {
        Some(Key::BrightnessDown)
    } else if s == "illumination_up"@ {
        Some(Key::IlluminationUp)
    } else if s == "illumination_down"@ {
        Some(Key::IlluminationDown)
    } else if s == "f1"@ {
        Some(Key::F1)
    } else if s == "f2"@ {
        Some(Key::F2)
    } else if s == "f3"@ {
        Some(Key::F3)
    } else if s == "f4"@ {
        Some(Key::F4)
    } else if s == "f5"@ {
        Some(Key::F5)
    } else if s == "f6"@ {
        Some(Key::F6)
    } else if s == "f7"@ {
        Some(Key::F7)
    } else if s == "f8"@ {
        Some(Key::F8)
    } else if s == "f9"@ {
        Some(Key::F9)
    } else if s == "f10"@ {
        Some(Key::F10)
    } else if s == "f11"@ {
        Some(Key::F11)
    } else if s == "f12"@ {
        Some(Key::F12)
    } else if s == "f13"@ {
        Some(Key::F13)
    } else if s == "f14"@ {
        Some(Key::F14)
    } else if s == "f15"@ {
        Some(Key::F15)
    } else if s == "f16"@ {
        Some(Key::F16)
    } else if s == "f17"@ {
        Some(Key::F17)
    } else if s == "f18"@ {
        Some(Key::F18)
    } else if s == "f19"@ {
        Some(Key::F19)
    } else if s == "f20"@ {
        Some(Key::F20)
    } else {
        None
    }
}

/// Parses one combo part into a key.
pub fn parse_key(input: &str) -> (r: Option<Key>)
    ensures
        r == spec_parse_key(input@),
{
    let n = input.unicode_len();
    if n == 0 {
        return None;
    }
    if n == 1 {
        let c = input.get_char(0);
        if (c as u32) < 128 {
            return Some(Key::Unicode(c));
        }
    }
    if str_eq(input, "ctrl") {
        Some(Key::Control)
    } else if str_eq(input, "meta") {
        Some(Key::Meta)
    } else if str_eq(input, "cmd") {
        Some(Key::Meta)
    } else if str_eq(input, "command") {
        Some(Key::Meta)
    } else if str_eq(input, "super") {
        Some(Key::Meta)
    } else if str_eq(input, "shift") {
        Some(Key::Shift)
    } else if str_eq(input, "alt") {
        Some(Key::Alt)
    } else if str_eq(input, "option") {
        Some(Key::Alt)
    } else if str_eq(input, "home") {
        Some(Key::Home)
    } else if str_eq(input, "end") {
        Some(Key::End)
    } else if str_eq(input, "page_up") {
        Some(Key::PageUp)
    } else if str_eq(input, "page_down") {
        Some(Key::PageDown)
    } else if str_eq(input, "delete") {
        Some(Key::Delete)
    } else if str_eq(input, "backspace") {
        Some(Key::Backspace)
    } else if str_eq(input, "tab") {
        Some(Key::Tab)
    } else if str_eq(input, "space") {
        Some(Key::Space)
    } else if str_eq(input, "spacebar") {
        Some(Key::Space)
    } else if str_eq(input, "enter") {
        Some(Key::Return)
    } else if str_eq(input, "return") {
        Some(Key::Return)
    } else if str_eq(input, "volume_up") {
        Some(Key::VolumeUp)
    } else if str_eq(input, "volume_down") {
        Some(Key::VolumeDown)
    } else if str_eq(input, "volume_mute") {
        Some(Key::VolumeMute)
    } else if str_eq(input, "brightness_up") {
        Some(Key::BrightnessUp)
    } else if str_eq(input, "brightness_down") {
        Some(Key::BrightnessDown)
    } else if str_eq(input, "illumination_up") {
        Some(Key::IlluminationUp)
    } else if str_eq(input, "illumination_down") {
        Some(Key::IlluminationDown)
    } else if str_eq(input, "f1") {
        Some(Key::F1)
    } else if str_eq(input, "f2") {
        Some(Key::F2)
    } else if str_eq(input, "f3") {
        Some(Key::F3)
    } else if str_eq(input, "f4") {
        Some(Key::F4)
    } else if str_eq(input, "f5") {
        Some(Key::F5)
    } else if str_eq(input, "f6") {
        Some(Key::F6)
    } else if str_eq(input, "f7") {
        Some(Key::F7)
    } else if str_eq(input, "f8") {
        Some(Key::F8)
    } else if str_eq(input, "f9") {
        Some(Key::F9)
    } else if str_eq(input, "f10") {
        Some(Key::F10)
    } else if str_eq(input, "f11") {
        Some(Key::F11)
    } else if str_eq(input, "f12") {
        Some(Key::F12)
    } else if str_eq(input, "f13") {
        Some(Key::F13)
    } else if str_eq(input, "f14") {
        Some(Key::F14)
    } else if str_eq(input, "f15") {
        Some(Key::F15)
    } else if str_eq(input, "f16") {
        Some(Key::F16)
    } else if str_eq(input, "f17") {
        Some(Key::F17)
    } else if str_eq(input, "f18") {
        Some(Key::F18)
    } else if str_eq(input, "f19") {
        Some(Key::F19)
    } else if str_eq(input, "f20") {
        Some(Key::F20)
    } else {
        None
    }
}

/// Blank characters stripped from the ends of a combo part: the
/// characters with the Unicode white-space property, as the standard
/// library's trimming strips them.
pub open spec fn spec_is_space(c: char) -> bool {
    let n = c as u32;
    ||| (0x9 <= n && n <= 0xD)
    ||| n == 0x20
    ||| n == 0x85
    ||| n == 0xA0
    ||| n == 0x1680
    ||| (0x2000 <= n && n <= 0x200A)
    ||| n == 0x2028
    ||| n == 0x2029
    ||| n == 0x202F
    ||| n == 0x205F
    ||| n == 0x3000
}

/// Whether a character counts as blank at a combo part's ends.
fn is_space_char(c: char) -> (r: bool)
    ensures
        r == spec_is_space(c),
{
    let n = c as u32;
    (0x9 <= n && n <= 0xD) || n == 0x20 || n == 0x85 || n == 0xA0 || n == 0x1680 || (0x2000 <= n
        && n <= 0x200A) || n == 0x2028 || n == 0x2029 || n == 0x202F || n == 0x205F || n == 0x3000
}

/// The sequence with its leading blanks removed.
pub open spec fn spec_trim_front(s: Seq<char>) -> Seq<char>
    decreases s.len(),
{
    if s.len() > 0 && spec_is_space(s[0]) {
        spec_trim_front(s.skip(1))
    } else {
        s
    }
}

/// The sequence with its trailing blanks removed.
pub open spec fn spec_trim_back(s: Seq<char>) -> Seq<char>
    decreases s.len(),
{
    if s.len() > 0 && spec_is_space(s[s.len() - 1]) {
        spec_trim_back(s.take(s.len() - 1))
    } else {
        s
    }
}

/// The sequence with blanks removed from both ends.
pub open spec fn spec_trim(s: Seq<char>) -> Seq<char> {
    spec_trim_back(spec_trim_front(s))
}

proof fn lemma_trim_front_is(s: Seq<char>, a: int)
    requires
        0 <= a <= s.len(),
        forall|j: int| 0 <= j < a ==> spec_is_space(s[j]),
        a < s.len() ==> !spec_is_space(s[a]),
    ensures
        spec_trim_front(s) == s.subrange(a, s.len() as int),
    decreases a,
{
    if a == 0 {
        assert(spec_trim_front(s) =~= s.subrange(0, s.len() as int));
    } else {
        let t = s.skip(1);
        assert(spec_is_space(s[0]));
        lemma_trim_front_is(t, a - 1);
        assert(t.subrange(a - 1, t.len() as int) =~= s.subrange(a, s.len() as int));
    }
}

proof fn lemma_trim_back_is(s: Seq<char>, b: int)
    requires
        0 <= b <= s.len(),
        forall|j: int| b <= j < s.len() ==> spec_is_space(s[j]),
        b > 0 ==> !spec_is_space(s[b - 1]),
    ensures
        spec_trim_back(s) == s.subrange(0, b),
    decreases s.len() - b,
{
    if b == s.len() {
        if s.len() > 0 && spec_is_space(s[s.len() - 1]) {
            assert(!spec_is_space(s[b - 1]));
        }
        assert(spec_trim_back(s) =~= s.subrange(0, b));
    } else {
        let t = s.take(s.len() - 1);
        assert(spec_is_space(s[s.len() - 1]));
        lemma_trim_back_is(t, b);
        assert(t.subrange(0, b) =~= s.subrange(0, b));
    }
}

/// Strips blanks from both ends of a combo part.
pub fn trim_spaces(s: &str) -> (r: &str)
    ensures
        r@ == spec_trim(s@),
{
    let n = s.unicode_len();
    let mut a: usize = 0;
    loop
        invariant
            0 <= a <= n,
            n == s@.len(),
            forall|j: int| 0 <= j < a ==> spec_is_space(s@[j]),
        ensures
            0 <= a <= n,
            forall|j: int| 0 <= j < a ==> spec_is_space(s@[j]),
            a < n ==> !spec_is_space(s@[a as int]),
        decreases n - a,
    {
        if a < n {
            let c = s.get_char(a);
            if is_space_char(c) {
                a = a + 1;
                continue;
            }
        }
        break;
    }
    let mut b: usize = n;
    loop
        invariant
            a <= b <= n,
            n == s@.len(),
            forall|j: int| b <= j < n ==> spec_is_space(s@[j]),
        ensures
            a <= b <= n,
            forall|j: int| b <= j < n ==> spec_is_space(s@[j]),
            b > a ==> !spec_is_space(s@[b - 1]),
        decreases b,
    {
        if b > a {
            let c = s.get_char(b - 1);
            if is_space_char(c) {
                b = b - 1;
                continue;
            }
        }
        break;
    }
    proof {
        lemma_trim_front_is(s@, a as int);
        let t = s@.subrange(a as int, s@.len() as int);
        if b == a {
            // everything from a on was stripped by the back scan, or the
            // front scan already reached the end
            lemma_trim_back_is(t, 0);
        } else {
            lemma_trim_back_is(t, b - a);
        }
        assert(t.subrange(0, b - a) =~= s@.subrange(a as int, b as int));
    }
    s.substring_char(a, b)
}

/// Index of the first `+` in the sequence, or its length when none occurs.
pub open spec fn first_plus(s: Seq<char>) -> int
    decreases s.len(),
{
    if s.len() == 0 {
        0
    } else if s[0] == '+' {
        0
    } else {
        1 + first_plus(s.skip(1))
    }
}

proof fn lemma_first_plus_bounds(s: Seq<char>)
    ensures
        0 <= first_plus(s) <= s.len(),
        forall|j: int| 0 <= j < first_plus(s) ==> s[j] != '+',
        first_plus(s) < s.len() ==> s[first_plus(s)] == '+',
    decreases s.len(),
{
    if s.len() == 0 || s[0] == '+' {
    } else {
        let t = s.skip(1);
        lemma_first_plus_bounds(t);
        assert forall|j: int| 0 <= j < first_plus(s) implies s[j] != '+' by {
            if j > 0 {
                assert(s[j] == t[j - 1]);
            }
        }
    }
}

proof fn lemma_first_plus_is(s: Seq<char>, i: int)
    requires
        0 <= i <= s.len(),
        forall|j: int| 0 <= j < i ==> s[j] != '+',
        i < s.len() ==> s[i] == '+',
    ensures
        first_plus(s) == i,
    decreases i,
{
    if i == 0 {
    } else {
        assert(s[0] != '+');
        let t = s.skip(1);
        assert forall|j: int| 0 <= j < i - 1 implies t[j] != '+' by {
            assert(t[j] == s[j + 1]);
        }
        lemma_first_plus_is(t, i - 1);
    }
}

/// The combo holding a single parsed key: a modifier lands in the
/// modifier set, anything else in the key list.
pub open spec fn spec_combo_single(k: Key) -> KeyComboView {
    let none = Modifiers { ctrl: false, meta: false, shift: false, alt: false };
    match k {
        Key::Control => KeyComboView { modifiers: Modifiers { ctrl: true, ..none }, keys: seq![] },
        Key::Meta => KeyComboView { modifiers: Modifiers { meta: true, ..none }, keys: seq![] },
        Key::Shift => KeyComboView { modifiers: Modifiers { shift: true, ..none }, keys: seq![] },
        Key::Alt => KeyComboView { modifiers: Modifiers { alt: true, ..none }, keys: seq![] },
        _ => KeyComboView { modifiers: none, keys: seq![k] },
    }
}

/// The combo extended at the front by one parsed key.
pub open spec fn spec_combo_prepend(k: Key, c: KeyComboView) -> KeyComboView {
    match k {
        Key::Control => KeyComboView { modifiers: c.modifiers.spec_add(Modifier::Ctrl), ..c },
        Key::Meta => KeyComboView { modifiers: c.modifiers.spec_add(Modifier::Meta), ..c },
        Key::Shift => KeyComboView { modifiers: c.modifiers.spec_add(Modifier::Shift), ..c },
        Key::Alt => KeyComboView { modifiers: c.modifiers.spec_add(Modifier::Alt), ..c },
        _ => KeyComboView { keys: seq![k] + c.keys, ..c },
    }
}

/// The parse of a whole combo string: parts split on `+`, each trimmed
/// and parsed in order. The first part that names no key makes the whole
/// parse fail, carrying that part.
pub open spec fn spec_parse_combo(s: Seq<char>) -> Result<KeyComboView, Seq<char>>
    decreases s.len() via spec_parse_combo_decreases
{
    let i = first_plus(s);
    let part = spec_trim(s.take(i));
    match spec_parse_key(part) {
        None => Err(part),
        Some(k) => {
            if i >= s.len() {
                Ok(spec_combo_single(k))
            } else {
                match spec_parse_combo(s.skip(i + 1)) {
                    Err(e) => Err(e),
                    Ok(c) => Ok(spec_combo_prepend(k, c)),
                }
            }
        },
    }
}

#[via_fn]
proof fn spec_parse_combo_decreases(s: Seq<char>) {
    lemma_first_plus_bounds(s);
}

/// Whether a simulated key is pushed down, let go, or tapped.
#[derive(Clone, Copy, Debug, PartialEq, Eq, Structural)]
pub enum KeyDirection {
    Press,
    Release,
    Click,
}

/// The events a modifier set contributes, in the fixed order control,
/// meta, shift, alt.
pub open spec fn spec_modifier_events(m: Modifiers, d: KeyDirection) -> Seq<(Key, KeyDirection)> {
    (if m.ctrl {
        seq![(Key::Control, d)]
    } else {
        seq![]
    }) + (if m.meta {
        seq![(Key::Meta, d)]
    } else {
        seq![]
    }) + (if m.shift {
        seq![(Key::Shift, d)]
    } else {
        seq![]
    }) + (if m.alt {
        seq![(Key::Alt, d)]
    } else {
        seq![]
    })
}

/// The events the plain keys contribute, one each, in combo order.
pub open spec fn spec_key_events(keys: Seq<Key>, d: KeyDirection) -> Seq<(Key, KeyDirection)> {
    keys.map_values(|k: Key| (k, d))
}

/// What holding a combo down injects: modifiers pressed, then keys
/// pressed, nothing released.
pub open spec fn spec_press_sequence(c: KeyComboView) -> Seq<(Key, KeyDirection)> {
    spec_modifier_events(c.modifiers, KeyDirection::Press) + spec_key_events(
        c.keys,
        KeyDirection::Press,
    )
}

/// What letting a combo go injects: every key the press sequence pushed
/// down, released in the same order.
pub open spec fn spec_release_sequence(c: KeyComboView) -> Seq<(Key, KeyDirection)> {
    spec_modifier_events(c.modifiers, KeyDirection::Release) + spec_key_events(
        c.keys,
        KeyDirection::Release,
    )
}

/// What one full stroke injects: modifiers pressed, keys tapped,
/// modifiers released.
pub open spec fn spec_perform_sequence(c: KeyComboView) -> Seq<(Key, KeyDirection)> {
    spec_modifier_events(c.modifiers, KeyDirection::Press) + spec_key_events(
        c.keys,
        KeyDirection::Click,
    ) + spec_modifier_events(c.modifiers, KeyDirection::Release)
}

fn push_modifier_events(out: &mut Vec<(Key, KeyDirection)>, m: Modifiers, d: KeyDirection)
    ensures
        final(out)@ == old(out)@ + spec_modifier_events(m, d),
{
    if m.ctrl {
        out.push((Key::Control, d));
    }
    if m.meta {
        out.push((Key::Meta, d));
    }
    if m.shift {
        out.push((Key::Shift, d));
    }
    if m.alt {
        out.push((Key::Alt, d));
    }
    proof {
        assert(final(out)@ =~= old(out)@ + spec_modifier_events(m, d));
    }
}

fn push_key_events(out: &mut Vec<(Key, KeyDirection)>, keys: &Vec<Key>, d: KeyDirection)
    ensures
        final(out)@ == old(out)@ + spec_key_events(keys@, d),
{
    let n = keys.len();
    let mut i: usize = 0;
    while i < n
        invariant
            0 <= i <= n == keys@.len(),
            out@ == old(out)@ + spec_key_events(keys@.take(i as int), d),
        decreases n - i,
    {
        out.push((keys[i], d));
        i = i + 1;
        proof {
            assert(keys@.take(i as int).map_values(|k: Key| (k, d)) =~= keys@.take(
                i - 1,
            ).map_values(|k: Key| (k, d)).push((keys@[i - 1], d)));
        }
    }
    proof {
        assert(keys@.take(n as int) =~= keys@);
    }
}

impl KeyCombo {
    /// The ordered events that hold this combo down.
    pub fn press(&self) -> (r: Vec<(Key, KeyDirection)>)
        ensures
            r@ == spec_press_sequence(self@),
    {
        let mut out: Vec<(Key, KeyDirection)> = Vec::new();
        push_modifier_events(&mut out, self.modifiers, KeyDirection::Press);
        push_key_events(&mut out, &self.keys, KeyDirection::Press);
        proof {
            assert(out@ =~= spec_press_sequence(self@));
        }
        out
    }

    /// The ordered events that let this combo go after [`KeyCombo::press`].
    pub fn release(&self) -> (r: Vec<(Key, KeyDirection)>)
        ensures
            r@ == spec_release_sequence(self@),
    {
        let mut out: Vec<(Key, KeyDirection)> = Vec::new();
        push_modifier_events(&mut out, self.modifiers, KeyDirection::Release);
        push_key_events(&mut out, &self.keys, KeyDirection::Release);
        proof {
            assert(out@ =~= spec_release_sequence(self@));
        }
        out
    }

    /// The ordered events of one full stroke of this combo.
    pub fn perform(&self) -> (r: Vec<(Key, KeyDirection)>)
        ensures
            r@ == spec_perform_sequence(self@),
    {
        let mut out: Vec<(Key, KeyDirection)> = Vec::new();
        push_modifier_events(&mut out, self.modifiers, KeyDirection::Press);
        push_key_events(&mut out, &self.keys, KeyDirection::Click);
        push_modifier_events(&mut out, self.modifiers, KeyDirection::Release);
        proof {
            assert(out@ =~= spec_perform_sequence(self@));
        }
        out
    }
}

/// Law: the release sequence of a combo lets go exactly the keys its
/// press sequence pushed down, in the same order, so a button-down
/// followed by a button-up leaves no key held.
pub proof fn lemma_press_release_paired(c: KeyComboView)
    ensures
        spec_release_sequence(c).len() == spec_press_sequence(c).len(),
        forall|i: int|
            0 <= i < spec_press_sequence(c).len() ==> spec_press_sequence(c)[i].0
                == spec_release_sequence(c)[i].0,
        forall|i: int|
            0 <= i < spec_press_sequence(c).len() ==> spec_press_sequence(c)[i].1
                == KeyDirection::Press && spec_release_sequence(c)[i].1 == KeyDirection::Release,
{
}

/// A combo part that names no key. Its text is kept so that the
/// configuration error can be reported.
#[derive(Debug)]
pub struct InvalidKeyError {
    pub token: String,
}

impl InvalidKeyError {
    /// The error rendered for reporting.
    pub fn message(&self) -> (r: String)
        ensures
            r@ == "Invalid key: "@ + self.token@,
    {
        let mut s = "Invalid key: ".to_owned();
        s.append(self.token.as_str());
        s
    }
}

impl KeyCombo {
    /// Parses a combo string such as `ctrl+alt+a`. Parts are split on
    /// `+`, trimmed, and parsed left to right; the first part naming no
    /// key fails the parse.
    pub fn parse(s: &str) -> (r: Result<KeyCombo, InvalidKeyError>)
        ensures
            spec_parse_combo(s@) is Ok ==> r is Ok && r->Ok_0@ == spec_parse_combo(s@)->Ok_0,
            spec_parse_combo(s@) is Err ==> r is Err && r->Err_0.token@ == spec_parse_combo(
                s@,
            )->Err_0,
        decreases s@.len(),
    {
        let n = s.unicode_len();
        let mut i: usize = 0;
        loop
            invariant
                0 <= i <= n,
                n == s@.len(),
                forall|j: int| 0 <= j < i ==> s@[j] != '+',
            ensures
                0 <= i <= n,
                forall|j: int| 0 <= j < i ==> s@[j] != '+',
                i < n ==> s@[i as int] == '+',
            decreases n - i,
        {
            if i < n {
                let c = s.get_char(i);
                if c != '+' {
                    i = i + 1;
                    continue;
                }
            }
            break;
        }
        proof {
            lemma_first_plus_is(s@, i as int);
            assert(s@.subrange(0, i as int) =~= s@.take(i as int));
        }
        let head = s.substring_char(0, i);
        let part = trim_spaces(head);
        match parse_key(part) {
            None => Err(InvalidKeyError { token: part.to_owned() }),
            Some(k) => {
                if i >= n {
                    let mut modifiers = Modifiers::empty();
                    let mut keys: Vec<Key> = Vec::new();
                    match k {
                        Key::Control => modifiers.add(Modifier::Ctrl),
                        Key::Meta => modifiers.add(Modifier::Meta),
                        Key::Shift => modifiers.add(Modifier::Shift),
                        Key::Alt => modifiers.add(Modifier::Alt),
                        _ => keys.push(k),
                    }
                    let combo = KeyCombo { modifiers, keys };
                    proof {
                        assert(combo@.keys =~= spec_combo_single(k).keys);
                    }
                    Ok(combo)
                } else {
                    let rest = s.substring_char(i + 1, n);
                    proof {
                        assert(rest@ =~= s@.skip(i + 1));
                    }
                    match KeyCombo::parse(rest) {
                        Err(e) => Err(e),
                        Ok(c) => {
                            let mut combo = c;
                            match k {
                                Key::Control => combo.modifiers.add(Modifier::Ctrl),
                                Key::Meta => combo.modifiers.add(Modifier::Meta),
                                Key::Shift => combo.modifiers.add(Modifier::Shift),
                                Key::Alt => combo.modifiers.add(Modifier::Alt),
                                _ => combo.keys.insert(0, k),
                            }
                            proof {
                                let c0 = spec_parse_combo(s@.skip(i + 1))->Ok_0;
                                assert(combo@.keys =~= spec_combo_prepend(k, c0).keys);
                            }
                            Ok(combo)
                        },
                    }
                }
            },
        }
    }
}

} // verus!

