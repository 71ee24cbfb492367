use vstd::prelude::*;

use crate::targets::appleii::io::misc::{MiscIo, GAME_SWITCH_APPLE_KEY};
use crate::targets::appleii::io::soft_switches::{switch_index, SoftSwitches, Switch};

verus! {

/// The keys of the host keyboard that the Apple II keyboard knows.
#[derive(Debug, Clone, Copy, PartialEq, Eq, Structural)]
pub enum Key {
    A,
    B,
    C,
    D,
    E,
    F,
    G,
    H,
    I,
    J,
    K,
    L,
    M,
    N,
    O,
    P,
    Q,
    R,
    S,
    T,
    U,
    V,
    W,
    X,
    Y,
    Z,
    Escape,
    Enter,
    ArrowDown,
    ArrowUp,
    ArrowRight,
    ArrowLeft,
    Space,
    Num0,
    Num1,
    Num2,
    Num3,
    Num4,
    Num5,
    Num6,
    Num7,
    Num8,
    Num9,
    Semicolon,
    Comma,
    Colon,
    Equals,
    Minus,
    Quote,
    Period,
    Questionmark,
    Plus,
    Slash,
    Exclamationmark,
    Tab,
    Delete,
    Other,
}

/// The codes of a letter key: alone (upper case with caps lock, else lower case), with
/// control, with shift, with both.
pub open spec fn alpha_codes(key_code: u8, caps_lock: bool) -> (u8, u8, u8, u8) {
    (
        if caps_lock { key_code } else { (key_code + 0x20) as u8 },
        (key_code - 0x40) as u8,
        key_code,
        (key_code - 0x40) as u8,
    )
}

/// The letter code (0xc1 for A to 0xda for Z) of a letter key.
pub open spec fn letter_code(key: Key) -> Option<u8> {
    match key {
        Key::A => Some(0xc1u8),
        Key::B => Some(0xc2u8),
        Key::C => Some(0xc3u8),
        Key::D => Some(0xc4u8),
        Key::E => Some(0xc5u8),
        Key::F => Some(0xc6u8),
        Key::G => Some(0xc7u8),
        Key::H => Some(0xc8u8),
        Key::I => Some(0xc9u8),
        Key::J => Some(0xcau8),
        Key::K => Some(0xcbu8),
        Key::L => Some(0xccu8),
        Key::M => Some(0xcdu8),
        Key::N => Some(0xceu8),
        Key::O => Some(0xcfu8),
        Key::P => Some(0xd0u8),
        Key::Q => Some(0xd1u8),
        Key::R => Some(0xd2u8),
        Key::S => Some(0xd3u8),
        Key::T => Some(0xd4u8),
        Key::U => Some(0xd5u8),
        Key::V => Some(0xd6u8),
        Key::W => Some(0xd7u8),
        Key::X => Some(0xd8u8),
        Key::Y => Some(0xd9u8),
        Key::Z => Some(0xdau8),
        _ => None,
    }
}

/// The codes of any other key: alone, with control, with shift, with both (all zero for a
/// key the Apple II does not have).
pub open spec fn other_codes(key: Key, shift: bool) -> (u8, u8, u8, u8) {
    match key {
        Key::Escape => (0x9b, 0x9b, 0x9b, 0x9b),
        Key::Enter => (0x8d, 0x8d, 0x8d, 0x8d),
        Key::ArrowDown => (0x8a, 0x8a, 0x8a, 0x8a),
        Key::ArrowUp => (0x8b, 0x8b, 0x8b, 0x8b),
        Key::ArrowRight => (0x95, 0x95, 0x95, 0x95),
        Key::ArrowLeft => (0x88, 0x88, 0x88, 0x88),
        Key::Space => (0xa0, 0xa0, 0xa0, 0xa0),
        Key::Num0 => (0xb0, 0xb0, 0xa9, 0xa9),
        Key::Num1 => (0xb1, 0xb1, 0xa1, 0xa1),
        Key::Num2 => (0xb2, 0xb2, 0xc0, 0xc0),
        Key::Num3 => (0xb3, 0xb3, 0xa3, 0xa3),
        Key::Num4 => (0xb4, 0xb4, 0xa4, 0xa4),
        Key::Num5 => (0xb5, 0xb5, 0xa5, 0xa5),
        Key::Num6 => (0xb6, 0xb6, 0xa6, 0xa6),
        Key::Num7 => (0xb7, 0xb7, 0xa6, 0xa6),
        Key::Num8 => (0xb8, 0xb8, 0xaa, 0xaa),
        Key::Num9 => (0xb9, 0xb9, 0xa8, 0xa8),
        Key::Semicolon => (0xbb, 0xbb, 0xab, 0xab),
        Key::Comma => (0xac, 0xac, 0xbc, 0xbc),
        Key::Colon => (0xba, 0xba, 0xba, 0xba),
        Key::Equals => (0xbd, 0xbd, 0xbd, 0xbd),
        Key::Minus => (0xad, 0xad, 0xdf, 0xad),
        Key::Quote => if shift { (0xa2, 0xa2, 0xa2, 0xa2) } else { (0xa7, 0xa7, 0xa7, 0xa7) },
        Key::Period => (0xae, 0xae, 0xbe, 0xbe),
        Key::Questionmark => (0xbf, 0xbf, 0xbf, 0xbf),
        Key::Plus => (0xab, 0xab, 0xab, 0xab),
        Key::Slash => (0xaf, 0xaf, 0xbf, 0xbf),
        Key::Exclamationmark => (0xa1, 0xa1, 0xa1, 0xa1),
        Key::Tab => (0x89, 0x89, 0x89, 0x89),
        Key::Delete => (0xff, 0xff, 0xff, 0xff),
        _ => (0, 0, 0, 0),
    }
}

/// The four codes of a key.
pub open spec fn key_codes_spec(key: Key, caps_lock: bool, shift: bool) -> (u8, u8, u8, u8) {
    match letter_code(key) {
        Some(c) => alpha_codes(c, caps_lock),
        None => other_codes(key, shift),
    }
}

/// The code a key press gives with the modifiers held, or 0 for a key the Apple II does
/// not have.
pub open spec fn key_code(key: Key, caps_lock: bool, ctrl: bool, shift: bool) -> u8 {
    let (alone, c, s, both) = key_codes_spec(key, caps_lock, shift);
    if alone == 0 {
        0
    } else if ctrl && shift {
        both
    } else if ctrl {
        c
    } else if shift {
        s
    } else {
        alone
    }
}

/// The key a pasted character gives: its low byte with bit 7 set, a line feed becoming a
/// return; none for a character whose low byte is 128 or more.
pub open spec fn paste_key(c: char) -> Option<u8> {
    let val = ((c as u32) % 256) as u8;
    if val < 128 {
        Some((if val == 0x0a { 0x0du8 } else { val }) | 0x80u8)
    } else {
        None
    }
}

/// What the keyboard holds: the key latch (bit 7 the strobe), the keys waiting behind it and
/// the caps lock.
pub struct KeyboardView {
    pub key: u8,
    pub pressed_keys: Seq<u8>,
    pub caps_lock: bool,
}

/// A key press: it goes to the latch where the strobe is clear, else it waits in line.
pub open spec fn push_key_spec(k: KeyboardView, key: u8) -> KeyboardView {
    if k.key & 128u8 == 0 {
        KeyboardView { key, ..k }
    } else {
        KeyboardView { pressed_keys: k.pressed_keys.push(key), ..k }
    }
}

/// Key presses in order.
pub open spec fn push_keys_spec(k: KeyboardView, keys: Seq<u8>) -> KeyboardView
    decreases keys.len(),
{
    if keys.len() == 0 {
        k
    } else {
        push_key_spec(push_keys_spec(k, keys.drop_last()), keys.last())
    }
}

/// Clearing the strobe: bit 7 of the latch goes; the first waiting key, if any, takes its
/// place.
pub open spec fn clear_strobe_spec(k: KeyboardView) -> KeyboardView {
    if k.pressed_keys.len() > 0 {
        KeyboardView { key: k.pressed_keys[0], pressed_keys: k.pressed_keys.drop_first(), ..k }
    } else {
        KeyboardView { key: k.key & 127u8, ..k }
    }
}

/// What the host's input gave since the last frame: pasted text, the modifiers held and
/// the keys pressed, in order.
pub struct KeyInput {
    pub paste: Option<Vec<char>>,
    pub alt: bool,
    pub ctrl: bool,
    pub shift: bool,
    pub keys: Vec<Key>,
}

/// The keys pasted text gives, in order.
pub open spec fn paste_keys(chars: Seq<char>) -> Seq<u8>
    decreases chars.len(),
{
    if chars.len() == 0 {
        Seq::empty()
    } else {
        let rest = paste_keys(chars.drop_last());
        match paste_key(chars.last()) {
            Some(k) => rest.push(k),
            None => rest,
        }
    }
}

/// The keys that pasted text, if any, gives.
pub open spec fn pasted_keys(paste: Option<Vec<char>>) -> Seq<u8> {
    match paste {
        Some(chars) => paste_keys(chars@),
        None => Seq::empty(),
    }
}

/// The codes that key presses give, in order, leaving out keys the Apple II does not have.
pub open spec fn pressed_codes(keys: Seq<Key>, caps_lock: bool, ctrl: bool, shift: bool) -> Seq<u8>
    decreases keys.len(),
{
    if keys.len() == 0 {
        Seq::empty()
    } else {
        let rest = pressed_codes(keys.drop_last(), caps_lock, ctrl, shift);
        let c = key_code(keys.last(), caps_lock, ctrl, shift);
        if c == 0 {
            rest
        } else {
            rest.push(c)
        }
    }
}

/// The Apple II keyboard: the key latch at 0xc000, the strobe cleared through 0xc010.
pub struct Keyboard {
    key: u8,
    pressed_keys: Vec<u8>,
    caps_lock_enabled: bool,
}

impl View for Keyboard {
    type V = KeyboardView;

    closed spec fn view(&self) -> KeyboardView {
        KeyboardView { key: self.key, pressed_keys: self.pressed_keys@, caps_lock: self.caps_lock_enabled }
    }
}

impl Keyboard {
    /// No key, nothing waiting, caps lock on.
    pub fn new() -> (k: Keyboard)
        ensures
            k@ == (KeyboardView { key: 0, pressed_keys: Seq::empty(), caps_lock: true }),
    {
        Keyboard { key: 0, pressed_keys: Vec::new(), caps_lock_enabled: true }
    }

    /// The codes of a letter key: alone, with control, with shift, with both.
    pub fn alpha_modifier(key_code: u8, caps_lock: bool) -> (r: (u8, u8, u8, u8))
        requires
            0x40 <= key_code <= 0xdf,
        ensures
            r == alpha_codes(key_code, caps_lock),
    {
        (if caps_lock { key_code } else { key_code + 0x20 }, key_code - 0x40, key_code, key_code - 0x40)
    }

    /// The four codes of a key: alone, with control, with shift, with both.
    pub fn key_codes(key: Key, caps_lock: bool, shift: bool) -> (r: (u8, u8, u8, u8))
        ensures
            r == key_codes_spec(key, caps_lock, shift),
    {
        match key {
            Key::A => Self::alpha_modifier(0xc1, caps_lock),
            Key::B => Self::alpha_modifier(0xc2, caps_lock),
            Key::C => Self::alpha_modifier(0xc3, caps_lock),
            Key::D => Self::alpha_modifier(0xc4, caps_lock),
            Key::E => Self::alpha_modifier(0xc5, caps_lock),
            Key::F => Self::alpha_modifier(0xc6, caps_lock),
            Key::G => Self::alpha_modifier(0xc7, caps_lock),
            Key::H => Self::alpha_modifier(0xc8, caps_lock),
            Key::I => Self::alpha_modifier(0xc9, caps_lock),
            Key::J => Self::alpha_modifier(0xca, caps_lock),
            Key::K => Self::alpha_modifier(0xcb, caps_lock),
            Key::L => Self::alpha_modifier(0xcc, caps_lock),
            Key::M => Self::alpha_modifier(0xcd, caps_lock),
            Key::N => Self::alpha_modifier(0xce, caps_lock),
            Key::O => Self::alpha_modifier(0xcf, caps_lock),
            Key::P => Self::alpha_modifier(0xd0, caps_lock),
            Key::Q => Self::alpha_modifier(0xd1, caps_lock),
            Key::R => Self::alpha_modifier(0xd2, caps_lock),
            Key::S => Self::alpha_modifier(0xd3, caps_lock),
            Key::T => Self::alpha_modifier(0xd4, caps_lock),
            Key::U => Self::alpha_modifier(0xd5, caps_lock),
            Key::V => Self::alpha_modifier(0xd6, caps_lock),
            Key::W => Self::alpha_modifier(0xd7, caps_lock),
            Key::X => Self::alpha_modifier(0xd8, caps_lock),
            Key::Y => Self::alpha_modifier(0xd9, caps_lock),
            Key::Z => Self::alpha_modifier(0xda, caps_lock),
            Key::Escape => (0x9b, 0x9b, 0x9b, 0x9b),
            Key::Enter => (0x8d, 0x8d, 0x8d, 0x8d),
            Key::ArrowDown => (0x8a, 0x8a, 0x8a, 0x8a),
            Key::ArrowUp => (0x8b, 0x8b, 0x8b, 0x8b),
            Key::ArrowRight => (0x95, 0x95, 0x95, 0x95),
            Key::ArrowLeft => (0x88, 0x88, 0x88, 0x88),
            Key::Space => (0xa0, 0xa0, 0xa0, 0xa0),
            Key::Num0 => (0xb0, 0xb0, 0xa9, 0xa9),
            Key::Num1 => (0xb1, 0xb1, 0xa1, 0xa1),
            Key::Num2 => (0xb2, 0xb2, 0xc0, 0xc0),
            Key::Num3 => (0xb3, 0xb3, 0xa3, 0xa3),
            Key::Num4 => (0xb4, 0xb4, 0xa4, 0xa4),
            Key::Num5 => (0xb5, 0xb5, 0xa5, 0xa5),
            Key::Num6 => (0xb6, 0xb6, 0xa6, 0xa6),
            Key::Num7 => (0xb7, 0xb7, 0xa6, 0xa6),
            Key::Num8 => (0xb8, 0xb8, 0xaa, 0xaa),
            Key::Num9 => (0xb9, 0xb9, 0xa8, 0xa8),
            Key::Semicolon => (0xbb, 0xbb, 0xab, 0xab),
            Key::Comma => (0xac, 0xac, 0xbc, 0xbc),
            Key::Colon => (0xba, 0xba, 0xba, 0xba),
            Key::Equals => (0xbd, 0xbd, 0xbd, 0xbd),
            Key::Minus => (0xad, 0xad, 0xdf, 0xad),
            Key::Quote => if shift {
                (0xa2, 0xa2, 0xa2, 0xa2)
            } else {
                (0xa7, 0xa7, 0xa7, 0xa7)
            },
            Key::Period => (0xae, 0xae, 0xbe, 0xbe),
            Key::Questionmark => (0xbf, 0xbf, 0xbf, 0xbf),
            Key::Plus => (0xab, 0xab, 0xab, 0xab),
            Key::Slash => (0xaf, 0xaf, 0xbf, 0xbf),
            Key::Exclamationmark => (0xa1, 0xa1, 0xa1, 0xa1),
            Key::Tab => (0x89, 0x89, 0x89, 0x89),
            Key::Delete => (0xff, 0xff, 0xff, 0xff),
            Key::Other => (0, 0, 0, 0),
        }
    }

    /// The key a pasted character gives, if any.
    fn paste_key_of(c: char) -> (r: Option<u8>)
        ensures
            r == paste_key(c),
    {
        let val = ((c as u32) % 256) as u8;
        if val < 128 {
            let v = if val == 0x0a { 0x0d } else { val };
            Some(v | 0x80)
        } else {
            None
        }
    }

    /// Pastes a character: it becomes a key press where its low byte is ASCII.
    pub fn paste_clipbard_char(&mut self, c: char)
        ensures
            final(self)@ == match paste_key(c) {
                Some(k) => push_key_spec(old(self)@, k),
                None => old(self)@,
            },
    {
        match Self::paste_key_of(c) {
            Some(k) => self.push_next_key(k),
            None => {},
        }
    }

    /// Takes in the host's input: pasted text, then the Apple key (game switch 0) from the
    /// Alt modifier, then each key pressed, with the modifiers held.
    pub fn process_keys(&mut self, input: &KeyInput, misc_io: &mut MiscIo)
        ensures
            final(misc_io)@ == old(misc_io)@.update(GAME_SWITCH_APPLE_KEY as int, input.alt),
            final(self)@ == push_keys_spec(
                old(self)@,
                pasted_keys(input.paste) + pressed_codes(input.keys@, old(self)@.caps_lock, input.ctrl, input.shift),
            ),
    {
        let ghost start = self@;
        let ghost pasted = pasted_keys(input.paste);
        match &input.paste {
            Some(chars) => {
                let mut i: usize = 0;
                while i < chars.len()
                    invariant
                        i <= chars@.len(),
                        self@ == push_keys_spec(start, paste_keys(chars@.take(i as int))),
                    decreases chars@.len() - i,
                {
                    let ghost before = self@;
                    self.paste_clipbard_char(chars[i]);
                    proof {
                        let t = chars@.take(i + 1);
                        assert(t.drop_last() =~= chars@.take(i as int));
                        let rest = paste_keys(chars@.take(i as int));
                        match paste_key(chars@[i as int]) {
                            Some(k) => {
                                assert(rest.push(k).drop_last() =~= rest);
                            },
                            None => {},
                        }
                    }
                    i += 1;
                }
                assert(chars@.take(i as int) =~= chars@);
            },
            None => {},
        }
        misc_io.update_game_switch(GAME_SWITCH_APPLE_KEY, input.alt);
        let caps_lock = self.caps_lock_enabled;
        let ghost mid = self@;
        proof {
            lemma_push_keys_caps(start, pasted);
        }
        let mut j: usize = 0;
        while j < input.keys.len()
            invariant
                j <= input.keys@.len(),
                caps_lock == start.caps_lock,
                self@ == push_keys_spec(mid, pressed_codes(input.keys@.take(j as int), caps_lock, input.ctrl, input.shift)),
                mid == push_keys_spec(start, pasted),
            decreases input.keys@.len() - j,
        {
            let key = input.keys[j];
            let (alone, ctrl, shift, both) = Self::key_codes(key, caps_lock, input.shift);
            proof {
                let t = input.keys@.take(j + 1);
                assert(t.drop_last() =~= input.keys@.take(j as int));
            }
            if alone != 0 {
                let code = if input.ctrl && input.shift {
                    both
                } else if input.ctrl {
                    ctrl
                } else if input.shift {
                    shift
                } else {
                    alone
                };
                let ghost rest = pressed_codes(input.keys@.take(j as int), caps_lock, input.ctrl, input.shift);
                assert(code != 0 ==> rest.push(code).drop_last() =~= rest);
                if code != 0 {
                    self.push_next_key(code);
                }
            }
            j += 1;
        }
        assert(input.keys@.take(j as int) =~= input.keys@);
        proof {
            lemma_push_keys_concat(start, pasted, pressed_codes(input.keys@, start.caps_lock, input.ctrl, input.shift));
        }
    }

    /// Turns caps lock on or off.
    pub fn set_caps_lock_enabled(&mut self, enabled: bool)
        ensures
            final(self)@ == (KeyboardView { caps_lock: enabled, ..old(self)@ }),
    {
        self.caps_lock_enabled = enabled;
    }

    /// Whether caps lock is on.
    pub fn caps_lock_enabled(&self) -> (r: bool)
        ensures
            r == self@.caps_lock,
    {
        self.caps_lock_enabled
    }

    /// A key press.
    pub fn push_next_key(&mut self, key: u8)
        ensures
            final(self)@ == push_key_spec(old(self)@, key),
    {
        if self.key & 128 == 0 {
            self.key = key;
        } else {
            self.pressed_keys.push(key);
        }
    }

    /// Clears the strobe; the next waiting key, if any, takes the latch.
    pub fn clear_strobe(&mut self)
        ensures
            final(self)@ == clear_strobe_spec(old(self)@),
    {
        self.key = self.key & 127;
        if self.pressed_keys.len() > 0 {
            let next = self.pressed_keys.remove(0);
            self.key = next;
        }
    }

    /// A read of address `address` (relative to 0xc000): 0 gives the latch, 0x10 clears
    /// the strobe and gives 0, others give 0.
    pub fn read(&mut self, address: usize) -> (r: u8)
        ensures
            address == 0 ==> r == old(self)@.key && final(self)@ == old(self)@,
            address == 0x10 ==> r == 0 && final(self)@ == clear_strobe_spec(old(self)@),
            address != 0 && address != 0x10 ==> r == 0 && final(self)@ == old(self)@,
    {
        if address == 0 {
            self.key
        } else if address == 0x10 {
            self.clear_strobe();
            0
        } else {
            0
        }
    }

    /// A write to address `address` (relative to 0xc000): 0 turns 80STORE off, 0x10 clears
    /// the strobe; the data does not matter.
    pub fn write(&mut self, address: usize, data: u8, soft_switches: &mut SoftSwitches)
        ensures
            address == 0 ==> final(self)@ == old(self)@ && final(soft_switches)@ == old(soft_switches)@.update(
                switch_index(Switch::Eightystore),
                false,
            ),
            address == 0x10 ==> final(self)@ == clear_strobe_spec(old(self)@) && final(soft_switches)@ == old(
                soft_switches,
            )@,
            address != 0 && address != 0x10 ==> final(self)@ == old(self)@ && final(soft_switches)@ == old(
                soft_switches,
            )@,
    {
        if address == 0 {
            soft_switches.set(Switch::Eightystore, false);
        } else if address == 0x10 {
            self.clear_strobe();
        }
    }
}

/// Key presses leave caps lock as it is.
proof fn lemma_push_keys_caps(k: KeyboardView, keys: Seq<u8>)
    ensures
        push_keys_spec(k, keys).caps_lock == k.caps_lock,
    decreases keys.len(),
{
    if keys.len() > 0 {
        lemma_push_keys_caps(k, keys.drop_last());
    }
}

/// Pressing two runs of keys is pressing them one after the other.
proof fn lemma_push_keys_concat(k: KeyboardView, a: Seq<u8>, b: Seq<u8>)
    ensures
        push_keys_spec(push_keys_spec(k, a), b) == push_keys_spec(k, a + b),
    decreases b.len(),
{
    if b.len() > 0 {
        lemma_push_keys_concat(k, a, b.drop_last());
        assert((a + b).drop_last() =~= a + b.drop_last());
    } else {
        assert(a + b =~= a);
    }
}

} // verus!

verus! {

/// While a key waits in the latch (strobe set), key presses queue up behind it in the
/// order they came.
pub proof fn lemma_keys_queue_in_order(k: KeyboardView, keys: Seq<u8>)
    requires
        k.key & 128u8 != 0,
    ensures
        push_keys_spec(k, keys) == (KeyboardView { pressed_keys: k.pressed_keys + keys, ..k }),
    decreases keys.len(),
{
    if keys.len() == 0 {
        assert(k.pressed_keys + keys =~= k.pressed_keys);
    } else {
        lemma_keys_queue_in_order(k, keys.drop_last());
        assert(k.pressed_keys + keys =~= (k.pressed_keys + keys.drop_last()).push(keys.last()));
    }
}

/// Clearing the strobe hands over the keys that wait, in the order they came: after `n`
/// clears the latch holds the `n`-th waiting key.
pub proof fn lemma_clear_strobe_takes_queue_in_order(k: KeyboardView, n: nat)
    requires
        0 < n <= k.pressed_keys.len(),
    ensures
        clear_strobes(k, n).key == k.pressed_keys[n - 1],
        clear_strobes(k, n).pressed_keys == k.pressed_keys.subrange(n as int, k.pressed_keys.len() as int),
    decreases n,
{
    if n > 1 {
        lemma_clear_strobe_takes_queue_in_order(k, (n - 1) as nat);
        let prev = clear_strobes(k, (n - 1) as nat);
        assert(prev.pressed_keys.len() > 0);
        assert(prev.pressed_keys[0] == k.pressed_keys[n - 1]);
        assert(prev.pressed_keys.drop_first() =~= k.pressed_keys.subrange(n as int, k.pressed_keys.len() as int));
        assert(clear_strobes(k, n) == clear_strobe_spec(prev));
    } else {
        assert(clear_strobes(k, 0) == k);
        assert(clear_strobes(k, 1) == clear_strobe_spec(k));
        assert(k.pressed_keys.drop_first() =~= k.pressed_keys.subrange(1, k.pressed_keys.len() as int));
    }
}

/// The keyboard after `n` clears of the strobe.
pub open spec fn clear_strobes(k: KeyboardView, n: nat) -> KeyboardView
    decreases n,
{
    if n == 0 {
        k
    } else {
        clear_strobe_spec(clear_strobes(k, (n - 1) as nat))
    }
}

} // verus!
