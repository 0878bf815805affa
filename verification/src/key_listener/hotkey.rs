//! The configured key combination and the grammar of its textual form.
//!
//! A combination is written as names joined by `+`, such as `Ctrl+Shift+D`.
//! White space around a name and the case of ASCII letters do not matter.

use crate::text::{
    ascii_lower, ascii_upper, chars_of, lowered, str_eq, to_ascii_lower, to_ascii_upper,
    trim_range, trimmed,
};
use vstd::prelude::*;

verus! {

/// The key code of either shift key.
pub const VK_SHIFT: u32 = 0x10;

/// The key code of either control key.
pub const VK_CTRL: u32 = 0x11;

/// The key code of either alt key.
pub const VK_ALT: u32 = 0x12;

/// The key code that stands for the system key as a trigger.
pub const VK_WIN: u32 = 0x5B;

/// The key code of the left system key.
pub const VK_LWIN: u32 = 0x5B;

/// The key code of the right system key.
pub const VK_RWIN: u32 = 0x5C;

/// The key code of the left shift key.
pub const VK_LSHIFT: u32 = 0xA0;

/// The key code of the right shift key.
pub const VK_RSHIFT: u32 = 0xA1;

/// The key code of the left control key.
pub const VK_LCTRL: u32 = 0xA2;

/// The key code of the right control key.
pub const VK_RCTRL: u32 = 0xA3;

/// The key code of the left alt key.
pub const VK_LALT: u32 = 0xA4;

/// The key code of the right alt key.
pub const VK_RALT: u32 = 0xA5;

/// The key code of `D`, the trigger when the text names none.
pub const VK_D: u32 = 0x44;

/// The key code under which the `Fn` key is reported where it is the trigger.
pub const FN_KEYCODE: u32 = 63;

/// A key combination: the modifiers that must be down, and the trigger key.
#[derive(Clone, Copy, Debug, PartialEq, Eq, Structural)]
pub struct Hotkey {
    pub win: bool,
    pub shift: bool,
    pub ctrl: bool,
    pub alt: bool,
    pub key_vk: u32,
}

impl Hotkey {
    /// The combination of the `Fn` key alone.
    pub fn fn_key() -> (hk: Hotkey)
        ensures
            hk == (Hotkey {
                win: false,
                shift: false,
                ctrl: false,
                alt: false,
                key_vk: FN_KEYCODE,
            }),
    {
        Hotkey { win: false, shift: false, ctrl: false, alt: false, key_vk: FN_KEYCODE }
    }
}

/// What has been read of a combination: the keys so far, and whether a
/// trigger key was named.
pub struct Partial {
    pub hk: Hotkey,
    pub has_key: bool,
}

/// The combination before any name is read: no modifier, trigger `D`.
pub open spec fn blank() -> Partial {
    Partial {
        hk: Hotkey { win: false, shift: false, ctrl: false, alt: false, key_vk: VK_D },
        has_key: false,
    }
}

/// The position of the first `+` in `s`, or `s.len()` where there is none.
pub open spec fn first_plus(s: Seq<char>) -> nat
    decreases s.len(),
{
    if s.len() == 0 || s[0] == '+' {
        0
    } else {
        1 + first_plus(s.skip(1))
    }
}

/// The effect of one name on what has been read. A name counts after trimming
/// and lowering; an empty or unknown name changes nothing; a single ASCII
/// character names the trigger key by its upper-case code.
pub open spec fn with_name(acc: Partial, name: Seq<char>) -> Partial {
    let t = lowered(trimmed(name));
    if t.len() == 0 {
        acc
    } else if t == "win"@ || t == "meta"@ || t == "super"@ {
        Partial { hk: Hotkey { win: true, ..acc.hk }, ..acc }
    } else if t == "shift"@ {
        Partial { hk: Hotkey { shift: true, ..acc.hk }, ..acc }
    } else if t == "ctrl"@ || t == "control"@ {
        Partial { hk: Hotkey { ctrl: true, ..acc.hk }, ..acc }
    } else if t == "alt"@ {
        Partial { hk: Hotkey { alt: true, ..acc.hk }, ..acc }
    } else if t.len() == 1 && (t[0] as u32) < 128 {
        Partial { hk: Hotkey { key_vk: ascii_upper(t[0]) as u32, ..acc.hk }, has_key: true }
    } else {
        acc
    }
}

/// The names of `s`, separated by `+`, applied to `acc` from left to right.
pub open spec fn with_names(s: Seq<char>, acc: Partial) -> Partial
    decreases s.len(),
{
    let i = first_plus(s) as int;
    if i >= s.len() {
        with_name(acc, s)
    } else {
        with_names(s.skip(i + 1), with_name(acc, s.take(i)))
    }
}

/// One for a modifier that is asked for, nothing for one that is not.
pub open spec fn one_if(asked: bool) -> int {
    if asked {
        1
    } else {
        0
    }
}

/// How many modifiers the combination asks for.
pub open spec fn modifier_count(hk: Hotkey) -> int {
    one_if(hk.win) + one_if(hk.shift) + one_if(hk.ctrl) + one_if(hk.alt)
}

/// A text that names one modifier and no other key makes that modifier the
/// trigger; any other text stands as read.
pub open spec fn settled(p: Partial) -> Hotkey {
    if !p.has_key && modifier_count(p.hk) == 1 {
        if p.hk.win {
            Hotkey { win: false, key_vk: VK_WIN, ..p.hk }
        } else if p.hk.shift {
            Hotkey { shift: false, key_vk: VK_SHIFT, ..p.hk }
        } else if p.hk.ctrl {
            Hotkey { ctrl: false, key_vk: VK_CTRL, ..p.hk }
        } else {
            Hotkey { alt: false, key_vk: VK_ALT, ..p.hk }
        }
    } else {
        p.hk
    }
}

/// The combination that the text `s` stands for.
pub open spec fn parse_hotkey_spec(s: Seq<char>) -> Hotkey {
    settled(with_names(s, blank()))
}

proof fn lemma_first_plus(s: Seq<char>, k: int)
    requires
        0 <= k <= s.len(),
        forall|j: int| 0 <= j < k ==> s[j] != '+',
        k == s.len() || s[k] == '+',
    ensures
        first_plus(s) == k,
    decreases k,
{
    if k > 0 {
        lemma_first_plus(s.skip(1), k - 1);
    }
}

fn count_modifiers(hk: &Hotkey) -> (n: u8)
    ensures
        n == modifier_count(*hk),
{
    let mut n: u8 = 0;
    if hk.win {
        n = n + 1;
    }
    if hk.shift {
        n = n + 1;
    }
    if hk.ctrl {
        n = n + 1;
    }
    if hk.alt {
        n = n + 1;
    }
    n
}

/// The lowered characters of `v[lo..hi]` as a string.
fn lower_string(v: &Vec<char>, lo: usize, hi: usize) -> (s: String)
    requires
        lo <= hi <= v.len(),
    ensures
        s@ == lowered(v@.subrange(lo as int, hi as int)),
{
    let mut s = String::new();
    let mut i: usize = lo;
    while i < hi
        invariant
            lo <= i <= hi <= v.len(),
            s@ == lowered(v@.subrange(lo as int, i as int)),
        decreases hi - i,
    {
        s.push(to_ascii_lower(v[i]));
        i = i + 1;
    }
    s
}

/// Applies the name `v[lo..hi]` to what has been read.
fn apply_name(acc: Partial, v: &Vec<char>, lo: usize, hi: usize) -> (r: Partial)
    requires
        lo <= hi <= v.len(),
    ensures
        r == with_name(acc, v@.subrange(lo as int, hi as int)),
{
    let (a, b) = trim_range(v, lo, hi);
    let name = lower_string(v, a, b);
    let t = name.as_str();
    let mut r = acc;
    if a == b {
        return r;
    }
    if str_eq(t, "win") || str_eq(t, "meta") || str_eq(t, "super") {
        r.hk.win = true;
    } else if str_eq(t, "shift") {
        r.hk.shift = true;
    } else if str_eq(t, "ctrl") || str_eq(t, "control") {
        r.hk.ctrl = true;
    } else if str_eq(t, "alt") {
        r.hk.alt = true;
    } else if b - a == 1 {
        let c = to_ascii_lower(v[a]);
        if (c as u32) < 128 {
            r.hk.key_vk = to_ascii_upper(c) as u32;
            r.has_key = true;
        }
    }
    r
}

/// Reads a key combination from its textual form.
pub fn parse_hotkey(input: &str) -> (hk: Hotkey)
    ensures
        hk == parse_hotkey_spec(input@),
{
    let v = chars_of(input);
    let mut acc = Partial {
        hk: Hotkey { win: false, shift: false, ctrl: false, alt: false, key_vk: VK_D },
        has_key: false,
    };
    let mut start: usize = 0;
    let mut i: usize = 0;
    assert(v@.skip(0) == v@);
    while i < v.len()
        invariant
            start <= i <= v.len(),
            v@ == input@,
            forall|j: int| start <= j < i ==> v@[j] != '+',
            with_names(v@, blank()) == with_names(v@.skip(start as int), acc),
        decreases v.len() - i,
    {
        if v[i] == '+' {
            proof {
                let rest = v@.skip(start as int);
                lemma_first_plus(rest, i - start);
                assert(rest.take(i - start) == v@.subrange(start as int, i as int));
                assert(rest.skip(i - start + 1) == v@.skip(i + 1));
            }
            acc = apply_name(acc, &v, start, i);
            start = i + 1;
        }
        i = i + 1;
    }
    proof {
        let rest = v@.skip(start as int);
        lemma_first_plus(rest, v.len() - start);
    }
    acc = apply_name(acc, &v, start, v.len());
    let mut hk = acc.hk;
    if !acc.has_key {
        if count_modifiers(&hk) == 1 {
            if hk.win {
                hk.win = false;
                hk.key_vk = VK_WIN;
            } else if hk.shift {
                hk.shift = false;
                hk.key_vk = VK_SHIFT;
            } else if hk.ctrl {
                hk.ctrl = false;
                hk.key_vk = VK_CTRL;
            } else if hk.alt {
                hk.alt = false;
                hk.key_vk = VK_ALT;
            }
        }
    }
    hk
}

} // verus!
