//! Classification of raw key events into tap, hold and double-tap intents.
//!
//! The detector is a state machine over the watched keys. It is driven by two
//! kinds of input: a key going down or up ([`handle_event`]), and the hold timer
//! of a press running out ([`hold_timer_fired`]). It never reads a clock: every
//! instant is handed in, in nanoseconds of one monotonic clock.

use super::hotkey::{
    Hotkey, VK_ALT, VK_CTRL, VK_LALT, VK_LCTRL, VK_LSHIFT, VK_LWIN, VK_RALT, VK_RCTRL, VK_RSHIFT,
    VK_RWIN, VK_SHIFT, VK_WIN,
};
use crate::config::ThresholdsConfig;
use vstd::prelude::*;

verus! {

/// The message code of a key going down.
pub const WM_KEYDOWN: u32 = 0x0100;

/// The message code of a key going up.
pub const WM_KEYUP: u32 = 0x0101;

/// The message code of a key going down while `Alt` is held.
pub const WM_SYSKEYDOWN: u32 = 0x0104;

/// The message code of a key going up while `Alt` is held.
pub const WM_SYSKEYUP: u32 = 0x0105;

/// What the user asks of the recorder by a gesture.
#[derive(Clone, Copy, Debug, PartialEq, Eq, Structural)]
pub enum Intent {
    /// Start a recording, or stop the one that runs.
    StartOrToggle,
    /// Stop the recording that a hold started.
    ForceStop,
}

/// How long a press counts as a tap, and how close two taps make a double tap.
#[derive(Clone, Copy, Debug, PartialEq, Eq, Structural)]
pub struct Thresholds {
    pub hold_ms: u64,
    pub double_click_ms: u64,
}

/// The trigger key: up, or down since an instant, with the hold intent given or not.
#[derive(Clone, Copy, Debug, PartialEq, Eq, Structural)]
pub enum KeyPhase {
    Released,
    Pressed { since: u64, hold_fired: bool },
}

/// The watched keys: which modifiers are down, the trigger key, and the
/// instant of the last tap that is still waiting for a second one.
#[derive(Clone, Copy, Debug, PartialEq, Eq, Structural)]
pub struct GestureState {
    pub pressed_win: bool,
    pub pressed_shift: bool,
    pub pressed_ctrl: bool,
    pub pressed_alt: bool,
    pub trigger: KeyPhase,
    pub last_tap_at: Option<u64>,
}

/// What a key event leads to: an intent, if any; whether the event is kept
/// from other applications; and, where the event starts a press, the
/// milliseconds after which the hold timer of that press is to run out.
#[derive(Clone, Copy, Debug, PartialEq, Eq, Structural)]
pub struct KeyOutcome {
    pub intent: Option<Intent>,
    pub swallow: bool,
    pub hold_timer_ms: Option<u64>,
}

/// The outcome of an event that the detector lets pass without a word.
pub open spec fn pass() -> KeyOutcome {
    KeyOutcome { intent: None, swallow: false, hold_timer_ms: None }
}

/// Whether the key `vk` acts as the trigger `key_vk`. A modifier as trigger
/// is met by its left and right keys alike.
pub open spec fn key_matches_spec(key_vk: u32, vk: u32) -> bool {
    if key_vk == VK_SHIFT {
        vk == VK_SHIFT || vk == VK_LSHIFT || vk == VK_RSHIFT
    } else if key_vk == VK_CTRL {
        vk == VK_CTRL || vk == VK_LCTRL || vk == VK_RCTRL
    } else if key_vk == VK_ALT {
        vk == VK_ALT || vk == VK_LALT || vk == VK_RALT
    } else if key_vk == VK_WIN {
        vk == VK_LWIN || vk == VK_RWIN
    } else {
        key_vk == vk
    }
}

/// Whether every modifier that the combination asks for is down.
pub open spec fn modifiers_match_spec(hk: Hotkey, st: GestureState) -> bool {
    &&& hk.win ==> st.pressed_win
    &&& hk.shift ==> st.pressed_shift
    &&& hk.ctrl ==> st.pressed_ctrl
    &&& hk.alt ==> st.pressed_alt
}

/// The state once the event of key `vk` is noted on the modifiers.
pub open spec fn note_modifier(st: GestureState, vk: u32, is_down: bool) -> GestureState {
    if vk == VK_LWIN || vk == VK_RWIN {
        GestureState { pressed_win: is_down, ..st }
    } else if vk == VK_SHIFT || vk == VK_LSHIFT || vk == VK_RSHIFT {
        GestureState { pressed_shift: is_down, ..st }
    } else if vk == VK_CTRL || vk == VK_LCTRL || vk == VK_RCTRL {
        GestureState { pressed_ctrl: is_down, ..st }
    } else if vk == VK_ALT || vk == VK_LALT || vk == VK_RALT {
        GestureState { pressed_alt: is_down, ..st }
    } else {
        st
    }
}

/// Whether less than `ms` milliseconds lie between `since` and `now`. An
/// instant that lies after `now` counts as no time at all.
pub open spec fn within_ms(now: u64, since: u64, ms: u64) -> bool {
    (if now >= since { now - since } else { 0 }) < ms * 1_000_000
}

/// The next state and the outcome of one key event.
///
/// - An event of another key than the trigger only updates the modifiers.
/// - The trigger going down, while it is up and the asked modifiers are down,
///   starts a press and asks for its hold timer, to run out after `hold_ms`.
/// - The trigger going up after the hold intent was given yields
///   [`Intent::ForceStop`].
/// - The trigger going up before `hold_ms` is a tap. A tap less than
///   `double_click_ms` after a remembered tap yields [`Intent::StartOrToggle`]
///   and forgets the tap; any other tap is remembered.
/// - An event is swallowed exactly when it yields an intent on key-up.
pub open spec fn handle_event_spec(
    st: GestureState,
    hk: Hotkey,
    th: Thresholds,
    vk: u32,
    is_down: bool,
    now: u64,
) -> (GestureState, KeyOutcome) {
    let m = note_modifier(st, vk, is_down);
    if !key_matches_spec(hk.key_vk, vk) {
        (m, pass())
    } else if is_down {
        if m.trigger is Released && modifiers_match_spec(hk, m) {
            (
                GestureState { trigger: KeyPhase::Pressed { since: now, hold_fired: false }, ..m },
                KeyOutcome { intent: None, swallow: false, hold_timer_ms: Some(th.hold_ms) },
            )
        } else {
            (m, pass())
        }
    } else {
        match m.trigger {
            KeyPhase::Released => (m, pass()),
            KeyPhase::Pressed { since, hold_fired } => {
                let up = GestureState { trigger: KeyPhase::Released, ..m };
                if hold_fired {
                    (
                        up,
                        KeyOutcome {
                            intent: Some(Intent::ForceStop),
                            swallow: true,
                            hold_timer_ms: None,
                        },
                    )
                } else if !within_ms(now, since, th.hold_ms) {
                    (up, pass())
                } else if up.last_tap_at is Some && within_ms(
                    now,
                    up.last_tap_at->0,
                    th.double_click_ms,
                ) {
                    (
                        GestureState { last_tap_at: None, ..up },
                        KeyOutcome {
                            intent: Some(Intent::StartOrToggle),
                            swallow: true,
                            hold_timer_ms: None,
                        },
                    )
                } else {
                    (GestureState { last_tap_at: Some(now), ..up }, pass())
                }
            },
        }
    }
}

/// The next state and the intent when the hold timer of the press that began
/// at `pressed_at` runs out: [`Intent::StartOrToggle`] if that press still
/// lasts and has not given it yet, nothing otherwise.
pub open spec fn hold_timer_fired_spec(st: GestureState, pressed_at: u64) -> (
    GestureState,
    Option<Intent>,
) {
    match st.trigger {
        KeyPhase::Pressed { since, hold_fired } if since == pressed_at && !hold_fired => (
            GestureState { trigger: KeyPhase::Pressed { since, hold_fired: true }, ..st },
            Some(Intent::StartOrToggle),
        ),
        _ => (st, None),
    }
}

/// The direction of a keyboard message: `Some(true)` for a key going down,
/// `Some(false)` for a key going up, `None` for any other message.
pub fn key_transition(msg: u32) -> (r: Option<bool>)
    ensures
        r == (if msg == WM_KEYDOWN || msg == WM_SYSKEYDOWN {
            Some(true)
        } else if msg == WM_KEYUP || msg == WM_SYSKEYUP {
            Some(false)
        } else {
            None
        }),
{
    if msg == WM_KEYDOWN || msg == WM_SYSKEYDOWN {
        Some(true)
    } else if msg == WM_KEYUP || msg == WM_SYSKEYUP {
        Some(false)
    } else {
        None
    }
}

/// Whether every modifier that the combination asks for is down.
pub fn modifiers_match(hk: &Hotkey, st: &GestureState) -> (r: bool)
    ensures
        r == modifiers_match_spec(*hk, *st),
{
    (!hk.win || st.pressed_win) && (!hk.shift || st.pressed_shift) && (!hk.ctrl || st.pressed_ctrl)
        && (!hk.alt || st.pressed_alt)
}

/// Whether the key `vk` acts as the trigger `key_vk`.
pub fn key_matches(key_vk: u32, vk: u32) -> (r: bool)
    ensures
        r == key_matches_spec(key_vk, vk),
{
    if key_vk == VK_SHIFT {
        vk == VK_SHIFT || vk == VK_LSHIFT || vk == VK_RSHIFT
    } else if key_vk == VK_CTRL {
        vk == VK_CTRL || vk == VK_LCTRL || vk == VK_RCTRL
    } else if key_vk == VK_ALT {
        vk == VK_ALT || vk == VK_LALT || vk == VK_RALT
    } else if key_vk == VK_WIN {
        vk == VK_LWIN || vk == VK_RWIN
    } else {
        key_vk == vk
    }
}

fn is_within_ms(now: u64, since: u64, ms: u64) -> (r: bool)
    ensures
        r == within_ms(now, since, ms),
{
    let elapsed: u64 = if now >= since {
        now - since
    } else {
        0
    };
    (elapsed as u128) < (ms as u128) * 1_000_000u128
}

impl Thresholds {
    /// The thresholds that the settings give.
    pub fn from_config(cfg: &ThresholdsConfig) -> (th: Thresholds)
        ensures
            th == (Thresholds { hold_ms: cfg.hold_ms, double_click_ms: cfg.double_click_ms }),
    {
        Thresholds { hold_ms: cfg.hold_ms, double_click_ms: cfg.double_click_ms }
    }
}

impl GestureState {
    /// The state before any event: every key up, no tap remembered.
    pub fn new() -> (st: Self)
        ensures
            st == (GestureState {
                pressed_win: false,
                pressed_shift: false,
                pressed_ctrl: false,
                pressed_alt: false,
                trigger: KeyPhase::Released,
                last_tap_at: None,
            }),
    {
        GestureState {
            pressed_win: false,
            pressed_shift: false,
            pressed_ctrl: false,
            pressed_alt: false,
            trigger: KeyPhase::Released,
            last_tap_at: None,
        }
    }
}

/// Takes one key event: key `vk` went down or up at the instant `now`.
pub fn handle_event(
    st: &mut GestureState,
    hk: &Hotkey,
    th: &Thresholds,
    vk: u32,
    is_down: bool,
    now: u64,
) -> (out: KeyOutcome)
    ensures
        (*final(st), out) == handle_event_spec(*old(st), *hk, *th, vk, is_down, now),
{
    if vk == VK_LWIN || vk == VK_RWIN {
        st.pressed_win = is_down;
    } else if vk == VK_SHIFT || vk == VK_LSHIFT || vk == VK_RSHIFT {
        st.pressed_shift = is_down;
    } else if vk == VK_CTRL || vk == VK_LCTRL || vk == VK_RCTRL {
        st.pressed_ctrl = is_down;
    } else if vk == VK_ALT || vk == VK_LALT || vk == VK_RALT {
        st.pressed_alt = is_down;
    }
    let mut out = KeyOutcome { intent: None, swallow: false, hold_timer_ms: None };
    if !key_matches(hk.key_vk, vk) {
        return out;
    }
    match st.trigger {
        KeyPhase::Released => {
            if is_down && modifiers_match(hk, st) {
                st.trigger = KeyPhase::Pressed { since: now, hold_fired: false };
                out.hold_timer_ms = Some(th.hold_ms);
            }
        },
        KeyPhase::Pressed { since, hold_fired } => {
            if !is_down {
                st.trigger = KeyPhase::Released;
                if hold_fired {
                    out.intent = Some(Intent::ForceStop);
                    out.swallow = true;
                } else if is_within_ms(now, since, th.hold_ms) {
                    let double = match st.last_tap_at {
                        Some(t) => is_within_ms(now, t, th.double_click_ms),
                        None => false,
                    };
                    if double {
                        st.last_tap_at = None;
                        out.intent = Some(Intent::StartOrToggle);
                        out.swallow = true;
                    } else {
                        st.last_tap_at = Some(now);
                    }
                }
            }
        },
    }
    out
}

/// Takes the running out of the hold timer that was started for the press at
/// `pressed_at`.
pub fn hold_timer_fired(st: &mut GestureState, pressed_at: u64) -> (intent: Option<Intent>)
    ensures
        (*final(st), intent) == hold_timer_fired_spec(*old(st), pressed_at),
{
    match st.trigger {
        KeyPhase::Pressed { since, hold_fired } => {
            if since == pressed_at && !hold_fired {
                st.trigger = KeyPhase::Pressed { since, hold_fired: true };
                Some(Intent::StartOrToggle)
            } else {
                None
            }
        },
        KeyPhase::Released => None,
    }
}

/// Two taps in a row give one intent. With the trigger up and the asked
/// modifiers down at each press, a tap (down at `t0`, up at `t1`) that is no
/// second tap itself, followed by a tap (down at `t2`, up at `t3`) that ends
/// less than `double_click_ms` after the first: of the four events only the
/// last yields an intent, [`Intent::StartOrToggle`], and the tap memory is
/// empty after it. The hold timers of both presses, running out after their
/// releases, yield nothing. A third tap (down at `t4`, up at `t5`) then
/// yields no intent and is remembered as a first tap.
pub proof fn law_double_tap(
    st: GestureState,
    hk: Hotkey,
    th: Thresholds,
    vk: u32,
    t0: u64,
    t1: u64,
    t2: u64,
    t3: u64,
    t4: u64,
    t5: u64,
)
    requires
        key_matches_spec(hk.key_vk, vk),
        st.trigger is Released,
        modifiers_match_spec(hk, note_modifier(st, vk, true)),
        within_ms(t1, t0, th.hold_ms),
        within_ms(t3, t2, th.hold_ms),
        within_ms(t5, t4, th.hold_ms),
        within_ms(t3, t1, th.double_click_ms),
        st.last_tap_at is Some ==> !within_ms(t1, st.last_tap_at->0, th.double_click_ms),
    ensures
        ({
            let (s1, o1) = handle_event_spec(st, hk, th, vk, true, t0);
            let (s2, o2) = handle_event_spec(s1, hk, th, vk, false, t1);
            let (s3, o3) = handle_event_spec(s2, hk, th, vk, true, t2);
            let (s4, o4) = handle_event_spec(s3, hk, th, vk, false, t3);
            let (s5, o5) = handle_event_spec(s4, hk, th, vk, true, t4);
            let (s6, o6) = handle_event_spec(s5, hk, th, vk, false, t5);
            &&& o1.intent is None
            &&& o2.intent is None
            &&& s2.last_tap_at == Some(t1)
            &&& o3.intent is None
            &&& o4.intent == Some(Intent::StartOrToggle)
            &&& o4.swallow
            &&& s4.trigger is Released
            &&& s4.last_tap_at is None
            &&& hold_timer_fired_spec(s2, t0) == (s2, None::<Intent>)
            &&& hold_timer_fired_spec(s4, t0) == (s4, None::<Intent>)
            &&& hold_timer_fired_spec(s4, t2) == (s4, None::<Intent>)
            &&& o5.intent is None
            &&& o6.intent is None
            &&& s6.last_tap_at == Some(t5)
        }),
{
}

/// A hold gives one start and one stop. With the trigger up and the asked
/// modifiers down, a press at `t0` asks for a hold timer and yields no intent;
/// the timer of that press yields [`Intent::StartOrToggle`] once and nothing
/// when it is taken again; the release, at whatever instant `t1`, yields
/// [`Intent::ForceStop`], is swallowed, and leaves the tap memory as it was.
pub proof fn law_hold(st: GestureState, hk: Hotkey, th: Thresholds, vk: u32, t0: u64, t1: u64)
    requires
        key_matches_spec(hk.key_vk, vk),
        st.trigger is Released,
        modifiers_match_spec(hk, note_modifier(st, vk, true)),
    ensures
        ({
            let (s1, o1) = handle_event_spec(st, hk, th, vk, true, t0);
            let (s2, i2) = hold_timer_fired_spec(s1, t0);
            let (s3, i3) = hold_timer_fired_spec(s2, t0);
            let (s4, o4) = handle_event_spec(s3, hk, th, vk, false, t1);
            &&& o1.intent is None
            &&& o1.hold_timer_ms == Some(th.hold_ms)
            &&& i2 == Some(Intent::StartOrToggle)
            &&& i3 is None
            &&& s3 == s2
            &&& o4.intent == Some(Intent::ForceStop)
            &&& o4.swallow
            &&& s4.trigger is Released
            &&& s4.last_tap_at == st.last_tap_at
        }),
{
}

/// No press without the modifiers: while a modifier that the combination
/// asks for is up, the trigger going down yields nothing, asks for no timer
/// and leaves the trigger as it was.
pub proof fn law_press_needs_modifiers(
    st: GestureState,
    hk: Hotkey,
    th: Thresholds,
    vk: u32,
    now: u64,
)
    requires
        key_matches_spec(hk.key_vk, vk),
        !modifiers_match_spec(hk, note_modifier(st, vk, true)),
    ensures
        handle_event_spec(st, hk, th, vk, true, now).1 == pass(),
        handle_event_spec(st, hk, th, vk, true, now).0.trigger == st.trigger,
        handle_event_spec(st, hk, th, vk, true, now).0.last_tap_at == st.last_tap_at,
{
}

/// A timer that outlives its press does nothing: when the trigger is up, or
/// down since another instant than `pressed_at`, the timer of the press at
/// `pressed_at` yields no intent and changes nothing.
pub proof fn law_stale_timer(st: GestureState, pressed_at: u64)
    requires
        st.trigger matches KeyPhase::Pressed { since, .. } ==> since != pressed_at,
    ensures
        hold_timer_fired_spec(st, pressed_at) == (st, None::<Intent>),
{
}

/// Events of other keys than the trigger yield nothing and leave the trigger
/// and the tap memory alone.
pub proof fn law_other_keys_pass(
    st: GestureState,
    hk: Hotkey,
    th: Thresholds,
    vk: u32,
    is_down: bool,
    now: u64,
)
    requires
        !key_matches_spec(hk.key_vk, vk),
    ensures
        handle_event_spec(st, hk, th, vk, is_down, now).1 == pass(),
        handle_event_spec(st, hk, th, vk, is_down, now).0.trigger == st.trigger,
        handle_event_spec(st, hk, th, vk, is_down, now).0.last_tap_at == st.last_tap_at,
{
}

} // verus!
