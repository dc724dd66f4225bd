//! Turning the state of the fn key into start/stop recording events.
use crate::config::HotkeyMode;
use vstd::prelude::*;

verus! {

/// What the hotkey asks of the recorder.
#[derive(Clone, Copy, Debug, PartialEq, Eq, Structural)]
pub enum HotkeyEvent {
    RecordStart,
    RecordStop,
}

/// The key's new remembered state and the event it raises, given whether
/// the fn flag is set now and whether the key was down before: a press
/// starts recording, a release stops it, anything else changes nothing.
pub open spec fn fn_key_step(fn_pressed: bool, was_down: bool) -> (bool, Option<HotkeyEvent>) {
    if fn_pressed && !was_down {
        (true, Some(HotkeyEvent::RecordStart))
    } else if !fn_pressed && was_down {
        (false, Some(HotkeyEvent::RecordStop))
    } else {
        (was_down, None)
    }
}

/// Reacts to one change of the modifier flags: returns whether the fn key
/// is now down, and the event to send, if any.
pub fn fn_key_transition(fn_pressed: bool, was_down: bool) -> (r: (bool, Option<HotkeyEvent>))
    ensures
        r == fn_key_step(fn_pressed, was_down),
{
    if fn_pressed && !was_down {
        (true, Some(HotkeyEvent::RecordStart))
    } else if !fn_pressed && was_down {
        (false, Some(HotkeyEvent::RecordStop))
    } else {
        (was_down, None)
    }
}

/// The remembered key state in toggle mode: whether the key is down, and
/// whether a recording is open.
pub open spec fn toggle_step(fn_pressed: bool, was_down: bool, recording: bool) -> (
    bool,
    bool,
    Option<HotkeyEvent>,
) {
    if fn_pressed && !was_down {
        if recording {
            (true, false, Some(HotkeyEvent::RecordStop))
        } else {
            (true, true, Some(HotkeyEvent::RecordStart))
        }
    } else {
        (fn_pressed, recording, None)
    }
}

/// Reacts to one change of the modifier flags in toggle mode: each press
/// of the key starts a recording when none is open and stops it
/// otherwise; releases change nothing. Returns whether the key is down,
/// whether a recording is open, and the event to send.
pub fn toggle_key_transition(fn_pressed: bool, was_down: bool, recording: bool) -> (r: (
    bool,
    bool,
    Option<HotkeyEvent>,
))
    ensures
        r == toggle_step(fn_pressed, was_down, recording),
{
    if fn_pressed && !was_down {
        if recording {
            (true, false, Some(HotkeyEvent::RecordStop))
        } else {
            (true, true, Some(HotkeyEvent::RecordStart))
        }
    } else {
        (fn_pressed, recording, None)
    }
}

/// One change of the modifier flags in the configured mode, from the
/// remembered state `(key down, recording open)`.
pub open spec fn hotkey_step(mode: HotkeyMode, fn_pressed: bool, state: (bool, bool)) -> (
    (bool, bool),
    Option<HotkeyEvent>,
) {
    match mode {
        HotkeyMode::Hold => {
            let (d, e) = fn_key_step(fn_pressed, state.0);
            ((d, d), e)
        },
        HotkeyMode::Toggle => {
            let (d, r, e) = toggle_step(fn_pressed, state.0, state.1);
            ((d, r), e)
        },
    }
}

/// Reacts to one change of the modifier flags in the configured mode:
/// hold-to-record or press-to-toggle.
pub fn hotkey_transition(mode: HotkeyMode, fn_pressed: bool, state: (bool, bool)) -> (r: (
    (bool, bool),
    Option<HotkeyEvent>,
))
    ensures
        r == hotkey_step(mode, fn_pressed, state),
{
    match mode {
        HotkeyMode::Hold => {
            let (d, e) = fn_key_transition(fn_pressed, state.0);
            ((d, d), e)
        },
        HotkeyMode::Toggle => {
            let (d, r, e) = toggle_key_transition(fn_pressed, state.0, state.1);
            ((d, r), e)
        },
    }
}

/// The remembered state after the observations `flags` in `mode`, starting
/// with the key up and no recording.
pub open spec fn state_after(mode: HotkeyMode, flags: Seq<bool>) -> (bool, bool)
    decreases flags.len(),
{
    if flags.len() == 0 {
        (false, false)
    } else {
        hotkey_step(mode, flags.last(), state_after(mode, flags.drop_last())).0
    }
}

/// The events raised by the observations `flags` in `mode`, starting with
/// the key up and no recording.
pub open spec fn events_in_mode(mode: HotkeyMode, flags: Seq<bool>) -> Seq<HotkeyEvent>
    decreases flags.len(),
{
    if flags.len() == 0 {
        seq![]
    } else {
        let before = events_in_mode(mode, flags.drop_last());
        match hotkey_step(mode, flags.last(), state_after(mode, flags.drop_last())).1 {
            Some(e) => before.push(e),
            None => before,
        }
    }
}

/// Events that start with `RecordStart` and then alternate.
pub open spec fn alternating(events: Seq<HotkeyEvent>) -> bool {
    forall|i: int|
        0 <= i < events.len() ==> #[trigger] events[i] == if i % 2 == 0 {
            HotkeyEvent::RecordStart
        } else {
            HotkeyEvent::RecordStop
        }
}

/// In either hotkey mode, whatever the flag changes, the recorder sees
/// start and stop strictly alternating, beginning with a start, and a
/// recording is open exactly when an odd number of events was sent.
pub proof fn lemma_mode_events_alternate(mode: HotkeyMode, flags: Seq<bool>)
    ensures
        alternating(events_in_mode(mode, flags)),
        state_after(mode, flags).1 == (events_in_mode(mode, flags).len() % 2 == 1),
        mode == HotkeyMode::Hold ==> state_after(mode, flags).0 == state_after(mode, flags).1,
    decreases flags.len(),
{
    if flags.len() > 0 {
        let init = flags.drop_last();
        lemma_mode_events_alternate(mode, init);
        let before = events_in_mode(mode, init);
        let es = events_in_mode(mode, flags);
        assert forall|i: int| 0 <= i < es.len() implies #[trigger] es[i] == if i % 2 == 0 {
            HotkeyEvent::RecordStart
        } else {
            HotkeyEvent::RecordStop
        } by {
        }
    }
}

} // verus!
