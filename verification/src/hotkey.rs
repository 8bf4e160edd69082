//! The hold-to-record hotkey: one fixed key combination, and the event that
//! tells the interface of each change of its state.

use vstd::prelude::*;

verus! {

/// The key combination that is held to record.
pub const HOLD_TO_RECORD_SHORTCUT: &'static str = "CommandOrControl+Shift+Space";

/// The name of the event that carries the hotkey's state to the interface.
pub const HOTKEY_EVENT: &'static str = "telepathy://hotkey";

/// The state of the key combination as the system reports it.
#[derive(Clone, Copy, Debug, PartialEq, Eq, Structural)]
pub enum HotkeyState {
    Pressed,
    Released,
}

/// What the interface is told of one change.
#[derive(Clone, Copy, Debug)]
pub struct HotkeyEventPayload {
    /// `pressed` or `released`.
    pub state: &'static str,
    /// The key combination.
    pub shortcut: &'static str,
}

/// A payload as a plain value.
pub ghost struct HotkeyEventPayloadView {
    pub state: Seq<char>,
    pub shortcut: Seq<char>,
}

impl View for HotkeyEventPayload {
    type V = HotkeyEventPayloadView;

    open spec fn view(&self) -> HotkeyEventPayloadView {
        HotkeyEventPayloadView { state: self.state@, shortcut: self.shortcut@ }
    }
}

/// The word that the interface reads for a state.
pub open spec fn state_name(state: HotkeyState) -> Seq<char> {
    match state {
        HotkeyState::Pressed => "pressed"@,
        HotkeyState::Released => "released"@,
    }
}

/// The payload for a report of `state`.
pub open spec fn payload_of(state: HotkeyState) -> HotkeyEventPayloadView {
    HotkeyEventPayloadView { state: state_name(state), shortcut: HOLD_TO_RECORD_SHORTCUT@ }
}

/// The payloads for a run of reports: one for each, in their order.
pub open spec fn payloads_of(states: Seq<HotkeyState>) -> Seq<HotkeyEventPayloadView> {
    Seq::new(states.len(), |i: int| payload_of(states[i]))
}

/// Makes the payload for one report of the system. The payload depends on
/// that report alone.
pub fn hotkey_event(state: HotkeyState) -> (payload: HotkeyEventPayload)
    ensures
        payload@ == payload_of(state),
{
    let name = match state {
        HotkeyState::Pressed => "pressed",
        HotkeyState::Released => "released",
    };
    HotkeyEventPayload { state: name, shortcut: HOLD_TO_RECORD_SHORTCUT }
}

/// The payloads as plain values.
pub open spec fn payload_views(events: Seq<HotkeyEventPayload>) -> Seq<HotkeyEventPayloadView> {
    Seq::new(events.len(), |i: int| events[i]@)
}

/// Makes the payloads for a run of reports, one for each and in their order,
/// a repeated state included.
pub fn hotkey_events(states: &Vec<HotkeyState>) -> (events: Vec<HotkeyEventPayload>)
    ensures
        payload_views(events@) == payloads_of(states@),
{
    let mut events: Vec<HotkeyEventPayload> = Vec::new();
    let mut i: usize = 0;
    while i < states.len()
        invariant
            i <= states.len(),
            events.len() == i,
            forall|k: int| 0 <= k < i ==> (#[trigger] events[k])@ == payload_of(states[k]),
        decreases states.len() - i,
    {
        events.push(hotkey_event(states[i]));
        i = i + 1;
    }
    assert(payload_views(events@) =~= payloads_of(states@));
    events
}

/// The listener passes every report on: a run of reports gives as many
/// payloads, the payload number `i` is that of the report number `i` alone,
/// and the two states never share a payload. So a state that the system
/// reports twice is told twice.
pub proof fn lemma_one_event_per_report(states: Seq<HotkeyState>)
    ensures
        payloads_of(states).len() == states.len(),
        forall|i: int|
            0 <= i < states.len() ==> #[trigger] payloads_of(states)[i] == payload_of(states[i]),
        payload_of(HotkeyState::Pressed) != payload_of(HotkeyState::Released),
{
    reveal_strlit("pressed");
    reveal_strlit("released");
    assert("pressed"@.len() != "released"@.len());
}

/// Reports that arrive one after another are told as they would be alone:
/// nothing is held back, merged or reordered.
pub proof fn lemma_reports_are_independent(earlier: Seq<HotkeyState>, later: Seq<HotkeyState>)
    ensures
        payloads_of(earlier + later) == payloads_of(earlier) + payloads_of(later),
{
    assert(payloads_of(earlier + later) =~= payloads_of(earlier) + payloads_of(later));
}

} // verus!
