//! Digital-button input: per-button edge detection with debounce.
//!
//! Each physical button is watched by one task that waits for a falling
//! edge, reports the press, sits out a fixed debounce interval to absorb
//! contact bounce, then waits for the rising edge and reports the release
//! the same way. The waiting happens outside the library; the decisions
//! live here as a small state machine that consumes pin observations and
//! says what to notify, what to show, and what to wait for next.

use vstd::prelude::*;

verus! {

/// Attribute handle of the button-A value.
pub const BUTTON_A_HANDLE: u16 = 1;

/// Attribute handle of the button-B value.
pub const BUTTON_B_HANDLE: u16 = 2;

/// Attribute handle of the button-C value.
pub const BUTTON_C_HANDLE: u16 = 3;

/// Attribute handle of the button-D value.
pub const BUTTON_D_HANDLE: u16 = 4;

/// Attribute handle of the button-E value.
pub const BUTTON_E_HANDLE: u16 = 5;

/// Attribute handle of the button-F value.
pub const BUTTON_F_HANDLE: u16 = 6;

/// Milliseconds a button task sits out after reporting a transition.
pub const DEBOUNCE_MS: u64 = 50;

/// Milliseconds the button label stays on the display after a press.
pub const LABEL_DISPLAY_MS: u64 = 200;

/// The schema entries for the six digital buttons: each button's value
/// is readable and notifiable under its own stable handle.
pub struct ButtonService {
    pub button_a: u16,
    pub button_b: u16,
    pub button_c: u16,
    pub button_d: u16,
    pub button_e: u16,
    pub button_f: u16,
}

impl ButtonService {
    /// The button handles are pairwise distinct.
    pub open spec fn wf(&self) -> bool {
        &&& self.button_a == BUTTON_A_HANDLE
        &&& self.button_b == BUTTON_B_HANDLE
        &&& self.button_c == BUTTON_C_HANDLE
        &&& self.button_d == BUTTON_D_HANDLE
        &&& self.button_e == BUTTON_E_HANDLE
        &&& self.button_f == BUTTON_F_HANDLE
    }

    /// The fixed button attribute catalog.
    pub fn new() -> (s: Self)
        ensures
            s.wf(),
    {
        ButtonService {
            button_a: BUTTON_A_HANDLE,
            button_b: BUTTON_B_HANDLE,
            button_c: BUTTON_C_HANDLE,
            button_d: BUTTON_D_HANDLE,
            button_e: BUTTON_E_HANDLE,
            button_f: BUTTON_F_HANDLE,
        }
    }
}

/// What a button task observed at its current suspension point.
#[derive(Clone, Copy, PartialEq, Eq, Structural, Debug)]
pub enum PinEvent {
    /// The pin reads low (the button is held down).
    Low,
    /// The pin reads high (the button is up).
    High,
    /// The fixed debounce interval has elapsed.
    DebounceElapsed,
}

/// What a button task should suspend on next.
#[derive(Clone, Copy, PartialEq, Eq, Structural, Debug)]
pub enum WaitRequest {
    /// Wait for the pin to read low.
    ForLow,
    /// Wait for the pin to read high.
    ForHigh,
    /// Wait out the debounce interval.
    ForDebounce,
}

/// Where one button stands in its press/release cycle.
#[derive(Clone, Copy, PartialEq, Eq, Structural, Debug)]
pub enum DebouncePhase {
    /// Released and stable: waiting for a falling edge.
    AwaitPress,
    /// Pressed and just reported: sitting out the debounce interval.
    SettlePress,
    /// Pressed and stable: waiting for a rising edge.
    AwaitRelease,
    /// Released and just reported: sitting out the debounce interval.
    SettleRelease,
}

/// Edge detector for one digital input. It emits at most one state-change
/// notification per physical transition and none at all while a debounce
/// interval is running.
pub struct Debouncer {
    pub phase: DebouncePhase,
}

/// What one observation asks the surrounding task to do.
pub struct DebounceStep {
    /// `Some(level)` when the stable logical level changed and the peer
    /// is owed a notification; `None` otherwise.
    pub notify: Option<bool>,
    /// Whether to flash the button's label on the display (presses only).
    pub show_label: bool,
}

/// The stable logical level that a phase stands for.
pub open spec fn phase_pressed(phase: DebouncePhase) -> bool {
    match phase {
        DebouncePhase::AwaitPress => false,
        DebouncePhase::SettlePress => true,
        DebouncePhase::AwaitRelease => true,
        DebouncePhase::SettleRelease => false,
    }
}

/// The phase after one observation.
pub open spec fn spec_next_phase(phase: DebouncePhase, ev: PinEvent) -> DebouncePhase {
    match (phase, ev) {
        (DebouncePhase::AwaitPress, PinEvent::Low) => DebouncePhase::SettlePress,
        (DebouncePhase::SettlePress, PinEvent::DebounceElapsed) => DebouncePhase::AwaitRelease,
        (DebouncePhase::AwaitRelease, PinEvent::High) => DebouncePhase::SettleRelease,
        (DebouncePhase::SettleRelease, PinEvent::DebounceElapsed) => DebouncePhase::AwaitPress,
        (p, _) => p,
    }
}

/// The notification one observation is owed: the new level on a falling
/// edge while awaiting a press and on a rising edge while awaiting a
/// release, and nothing otherwise.
pub open spec fn spec_notify(phase: DebouncePhase, ev: PinEvent) -> Option<bool> {
    match (phase, ev) {
        (DebouncePhase::AwaitPress, PinEvent::Low) => Some(true),
        (DebouncePhase::AwaitRelease, PinEvent::High) => Some(false),
        (_, _) => None,
    }
}

impl Debouncer {
    /// A fresh detector: released and stable.
    pub fn new() -> (d: Self)
        ensures
            d.phase == DebouncePhase::AwaitPress,
    {
        Debouncer { phase: DebouncePhase::AwaitPress }
    }

    /// The suspension point the task should sit on in this phase.
    pub fn wait_request(&self) -> (w: WaitRequest)
        ensures
            w == (match self.phase {
                DebouncePhase::AwaitPress => WaitRequest::ForLow,
                DebouncePhase::SettlePress => WaitRequest::ForDebounce,
                DebouncePhase::AwaitRelease => WaitRequest::ForHigh,
                DebouncePhase::SettleRelease => WaitRequest::ForDebounce,
            }),
    {
        match self.phase {
            DebouncePhase::AwaitPress => WaitRequest::ForLow,
            DebouncePhase::SettlePress => WaitRequest::ForDebounce,
            DebouncePhase::AwaitRelease => WaitRequest::ForHigh,
            DebouncePhase::SettleRelease => WaitRequest::ForDebounce,
        }
    }

    /// Consume one observation. A notification is emitted exactly on a
    /// stable-level change, it carries the new level, and within a
    /// debounce interval (the settle phases) nothing is emitted at all.
    pub fn step(&mut self, ev: PinEvent) -> (r: DebounceStep)
        ensures
            final(self).phase == spec_next_phase(old(self).phase, ev),
            r.notify == spec_notify(old(self).phase, ev),
            r.show_label == (r.notify == Some(true)),
            r.notify is Some ==> r.notify->0 == !phase_pressed(old(self).phase)
                && phase_pressed(final(self).phase) == r.notify->0,
            r.notify is None ==> phase_pressed(final(self).phase) == phase_pressed(old(self).phase),
    {
        match (self.phase, ev) {
            (DebouncePhase::AwaitPress, PinEvent::Low) => {
                self.phase = DebouncePhase::SettlePress;
                DebounceStep { notify: Some(true), show_label: true }
            }
            (DebouncePhase::SettlePress, PinEvent::DebounceElapsed) => {
                self.phase = DebouncePhase::AwaitRelease;
                DebounceStep { notify: None, show_label: false }
            }
            (DebouncePhase::AwaitRelease, PinEvent::High) => {
                self.phase = DebouncePhase::SettleRelease;
                DebounceStep { notify: Some(false), show_label: false }
            }
            (DebouncePhase::SettleRelease, PinEvent::DebounceElapsed) => {
                self.phase = DebouncePhase::AwaitPress;
                DebounceStep { notify: None, show_label: false }
            }
            (_, _) => DebounceStep { notify: None, show_label: false },
        }
    }
}

/// The notifications a detector emits over a whole observation sequence.
pub open spec fn debounce_emissions(phase: DebouncePhase, events: Seq<PinEvent>) -> Seq<bool>
    decreases events.len(),
{
    if events.len() == 0 {
        Seq::empty()
    } else {
        let rest = debounce_emissions(spec_next_phase(phase, events[0]), events.skip(1));
        match spec_notify(phase, events[0]) {
            Some(v) => seq![v] + rest,
            None => rest,
        }
    }
}

/// The phase a detector reaches after a whole observation sequence.
pub open spec fn phase_after(phase: DebouncePhase, events: Seq<PinEvent>) -> DebouncePhase
    decreases events.len(),
{
    if events.len() == 0 {
        phase
    } else {
        phase_after(spec_next_phase(phase, events[0]), events.skip(1))
    }
}

impl Debouncer {
    /// Consume a whole script of observations and collect every level
    /// notified along the way: exactly the emission sequence the
    /// alternation and suppression laws speak about.
    pub fn run_events(&mut self, events: &Vec<PinEvent>) -> (emitted: Vec<bool>)
        ensures
            emitted@ == debounce_emissions(old(self).phase, events@),
            final(self).phase == phase_after(old(self).phase, events@),
    {
        let ghost all = events@;
        let ghost start = self.phase;
        let mut emitted: Vec<bool> = Vec::new();
        let mut i: usize = 0;
        proof {
            assert(all.skip(0) =~= all);
            assert(emitted@ + debounce_emissions(start, all) =~= debounce_emissions(start, all));
        }
        while i < events.len()
            invariant
                i <= events@.len(),
                events@ == all,
                emitted@ + debounce_emissions(self.phase, all.skip(i as int))
                    == debounce_emissions(start, all),
                phase_after(self.phase, all.skip(i as int)) == phase_after(start, all),
            decreases events@.len() - i,
        {
            let step = self.step(events[i]);
            proof {
                assert(all.skip(i as int)[0] == all[i as int]);
                assert(all.skip(i as int).skip(1) =~= all.skip(i as int + 1));
            }
            match step.notify {
                Some(v) => {
                    emitted.push(v);
                    assert(emitted@ + debounce_emissions(self.phase, all.skip(i as int + 1))
                        =~= debounce_emissions(start, all));
                },
                None => {},
            }
            i = i + 1;
        }
        assert(all.skip(events@.len() as int) =~= Seq::<PinEvent>::empty());
        assert(emitted@ =~= debounce_emissions(start, all));
        emitted
    }
}

/// Emitted levels strictly alternate: starting from any phase, the
/// emissions over any observation sequence are `!p, p, !p, ...` where
/// `p` is the stable level of the starting phase. In particular no two
/// back-to-back notifications carry the same value.
pub proof fn lemma_debounce_alternation(phase: DebouncePhase, events: Seq<PinEvent>)
    ensures
        forall|i: int| 0 <= i < debounce_emissions(phase, events).len() ==>
            debounce_emissions(phase, events)[i]
                == (if i % 2 == 0 { !phase_pressed(phase) } else { phase_pressed(phase) }),
        forall|i: int| 0 <= i < debounce_emissions(phase, events).len() - 1 ==>
            debounce_emissions(phase, events)[i + 1] != #[trigger] debounce_emissions(phase, events)[i],
    decreases events.len(),
{
    let e = debounce_emissions(phase, events);
    if events.len() > 0 {
        let next = spec_next_phase(phase, events[0]);
        let rest = debounce_emissions(next, events.skip(1));
        lemma_debounce_alternation(next, events.skip(1));
        match spec_notify(phase, events[0]) {
            Some(v) => {
                assert(v == !phase_pressed(phase));
                assert(phase_pressed(next) == v);
                assert(e == seq![v] + rest);
                assert forall|i: int| 0 <= i < e.len() implies e[i]
                    == (if i % 2 == 0 { !phase_pressed(phase) } else { phase_pressed(phase) }) by {
                    if i > 0 {
                        assert(e[i] == rest[i - 1]);
                        assert(rest[i - 1] == (if (i - 1) % 2 == 0 {
                            !phase_pressed(next)
                        } else {
                            phase_pressed(next)
                        }));
                    }
                }
            }
            None => {
                assert(phase_pressed(next) == phase_pressed(phase));
                assert(e == rest);
            }
        }
    }
    assert forall|i: int| 0 <= i < e.len() - 1 implies e[i + 1] != #[trigger] e[i] by {
        assert((i + 1) % 2 != i % 2);
    }
}

/// Within a debounce interval nothing is emitted: in a settle phase, any
/// number of bounces (pin observations without the interval elapsing)
/// produce no notification.
pub proof fn lemma_debounce_window_suppression(phase: DebouncePhase, events: Seq<PinEvent>)
    requires
        phase == DebouncePhase::SettlePress || phase == DebouncePhase::SettleRelease,
        forall|i: int| 0 <= i < events.len() ==> events[i] != PinEvent::DebounceElapsed,
    ensures
        debounce_emissions(phase, events) == Seq::<bool>::empty(),
    decreases events.len(),
{
    if events.len() > 0 {
        lemma_debounce_window_suppression(phase, events.skip(1));
    }
}

/// A press followed by any amount of bounce inside the debounce window
/// yields exactly one notification, carrying `true`.
pub proof fn lemma_press_bounces_once(bounces: Seq<PinEvent>)
    requires
        forall|i: int| 0 <= i < bounces.len() ==> bounces[i] != PinEvent::DebounceElapsed,
    ensures
        debounce_emissions(DebouncePhase::AwaitPress, seq![PinEvent::Low] + bounces)
            == seq![true],
{
    let events = seq![PinEvent::Low] + bounces;
    assert(events.skip(1) =~= bounces);
    lemma_debounce_window_suppression(DebouncePhase::SettlePress, bounces);
    assert(debounce_emissions(DebouncePhase::AwaitPress, events)
        =~= seq![true]);
}

/// A notification owed to the peer: the attribute handle it addresses
/// and the value it carries.
#[derive(Clone, Copy, PartialEq, Eq, Structural, Debug)]
pub struct Notification {
    pub handle: u16,
    pub value: bool,
}

/// What one button observation asks the surrounding task to do, with the
/// notification already addressed to the button's attribute handle.
pub struct ButtonStep {
    /// The notification to push, if the stable level changed.
    pub notify: Option<Notification>,
    /// The label to flash on the display, on a press.
    pub show: Option<char>,
}

/// One physical button: its label, the attribute handle its value is
/// published under, and its debounce state. The pin itself is driven by
/// the surrounding task; exactly one task owns a button at a time.
pub struct GamepadButton {
    /// Identifying label, shown on the display on a press.
    pub name: char,
    /// The handle of the button's value attribute.
    pub ble_handle: u16,
    /// The edge-detection state.
    pub debounce: Debouncer,
}

impl GamepadButton {
    /// Create a new button with the given label and attribute handle.
    pub fn new(name: char, ble_handle: u16) -> (b: Self)
        ensures
            b.name == name,
            b.ble_handle == ble_handle,
            b.debounce.phase == DebouncePhase::AwaitPress,
    {
        Self { name, ble_handle, debounce: Debouncer::new() }
    }

    /// Consume one pin observation for this button: the debouncer decides,
    /// and any notification is addressed to this button's handle.
    pub fn on_event(&mut self, ev: PinEvent) -> (r: ButtonStep)
        ensures
            final(self).name == old(self).name,
            final(self).ble_handle == old(self).ble_handle,
            final(self).debounce.phase == spec_next_phase(old(self).debounce.phase, ev),
            r.notify matches Some(n) ==> n.handle == old(self).ble_handle
                && Some(n.value) == spec_notify(old(self).debounce.phase, ev),
            r.notify is Some <==> spec_notify(old(self).debounce.phase, ev) is Some,
            r.show == (if spec_notify(old(self).debounce.phase, ev) == Some(true) {
                Some(old(self).name)
            } else {
                None::<char>
            }),
    {
        let step = self.debounce.step(ev);
        let notify = match step.notify {
            Some(value) => Some(Notification { handle: self.ble_handle, value }),
            None => None,
        };
        let show = if step.show_label {
            Some(self.name)
        } else {
            None
        };
        ButtonStep { notify, show }
    }
}

/// All six buttons of the device, each bound to its attribute handle.
/// The set is created once at startup and reused across sessions; the
/// debounce state deliberately survives a disconnect, so a reconnecting
/// peer sees the last-known levels until the next physical transition.
pub struct GamepadInputs {
    pub a: GamepadButton,
    pub b: GamepadButton,
    pub c: GamepadButton,
    pub d: GamepadButton,
    pub e: GamepadButton,
    pub f: GamepadButton,
}

impl GamepadInputs {
    /// Create the six buttons, labelled A through F, each bound to its
    /// schema handle and starting released and stable.
    pub fn new(schema: &ButtonService) -> (g: Self)
        ensures
            g.a.name == 'A' && g.a.ble_handle == schema.button_a,
            g.b.name == 'B' && g.b.ble_handle == schema.button_b,
            g.c.name == 'C' && g.c.ble_handle == schema.button_c,
            g.d.name == 'D' && g.d.ble_handle == schema.button_d,
            g.e.name == 'E' && g.e.ble_handle == schema.button_e,
            g.f.name == 'F' && g.f.ble_handle == schema.button_f,
            g.a.debounce.phase == DebouncePhase::AwaitPress,
            g.b.debounce.phase == DebouncePhase::AwaitPress,
            g.c.debounce.phase == DebouncePhase::AwaitPress,
            g.d.debounce.phase == DebouncePhase::AwaitPress,
            g.e.debounce.phase == DebouncePhase::AwaitPress,
            g.f.debounce.phase == DebouncePhase::AwaitPress,
    {
        Self {
            a: GamepadButton::new('A', schema.button_a),
            b: GamepadButton::new('B', schema.button_b),
            c: GamepadButton::new('C', schema.button_c),
            d: GamepadButton::new('D', schema.button_d),
            e: GamepadButton::new('E', schema.button_e),
            f: GamepadButton::new('F', schema.button_f),
        }
    }
}

} // verus!
