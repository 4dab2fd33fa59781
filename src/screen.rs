//! The actuation gate: remembers the last display power state that was
//! requested and suppresses requests that would not change it.

use vstd::prelude::*;

verus! {

/// Power state of the display as tracked by an `ActuationGate`.
#[derive(Debug, Clone, Copy, PartialEq, Eq, Structural)]
pub enum ScreenState {
    On,
    Off,
    Unknown,
}

/// The tracked state that corresponds to a power flag.
pub open spec fn screen_state_of(on: bool) -> ScreenState {
    if on {
        ScreenState::On
    } else {
        ScreenState::Off
    }
}

/// Owner of the last-known display power state.
///
/// The hardware cannot be queried cheaply, so this keeps the state that
/// was last applied and starts from the assumption that the display is on.
#[derive(Debug)]
pub struct ActuationGate {
    on: bool,
}

impl View for ActuationGate {
    type V = bool;

    /// Whether the display is believed to be on.
    closed spec fn view(&self) -> bool {
        self.on
    }
}

impl ActuationGate {
    /// A gate in the default state: the display is assumed to be on.
    pub fn new() -> (r: ActuationGate)
        ensures
            r@ == true,
    {
        ActuationGate { on: true }
    }

    /// A gate that starts from a known power state.
    pub fn with_state(on: bool) -> (r: ActuationGate)
        ensures
            r@ == on,
    {
        ActuationGate { on }
    }

    /// Whether the display is believed to be on.
    pub fn is_on(&self) -> (r: bool)
        ensures
            r == self@,
    {
        self.on
    }
}

/// The tracked display state: `On` or `Off`, never `Unknown`.
pub fn get_display_state(gate: &ActuationGate) -> (r: ScreenState)
    ensures
        r == screen_state_of(gate@),
{
    if gate.on {
        ScreenState::On
    } else {
        ScreenState::Off
    }
}

/// Requests power state `target`. Returns whether the display has to be
/// switched, which is the case exactly when `target` differs from the tracked
/// state; the caller then performs the switch. Either way the tracked state
/// becomes `target`.
pub fn set_display_smart(gate: &mut ActuationGate, target: bool) -> (performed: bool)
    ensures
        performed == (old(gate)@ != target),
        final(gate)@ == target,
{
    let current = get_display_state(gate);
    let wanted = if target {
        ScreenState::On
    } else {
        ScreenState::Off
    };
    match (current, wanted) {
        (ScreenState::On, ScreenState::On) => false,
        (ScreenState::Off, ScreenState::Off) => false,
        _ => {
            gate.on = target;
            true
        },
    }
}

/// Tracked state after requesting each of `targets` in turn, from `on`.
pub open spec fn gate_after(on: bool, targets: Seq<bool>) -> bool
    decreases targets.len(),
{
    if targets.len() == 0 {
        on
    } else {
        gate_after(targets[0], targets.drop_first())
    }
}

/// Number of switches performed when requesting each of `targets` in turn,
/// starting from tracked state `on`.
pub open spec fn switches(on: bool, targets: Seq<bool>) -> nat
    decreases targets.len(),
{
    if targets.len() == 0 {
        0
    } else {
        (if targets[0] != on {
            1nat
        } else {
            0nat
        }) + switches(targets[0], targets.drop_first())
    }
}

/// Requesting the same power state any number of times in a row switches
/// the display at most once, and not at all when it is already in that
/// state.
pub proof fn lemma_repeated_request_switches_at_most_once(on: bool, target: bool, n: nat)
    ensures
        switches(on, Seq::new(n, |i: int| target)) <= 1,
        on == target ==> switches(on, Seq::new(n, |i: int| target)) == 0,
        gate_after(on, Seq::new(n, |i: int| target)) == if n > 0 {
            target
        } else {
            on
        },
    decreases n,
{
    if n > 0 {
        let s = Seq::new(n, |i: int| target);
        assert(s.drop_first() =~= Seq::new((n - 1) as nat, |i: int| target));
        lemma_repeated_request_switches_at_most_once(target, target, (n - 1) as nat);
    }
}

} // verus!
