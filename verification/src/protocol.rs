use vstd::prelude::*;
use crate::led::Led;

verus! {

/// The code broadcast to turn the remote LED on.
pub open spec fn led_on_code() -> Seq<u8> {
    seq![0xBAu8, 0xBEu8, 0xFAu8, 0xCEu8]
}

/// The code broadcast to turn the remote LED off.
pub open spec fn led_off_code() -> Seq<u8> {
    seq![0xDEu8, 0xADu8, 0xBEu8, 0xEFu8]
}

/// Build the on-code as a packet payload.
pub fn make_led_on() -> (p: Vec<u8>)
    ensures
        p@ == led_on_code(),
{
    let mut p: Vec<u8> = Vec::new();
    p.push(0xBA);
    p.push(0xBE);
    p.push(0xFA);
    p.push(0xCE);
    proof {
        assert(p@ =~= led_on_code());
    }
    p
}

/// Build the off-code as a packet payload.
pub fn make_led_off() -> (p: Vec<u8>)
    ensures
        p@ == led_off_code(),
{
    let mut p: Vec<u8> = Vec::new();
    p.push(0xDE);
    p.push(0xAD);
    p.push(0xBE);
    p.push(0xEF);
    proof {
        assert(p@ =~= led_off_code());
    }
    p
}

/// Exact byte-for-byte test of a received payload against the on-code. Any
/// other payload, of any length, is unrecognized.
pub fn is_led_on(payload: &Vec<u8>) -> (r: bool)
    ensures
        r == (payload@ == led_on_code()),
{
    let r = payload.len() == 4 && payload[0] == 0xBA && payload[1] == 0xBE && payload[2] == 0xFA
        && payload[3] == 0xCE;
    proof {
        if r {
            assert(payload@ =~= led_on_code());
        }
    }
    r
}

/// Exact byte-for-byte test of a received payload against the off-code.
pub fn is_led_off(payload: &Vec<u8>) -> (r: bool)
    ensures
        r == (payload@ == led_off_code()),
{
    let r = payload.len() == 4 && payload[0] == 0xDE && payload[1] == 0xAD && payload[2] == 0xBE
        && payload[3] == 0xEF;
    proof {
        if r {
            assert(payload@ =~= led_off_code());
        }
    }
    r
}

/// Result of polling the non-blocking receive operation: the transfer is
/// still running, it completed but failed its CRC check, or it completed with
/// a payload.
pub enum RecvOutcome {
    NotDone,
    CrcFailure,
    Success(Vec<u8>),
}

/// What one iteration of the wait loop settles on.
#[derive(Clone, Copy, PartialEq, Eq, Structural, Debug)]
pub enum WaitOutcome {
    ButtonPushed,
    PacketReceived,
    CrcError,
}

/// What `arbitrate` decides, as a function of what it saw.
pub open spec fn arbitrate_spec(button_pushed: bool, radio: RecvOutcome) -> Option<WaitOutcome> {
    if button_pushed {
        Some(WaitOutcome::ButtonPushed)
    } else {
        match radio {
            RecvOutcome::NotDone => None,
            RecvOutcome::CrcFailure => Some(WaitOutcome::CrcError),
            RecvOutcome::Success(_) => Some(WaitOutcome::PacketReceived),
        }
    }
}

/// One iteration of the wait loop's decision. The local button is checked
/// before the radio, so local intent wins over a concurrently completed
/// receive; an unfinished receive decides nothing and the loop polls again.
pub fn arbitrate(button_pushed: bool, radio: &RecvOutcome) -> (r: Option<WaitOutcome>)
    ensures
        r == arbitrate_spec(button_pushed, *radio),
{
    if button_pushed {
        Some(WaitOutcome::ButtonPushed)
    } else {
        match radio {
            RecvOutcome::NotDone => None,
            RecvOutcome::CrcFailure => Some(WaitOutcome::CrcError),
            RecvOutcome::Success(_) => Some(WaitOutcome::PacketReceived),
        }
    }
}

/// Law (local priority): when a button push and a completed receive are
/// pending in the same iteration, the iteration resolves to the button path,
/// whatever the radio reported; the inbound packet waits for a later
/// iteration.
pub proof fn lemma_button_priority(radio: RecvOutcome)
    ensures
        arbitrate_spec(true, radio) == Some(WaitOutcome::ButtonPushed),
{
}

/// The control loop's protocol states.
#[derive(Clone, Copy, PartialEq, Eq, Structural, Debug)]
pub enum LoopState {
    /// Polling button and radio for the next thing to do.
    Waiting,
    /// The on-code went out; holding until the local button is released.
    AwaitingRelease,
    /// The remote LED was commanded on; listening for the off-code.
    DisplayingOn,
}

/// One observation handed to the control loop: what the wait loop or the
/// blocking receive produced this iteration.
pub enum Input {
    /// A debounced local push is pending.
    ButtonPushed,
    /// The local button was released while holding.
    ButtonReleased,
    /// The local button is still held down.
    ButtonHeld,
    /// A receive completed with this payload.
    Received(Vec<u8>),
    /// A receive completed but failed its CRC check.
    CrcError,
}

/// What the loop orders its collaborators to do, in order.
#[derive(Clone, Copy, PartialEq, Eq, Structural, Debug)]
pub enum Action {
    /// Write the on-code into the packet buffer and send it (blocking).
    SendOn,
    /// Write the off-code into the packet buffer and send it (blocking).
    SendOff,
    /// Hold for one timer period before accepting a release.
    Settle,
    /// Drive the local LED line high.
    LedOn,
    /// Drive the local LED line low.
    LedOff,
    /// Discard every button edge latched during the push/release cycle.
    ClearButtonEvents,
}

/// The transition relation of the control loop: from a state and an
/// observation to the next state and the actions performed, in order.
/// Anything unrecognized — a payload that matches no code, a CRC failure, a
/// button report that the state does not wait for — changes nothing.
pub open spec fn step_spec(s: LoopState, input: Input) -> (LoopState, Seq<Action>) {
    match s {
        LoopState::Waiting => match input {
            Input::ButtonPushed => (
                LoopState::AwaitingRelease,
                seq![Action::SendOn, Action::Settle],
            ),
            Input::Received(p) => if p@ == led_on_code() {
                (LoopState::DisplayingOn, seq![Action::LedOn])
            } else {
                (LoopState::Waiting, Seq::<Action>::empty())
            },
            _ => (LoopState::Waiting, Seq::<Action>::empty()),
        },
        LoopState::AwaitingRelease => match input {
            Input::ButtonReleased => (
                LoopState::Waiting,
                seq![Action::SendOff, Action::ClearButtonEvents],
            ),
            _ => (LoopState::AwaitingRelease, Seq::<Action>::empty()),
        },
        LoopState::DisplayingOn => match input {
            Input::Received(p) => if p@ == led_off_code() {
                (LoopState::Waiting, seq![Action::LedOff])
            } else {
                (LoopState::DisplayingOn, Seq::<Action>::empty())
            },
            _ => (LoopState::DisplayingOn, Seq::<Action>::empty()),
        },
    }
}

/// The event-arbitration and protocol state machine that ties the button
/// monitor and the radio link together.
pub struct ControlLoop {
    pub state: LoopState,
}

impl ControlLoop {
    /// A fresh loop, waiting for its first event.
    pub fn new() -> (c: ControlLoop)
        ensures
            c.state == LoopState::Waiting,
    {
        ControlLoop { state: LoopState::Waiting }
    }

    /// Process one observation: move to the next protocol state and return
    /// the actions the firmware shell must perform, in order.
    pub fn step(&mut self, input: Input) -> (actions: Vec<Action>)
        ensures
            final(self).state == step_spec(old(self).state, input).0,
            actions@ == step_spec(old(self).state, input).1,
    {
        let mut actions: Vec<Action> = Vec::new();
        match self.state {
            LoopState::Waiting => match input {
                Input::ButtonPushed => {
                    actions.push(Action::SendOn);
                    actions.push(Action::Settle);
                    self.state = LoopState::AwaitingRelease;
                    proof {
                        assert(actions@ =~= seq![Action::SendOn, Action::Settle]);
                    }
                },
                Input::Received(p) => {
                    if is_led_on(&p) {
                        actions.push(Action::LedOn);
                        self.state = LoopState::DisplayingOn;
                        proof {
                            assert(actions@ =~= seq![Action::LedOn]);
                        }
                    } else {
                        proof {
                            assert(actions@ =~= Seq::<Action>::empty());
                        }
                    }
                },
                _ => {
                    proof {
                        assert(actions@ =~= Seq::<Action>::empty());
                    }
                },
            },
            LoopState::AwaitingRelease => match input {
                Input::ButtonReleased => {
                    actions.push(Action::SendOff);
                    actions.push(Action::ClearButtonEvents);
                    self.state = LoopState::Waiting;
                    proof {
                        assert(actions@ =~= seq![Action::SendOff, Action::ClearButtonEvents]);
                    }
                },
                _ => {
                    proof {
                        assert(actions@ =~= Seq::<Action>::empty());
                    }
                },
            },
            LoopState::DisplayingOn => match input {
                Input::Received(p) => {
                    if is_led_off(&p) {
                        actions.push(Action::LedOff);
                        self.state = LoopState::Waiting;
                        proof {
                            assert(actions@ =~= seq![Action::LedOff]);
                        }
                    } else {
                        proof {
                            assert(actions@ =~= Seq::<Action>::empty());
                        }
                    }
                },
                _ => {
                    proof {
                        assert(actions@ =~= Seq::<Action>::empty());
                    }
                },
            },
        }
        actions
    }
}

/// The loop run over a whole trace of observations: the state it ends in and
/// every action performed along the way, in order.
pub open spec fn run_spec(s: LoopState, inputs: Seq<Input>) -> (LoopState, Seq<Action>)
    decreases inputs.len(),
{
    if inputs.len() == 0 {
        (s, Seq::<Action>::empty())
    } else {
        let first = step_spec(s, inputs[0]);
        let rest = run_spec(first.0, inputs.skip(1));
        (rest.0, first.1 + rest.1)
    }
}

/// Law (unrecognized payload): a completed receive whose payload is not the
/// on-code leaves a waiting loop waiting and orders nothing; the loop simply
/// starts a fresh receive.
pub proof fn lemma_unrecognized_payload_ignored(p: Vec<u8>)
    requires
        p@ != led_on_code(),
    ensures
        step_spec(LoopState::Waiting, Input::Received(p)).0 == LoopState::Waiting,
        step_spec(LoopState::Waiting, Input::Received(p)).1 == Seq::<Action>::empty(),
{
}

/// Law: a receive that failed its CRC check leaves every state unchanged and
/// orders nothing — it is never escalated and never ends the loop.
pub proof fn lemma_crc_failure_is_noop(s: LoopState)
    ensures
        step_spec(s, Input::CrcError).0 == s,
        step_spec(s, Input::CrcError).1 == Seq::<Action>::empty(),
{
}

/// Law (round trip): a loop waiting for events that receives the on-code and
/// then the off-code commands exactly one LedOn followed by exactly one
/// LedOff, and is waiting again afterwards.
pub proof fn lemma_round_trip(p_on: Vec<u8>, p_off: Vec<u8>)
    requires
        p_on@ == led_on_code(),
        p_off@ == led_off_code(),
    ensures
        run_spec(LoopState::Waiting, seq![Input::Received(p_on), Input::Received(p_off)]).0
            == LoopState::Waiting,
        run_spec(LoopState::Waiting, seq![Input::Received(p_on), Input::Received(p_off)]).1
            == seq![Action::LedOn, Action::LedOff],
{
    reveal_with_fuel(run_spec, 4);
    let inputs = seq![Input::Received(p_on), Input::Received(p_off)];
    assert(inputs.skip(1) =~= seq![Input::Received(p_off)]);
    assert(seq![Input::Received(p_off)].skip(1) =~= Seq::<Input>::empty());
    assert(run_spec(LoopState::Waiting, inputs).1 =~= seq![Action::LedOn, Action::LedOff]);
}

/// A trace of nothing but CRC failures.
pub open spec fn crc_failures(n: nat) -> Seq<Input> {
    Seq::new(n, |i: int| Input::CrcError)
}

/// Law: any number of CRC failures in front of a trace changes neither where
/// the loop ends up nor what it does.
pub proof fn lemma_crc_failures_ignored(s: LoopState, n: nat, rest: Seq<Input>)
    ensures
        run_spec(s, crc_failures(n) + rest).0 == run_spec(s, rest).0,
        run_spec(s, crc_failures(n) + rest).1 == run_spec(s, rest).1,
    decreases n,
{
    if n == 0 {
        assert(crc_failures(0) + rest =~= rest);
    } else {
        let whole = crc_failures(n) + rest;
        assert(whole[0] == Input::CrcError);
        assert(whole.skip(1) =~= crc_failures((n - 1) as nat) + rest);
        lemma_crc_failures_ignored(s, (n - 1) as nat, rest);
        assert(Seq::<Action>::empty() + run_spec(s, rest).1 =~= run_spec(s, rest).1);
    }
}

/// Law (CRC failures are harmless): after any number of injected CRC failures
/// a valid on/off pair still produces exactly one LedOn followed by exactly
/// one LedOff, with nothing done during the failures themselves.
pub proof fn lemma_crc_then_round_trip(n: nat, p_on: Vec<u8>, p_off: Vec<u8>)
    requires
        p_on@ == led_on_code(),
        p_off@ == led_off_code(),
    ensures
        run_spec(
            LoopState::Waiting,
            crc_failures(n) + seq![Input::Received(p_on), Input::Received(p_off)],
        ).0 == LoopState::Waiting,
        run_spec(
            LoopState::Waiting,
            crc_failures(n) + seq![Input::Received(p_on), Input::Received(p_off)],
        ).1 == seq![Action::LedOn, Action::LedOff],
{
    lemma_crc_failures_ignored(
        LoopState::Waiting,
        n,
        seq![Input::Received(p_on), Input::Received(p_off)],
    );
    lemma_round_trip(p_on, p_off);
}

/// The LED line's commanded level after a sequence of actions.
pub open spec fn lit_after(lit: bool, actions: Seq<Action>) -> bool
    decreases actions.len(),
{
    if actions.len() == 0 {
        lit
    } else {
        let next = match actions[0] {
            Action::LedOn => true,
            Action::LedOff => false,
            _ => lit,
        };
        lit_after(next, actions.skip(1))
    }
}

/// Apply the LED commands among a step's actions to the actuator, in order
/// (the radio commands are the shell's to perform).
pub fn apply_led_actions(led: &mut Led, actions: &Vec<Action>)
    ensures
        final(led).lit() == lit_after(old(led).lit(), actions@),
{
    let mut i: usize = 0;
    proof {
        assert(actions@.skip(0) =~= actions@);
    }
    while i < actions.len()
        invariant
            i <= actions.len(),
            lit_after(old(led).lit(), actions@) == lit_after(led.lit(), actions@.skip(i as int)),
        decreases actions.len() - i,
    {
        proof {
            assert(actions@.skip(i as int)[0] == actions@[i as int]);
            assert(actions@.skip(i as int).skip(1) =~= actions@.skip(i as int + 1));
        }
        match actions[i] {
            Action::LedOn => led.on(),
            Action::LedOff => led.off(),
            _ => (),
        }
        i = i + 1;
    }
    proof {
        assert(actions@.skip(i as int) =~= Seq::<Action>::empty());
    }
}

} // verus!
