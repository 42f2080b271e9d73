use remote_blinky::led::Led;
use remote_blinky::protocol::{
    apply_led_actions, arbitrate, is_led_off, is_led_on, make_led_off, make_led_on, Action,
    ControlLoop, Input, LoopState, RecvOutcome, WaitOutcome,
};

#[test]
fn codes_are_exact() {
    assert_eq!(make_led_on(), vec![0xBA, 0xBE, 0xFA, 0xCE]);
    assert_eq!(make_led_off(), vec![0xDE, 0xAD, 0xBE, 0xEF]);
    assert!(is_led_on(&make_led_on()));
    assert!(is_led_off(&make_led_off()));
    assert!(!is_led_on(&make_led_off()));
    assert!(!is_led_off(&make_led_on()));
    // A truncated or extended payload is unrecognized.
    assert!(!is_led_on(&vec![0xBA, 0xBE, 0xFA]));
    assert!(!is_led_on(&vec![0xBA, 0xBE, 0xFA, 0xCE, 0x00]));
    assert!(!is_led_on(&vec![]));
}

#[test]
fn receiver_round_trip_one_on_one_off() {
    let mut led = Led::new();
    let mut cl = ControlLoop::new();

    let acts_on = cl.step(Input::Received(make_led_on()));
    assert_eq!(acts_on, vec![Action::LedOn]);
    assert_eq!(cl.state, LoopState::DisplayingOn);
    apply_led_actions(&mut led, &acts_on);
    assert!(led.is_lit());

    let acts_off = cl.step(Input::Received(make_led_off()));
    assert_eq!(acts_off, vec![Action::LedOff]);
    assert_eq!(cl.state, LoopState::Waiting);
    apply_led_actions(&mut led, &acts_off);
    assert!(!led.is_lit());
}

#[test]
fn unrecognized_payload_changes_nothing() {
    // An all-zero payload: no LED change, the loop keeps waiting.
    let mut led = Led::new();
    let mut cl = ControlLoop::new();
    let acts = cl.step(Input::Received(vec![0x00, 0x00, 0x00, 0x00]));
    assert!(acts.is_empty());
    assert_eq!(cl.state, LoopState::Waiting);
    apply_led_actions(&mut led, &acts);
    assert!(!led.is_lit());
}

#[test]
fn off_code_while_waiting_changes_nothing() {
    // Only the on-code opens the displaying path.
    let mut cl = ControlLoop::new();
    let acts = cl.step(Input::Received(make_led_off()));
    assert!(acts.is_empty());
    assert_eq!(cl.state, LoopState::Waiting);
}

#[test]
fn crc_failures_never_disturb_the_protocol() {
    let mut led = Led::new();
    let mut cl = ControlLoop::new();

    for _ in 0..25 {
        let acts = cl.step(Input::CrcError);
        assert!(acts.is_empty());
        assert_eq!(cl.state, LoopState::Waiting);
    }

    // A valid pair still produces the correct on/off sequence afterwards,
    // with failures injected in the middle as well.
    let acts_on = cl.step(Input::Received(make_led_on()));
    apply_led_actions(&mut led, &acts_on);
    assert!(led.is_lit());
    assert_eq!(cl.state, LoopState::DisplayingOn);

    for _ in 0..25 {
        let acts = cl.step(Input::CrcError);
        assert!(acts.is_empty());
        assert_eq!(cl.state, LoopState::DisplayingOn);
        assert!(led.is_lit());
    }

    let acts_off = cl.step(Input::Received(make_led_off()));
    assert_eq!(acts_off, vec![Action::LedOff]);
    apply_led_actions(&mut led, &acts_off);
    assert!(!led.is_lit());
    assert_eq!(cl.state, LoopState::Waiting);
}

#[test]
fn sender_push_release_cycle() {
    let mut cl = ControlLoop::new();

    let acts = cl.step(Input::ButtonPushed);
    assert_eq!(acts, vec![Action::SendOn, Action::Settle]);
    assert_eq!(cl.state, LoopState::AwaitingRelease);

    // Holding the button orders nothing.
    for _ in 0..10 {
        let held = cl.step(Input::ButtonHeld);
        assert!(held.is_empty());
        assert_eq!(cl.state, LoopState::AwaitingRelease);
    }

    let acts = cl.step(Input::ButtonReleased);
    assert_eq!(acts, vec![Action::SendOff, Action::ClearButtonEvents]);
    assert_eq!(cl.state, LoopState::Waiting);
}

#[test]
fn button_wins_over_completed_receive() {
    // Both a push and a completed receive are pending in one iteration: the
    // iteration resolves to the button path, whatever the radio holds.
    assert_eq!(
        arbitrate(true, &RecvOutcome::Success(make_led_on())),
        Some(WaitOutcome::ButtonPushed)
    );
    assert_eq!(arbitrate(true, &RecvOutcome::CrcFailure), Some(WaitOutcome::ButtonPushed));
    assert_eq!(arbitrate(true, &RecvOutcome::NotDone), Some(WaitOutcome::ButtonPushed));

    // Without local intent the radio decides; an unfinished receive decides
    // nothing.
    assert_eq!(
        arbitrate(false, &RecvOutcome::Success(make_led_on())),
        Some(WaitOutcome::PacketReceived)
    );
    assert_eq!(arbitrate(false, &RecvOutcome::CrcFailure), Some(WaitOutcome::CrcError));
    assert_eq!(arbitrate(false, &RecvOutcome::NotDone), None);
}

#[test]
fn priority_scenario_button_first_packet_later() {
    // The pushed button is handled this iteration: the loop transmits and the
    // LED stays under local control; the inbound on-code is only processed on
    // a later iteration, after the cycle completes.
    let mut led = Led::new();
    let mut cl = ControlLoop::new();

    let acts = cl.step(Input::ButtonPushed);
    assert_eq!(acts, vec![Action::SendOn, Action::Settle]);
    apply_led_actions(&mut led, &acts);
    assert!(!led.is_lit());

    cl.step(Input::ButtonReleased);
    assert_eq!(cl.state, LoopState::Waiting);

    // Now the still-pending packet is seen.
    let acts = cl.step(Input::Received(make_led_on()));
    assert_eq!(acts, vec![Action::LedOn]);
    apply_led_actions(&mut led, &acts);
    assert!(led.is_lit());
}

#[test]
fn led_actuator_follows_commands() {
    let mut led = Led::new();
    assert!(!led.is_lit());
    led.on();
    assert!(led.is_lit());
    led.off();
    assert!(!led.is_lit());
    // Radio-only actions leave the line alone.
    apply_led_actions(&mut led, &vec![Action::SendOn, Action::Settle]);
    assert!(!led.is_lit());
    apply_led_actions(&mut led, &vec![Action::LedOn, Action::SendOff]);
    assert!(led.is_lit());
}
