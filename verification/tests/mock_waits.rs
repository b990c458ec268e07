use switch_hal::{OutputPin, Pin, State, WaitPoll};

#[test]
fn wait_for_high_while_high() {
    let mut pin = Pin::with_state(State::High);
    let future = pin.wait_for_high();

    assert!(matches!(future.poll(&mut pin), WaitPoll::Ready));
}

#[test]
fn wait_for_high_while_low() {
    let mut pin = Pin::with_state(State::Low);
    let future = pin.wait_for_high();

    assert!(matches!(future.poll(&mut pin), WaitPoll::Pending));
}

#[test]
fn wait_for_low_while_low() {
    let mut pin = Pin::with_state(State::Low);
    let future = pin.wait_for_low();

    assert!(matches!(future.poll(&mut pin), WaitPoll::Ready));
}

#[test]
fn wait_for_low_while_high() {
    let mut pin = Pin::with_state(State::High);
    let future = pin.wait_for_low();

    assert!(matches!(future.poll(&mut pin), WaitPoll::Pending));
}

#[test]
fn wait_for_any_edge_while_high() {
    let mut pin = Pin::with_state(State::High);
    let mut future = pin.wait_for_any_edge().unwrap();

    assert!(matches!(future.poll(&mut pin), WaitPoll::Pending));
}

#[test]
fn wait_for_any_edge_while_low() {
    let mut pin = Pin::with_state(State::Low);
    let mut future = pin.wait_for_any_edge().unwrap();

    assert!(matches!(future.poll(&mut pin), WaitPoll::Pending));
}

#[test]
fn wait_for_high_while_uninitialized_is_pending() {
    let mut pin = Pin::new();
    let future = pin.wait_for_high();

    assert!(matches!(future.poll(&mut pin), WaitPoll::Pending));
}

#[test]
fn wait_for_any_edge_while_uninitialized_fails() {
    let mut pin = Pin::new();
    pin.wait_for_any_edge().expect_err("Expected uninitialized pin");
}

#[test]
fn rising_edge_resolves_only_after_low_then_high() {
    let mut pin = Pin::with_state(State::Low);
    let mut future = pin.wait_for_rising_edge();

    assert!(matches!(future.poll(&mut pin), WaitPoll::Pending));
    pin.set_high().unwrap();
    assert!(matches!(future.poll(&mut pin), WaitPoll::Ready));
}

#[test]
fn rising_edge_while_high_needs_a_genuine_transition() {
    let mut pin = Pin::with_state(State::High);
    let mut future = pin.wait_for_rising_edge();

    assert!(matches!(future.poll(&mut pin), WaitPoll::Pending));
    assert!(matches!(future.poll(&mut pin), WaitPoll::Pending));
    pin.set_low().unwrap();
    assert!(matches!(future.poll(&mut pin), WaitPoll::Pending));
    pin.set_high().unwrap();
    assert!(matches!(future.poll(&mut pin), WaitPoll::Ready));
}

#[test]
fn falling_edge_resolves_only_after_high_then_low() {
    let mut pin = Pin::with_state(State::High);
    let mut future = pin.wait_for_falling_edge();

    assert!(matches!(future.poll(&mut pin), WaitPoll::Pending));
    pin.set_low().unwrap();
    assert!(matches!(future.poll(&mut pin), WaitPoll::Ready));
}

#[test]
fn any_edge_from_high_resolves_on_the_falling_edge() {
    let mut pin = Pin::with_state(State::High);
    let mut future = pin.wait_for_any_edge().unwrap();

    assert!(matches!(future.poll(&mut pin), WaitPoll::Pending));
    pin.set_low().unwrap();
    assert!(matches!(future.poll(&mut pin), WaitPoll::Ready));
}

#[test]
fn any_edge_from_low_resolves_on_the_rising_edge() {
    let mut pin = Pin::with_state(State::Low);
    let mut future = pin.wait_for_any_edge().unwrap();

    assert!(matches!(future.poll(&mut pin), WaitPoll::Pending));
    pin.set_high().unwrap();
    assert!(matches!(future.poll(&mut pin), WaitPoll::Ready));
}
