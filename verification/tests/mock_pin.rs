use switch_hal::{InputPin, OutputPin, Pin, State, StatefulOutputPin};

#[test]
fn state_is_uninitialized() {
    let mut pin = Pin::new();
    assert_eq!(None, pin.state);
    pin.is_low().expect_err("Expected uninitialized pin");
}

#[test]
fn error_when_uninitialized() {
    let mut pin = Pin { state: None };
    pin.is_high().expect_err("Expected uninitialized pin");
}

#[test]
fn returns_true_when_state_is_high() {
    let mut pin = Pin::with_state(State::High);
    assert_eq!(true, pin.is_high().unwrap());
}

#[test]
fn returns_false_when_state_is_low() {
    let mut pin = Pin::with_state(State::Low);
    assert_eq!(false, pin.is_high().unwrap());
}

#[test]
fn returns_false_when_state_is_high() {
    let mut pin = Pin::with_state(State::High);
    assert_eq!(false, pin.is_low().unwrap());
}

#[test]
fn mock_returns_true_when_state_is_high() {
    let mut pin = Pin::with_state(State::Low);
    assert_eq!(true, pin.is_low().unwrap());
}

#[test]
fn set_low() {
    let mut pin = Pin::new();
    pin.set_low().unwrap();

    assert_eq!(true, pin.is_low().unwrap());
}

#[test]
fn set_high() {
    let mut pin = Pin::new();
    pin.set_high().unwrap();

    assert_eq!(true, pin.is_high().unwrap());
}

#[test]
fn mock_error_when_uninitialized() {
    let mut pin = Pin { state: None };
    pin.is_set_high().expect_err("Expected uninitialized pin");
}

#[test]
fn mock_returns_false_when_state_is_high() {
    let mut pin = Pin::with_state(State::High);
    assert_eq!(false, pin.is_set_low().unwrap());
}

#[test]
fn is_set_low_returns_true_when_state_is_low() {
    let mut pin = Pin::with_state(State::Low);
    assert_eq!(true, pin.is_set_low().unwrap());
}

#[test]
fn is_set_high_returns_true_when_state_is_high() {
    let mut pin = Pin::with_state(State::High);
    assert_eq!(true, pin.is_set_high().unwrap());
}

#[test]
fn mock_returns_false_when_state_is_low() {
    let mut pin = Pin::with_state(State::Low);
    assert_eq!(false, pin.is_set_high().unwrap());
}

#[test]
fn default_toggleable_impl() {
    let mut pin = Pin::with_state(State::Low);
    pin.toggle().unwrap();
    assert_eq!(true, pin.is_set_high().unwrap());
}

#[test]
fn default_is_uninitialized() {
    let mut pin = Pin::default();
    assert_eq!(None, pin.state);
    pin.is_high().expect_err("Expected uninitialized pin");
}

#[test]
fn uninitialized_fails_on_every_read() {
    let mut pin = Pin::new();
    pin.is_high().expect_err("Expected uninitialized pin");
    pin.is_low().expect_err("Expected uninitialized pin");
    pin.is_set_high().expect_err("Expected uninitialized pin");
    pin.is_set_low().expect_err("Expected uninitialized pin");
}

#[test]
fn toggle_when_uninitialized_fails_and_sets_nothing() {
    let mut pin = Pin::new();
    pin.toggle().expect_err("Expected uninitialized pin");
    assert_eq!(None, pin.state);
}

#[test]
fn toggle_twice_returns_to_start() {
    let mut low = Pin::with_state(State::Low);
    low.toggle().unwrap();
    low.toggle().unwrap();
    assert_eq!(Some(State::Low), low.state);

    let mut high = Pin::with_state(State::High);
    high.toggle().unwrap();
    high.toggle().unwrap();
    assert_eq!(Some(State::High), high.state);
}
