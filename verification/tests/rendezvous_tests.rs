use harmonizer::rendezvous::Rendezvous;

#[test]
fn one_delivery_is_taken_exactly_once() {
    let mut r = Rendezvous::new();
    assert!(r.deliver(String::from("{\"data\":\"x\"}")));
    assert_eq!(r.take().as_deref(), Some("{\"data\":\"x\"}"));
    assert!(r.take().is_none());
}

#[test]
fn a_second_delivery_is_refused() {
    let mut r = Rendezvous::new();
    assert!(r.deliver(String::from("first")));
    assert!(!r.deliver(String::from("second")));
    assert_eq!(r.take().as_deref(), Some("first"));
}

#[test]
fn a_take_without_a_delivery_finds_nothing() {
    let mut r = Rendezvous::new();
    assert!(r.take().is_none());
}

#[test]
fn a_delivery_after_the_take_is_refused() {
    let mut r = Rendezvous::new();
    assert!(r.take().is_none());
    assert!(!r.deliver(String::from("late")));
    assert!(r.take().is_none());
}
