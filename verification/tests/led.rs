//! Tests of the LED blink timer: phase sequencing on the wrapping
//! clock, zero-duration phases, and the pulse/set equivalence.

use gps_freak::led::LedTimer;

#[test]
fn test_fast() {
    let mut lt = LedTimer::new(10, 10);

    let mut exp = lt;

    assert_eq!(lt.set(false, 0), None);
    assert_eq!(lt, exp);
    lt.isr(1);
    assert_eq!(lt, exp);

    assert_ne!(lt.set(true, 10), None);
    exp.led = true;
    exp.next = true;
    exp.target = true;
    exp.expiry = Some(20);
    assert_eq!(lt, exp);

    assert_eq!(lt.set(true, 11), None);
    assert_eq!(lt, exp);

    assert_eq!(lt.set(false, 12), None);
    exp.next = false;
    exp.target = false;
    assert_eq!(lt, exp);

    assert_eq!(lt.set(true, 13), None);
    exp.target = true;
    assert_eq!(lt, exp);

    assert_eq!(lt.set(false, 14), None);
    exp.target = false;
    assert_eq!(lt, exp);

    assert_eq!(lt.set(true, 15), None);
    exp.target = true;
    assert_eq!(lt, exp);

    lt.isr(20);
    exp.led = exp.next;
    exp.next = exp.target;
    exp.expiry = Some(30);
    assert_eq!(lt, exp);

    assert_eq!(lt.set(false, 21), None);
    exp.target = false;
    assert_eq!(lt, exp);

    assert_eq!(lt.set(true, 22), None);
    exp.target = true;
    assert_eq!(lt, exp);

    lt.isr(29);
    assert_eq!(lt, exp);

    lt.isr(30);
    exp.led = exp.next;
    exp.next = exp.target;
    exp.expiry = Some(40);
    assert_eq!(lt, exp);

    lt.isr(39);
    assert_eq!(lt, exp);

    lt.isr(40);
    exp.led = exp.next;
    exp.next = exp.target;
    exp.expiry = None;
    assert_eq!(lt, exp);
    lt.isr(41);
    assert_eq!(lt, exp);
}

#[test]
fn test_zero() {
    let mut lt = LedTimer::new(10, 0);
    let mut exp = lt;
    lt.set(false, 0);
    assert_eq!(lt, exp);

    lt.set(true, 10);
    exp.led = true;
    exp.next = true;
    exp.target = true;
    exp.expiry = Some(20);
    assert_eq!(lt, exp);

    lt.set(true, 11);
    assert_eq!(lt, exp);

    lt.set(false, 12);
    exp.next = false;
    exp.target = false;
    assert_eq!(lt, exp);

    lt.set(true, 13);
    exp.next = true;
    exp.target = true;
    assert_eq!(lt, exp);

    lt.set(false, 14);
    exp.next = false;
    exp.target = false;
    assert_eq!(lt, exp);

    lt.isr(19);
    assert_eq!(lt, exp);

    lt.isr(20);
    exp.led = false;
    exp.expiry = None;
    assert_eq!(lt, exp);
    lt.isr(21);
    assert_eq!(lt, exp);
}

fn test_pulse1(on: i16, off: i16) {
    for led in [false, true] {
        for next in [false, true] {
            for target in [false, true] {
                for expiry in [None, Some(10)] {
                    if expiry != None && on == 0 && off == 0 {
                        continue;
                    }
                    let mut l = LedTimer::new(on, off);
                    l.led = led;
                    l.next = next;
                    l.target = target;
                    l.expiry = expiry;
                    for request in [false, true] {
                        let (mut r, mut p) = (l, l);
                        r.set(request, 5);
                        r.set(!request, 5);
                        p.pulse(request, 5);
                        assert_eq!(r, p, "{l:?} {request}");
                    }
                }
            }
        }
    }
}

#[test]
fn test_pulse() {
    test_pulse1(0, 0);
    test_pulse1(0, 10);
    test_pulse1(10, 0);
    test_pulse1(10, 10);
}
