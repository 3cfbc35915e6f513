use mpris_server::Time;

#[test]
fn valid_signature() {
    assert_eq!(Time::signature(), "x");
}

#[test]
fn zero_is_zero() {
    let time = Time::ZERO();
    assert!(time.is_zero());
    assert_eq!(time.as_micros(), 0);
}

#[test]
fn from_units() {
    assert_eq!(Time::from_secs(5).as_nanos(), 5_000_000_000);
    assert_eq!(Time::from_millis(5).as_nanos(), 5_000_000);
    assert_eq!(Time::from_micros(5).as_nanos(), 5_000);
    assert_eq!(Time::from_nanos(5).as_nanos(), 0);
    assert_eq!(Time::from_nanos(5342).as_nanos(), 5000);
    assert_eq!(Time::from_nanos(-5342).as_micros(), -5);
}

#[test]
fn as_units() {
    assert_eq!(Time::from_micros(5_000_000).as_secs(), 5);
    assert_eq!(Time::from_micros(3).as_secs(), 0);
    assert_eq!(Time::from_micros(-3_500_000).as_secs(), -3);
    assert_eq!(Time::from_micros(5_000_000).as_millis(), 5_000);
    assert_eq!(Time::from_micros(3).as_millis(), 0);
    assert_eq!(Time::from_micros(5_000_000).as_micros(), 5_000_000);
    assert_eq!(Time::from_micros(3).as_micros(), 3);
    assert_eq!(Time::from_micros(5_000_000).as_nanos(), 5_000_000_000);
    assert_eq!(Time::from_micros(3).as_nanos(), 3_000);
}

#[test]
fn secs_round_trip() {
    for s in [-7i64, -1, 0, 1, 42, 9_000_000] {
        assert_eq!(Time::from_secs(s).as_secs(), s);
        assert_eq!(Time::from_millis(s).as_millis(), s);
    }
}

#[test]
fn signs() {
    assert_eq!(Time::ZERO().is_zero(), true);
    assert_eq!(Time::from_micros(1).is_zero(), false);
    assert_eq!(Time::ZERO().is_negative(), false);
    assert_eq!(Time::from_micros(-1).is_negative(), true);
    assert_eq!(Time::from_micros(1).is_negative(), false);
    assert_eq!(Time::ZERO().is_positive(), false);
    assert_eq!(Time::from_micros(1).is_positive(), true);
    assert_eq!(Time::from_micros(-1).is_positive(), false);
}

#[test]
fn abs() {
    assert_eq!(Time::ZERO().abs(), Time::ZERO());
    assert_eq!(Time::from_micros(-1).abs(), Time::from_micros(1));
    assert_eq!(Time::from_micros(1).abs(), Time::from_micros(1));
    assert_eq!(Time::from_micros(-i64::MAX).abs(), Time::MAX());
}

#[test]
fn checked() {
    assert_eq!(
        Time::from_micros(1).checked_add(Time::from_micros(1)),
        Some(Time::from_micros(2))
    );
    assert_eq!(Time::MAX().checked_add(Time::from_micros(1)), None);
    assert_eq!(Time::MIN().checked_add(Time::from_micros(-1)), None);
    assert_eq!(
        Time::from_micros(2).checked_sub(Time::from_micros(1)),
        Some(Time::from_micros(1))
    );
    assert_eq!(Time::MIN().checked_sub(Time::from_micros(1)), None);
    assert_eq!(Time::MAX().checked_sub(Time::from_micros(-1)), None);
}

#[test]
fn saturating() {
    assert_eq!(
        Time::from_micros(1).saturating_add(Time::from_micros(1)),
        Time::from_micros(2)
    );
    assert_eq!(Time::MAX().saturating_add(Time::from_micros(1)), Time::MAX());
    // Any overflow of the sum gives the maximum time, also below the minimum.
    assert_eq!(Time::MIN().saturating_add(Time::from_micros(-1)), Time::MAX());
    assert_eq!(
        Time::from_micros(2).saturating_sub(Time::from_micros(1)),
        Time::from_micros(1)
    );
    assert_eq!(Time::MIN().saturating_sub(Time::from_micros(1)), Time::MIN());
    // Any overflow of the difference gives the minimum time, also above the maximum.
    assert_eq!(Time::MAX().saturating_sub(Time::from_micros(-1)), Time::MIN());
}

#[test]
fn operators() {
    assert_eq!(Time::from_micros(3) + Time::from_micros(4), Time::from_micros(7));
    assert_eq!(Time::from_micros(3) - Time::from_micros(4), Time::from_micros(-1));
    assert_eq!((Time::from_micros(10) + Time::from_micros(5)) - Time::from_micros(5), Time::from_micros(10));
}

#[test]
fn ordering_and_default() {
    assert!(Time::from_micros(-1) < Time::ZERO());
    assert!(Time::MAX() > Time::from_secs(1));
    assert_eq!(Time::default(), Time::ZERO());
}
