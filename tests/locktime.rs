use bp_std::locktime::{InvalidTimelock, LockHeight, LockTimestamp, ParseError, LOCKTIME_THRESHOLD};

#[test]
fn timestamp_boundary() {
    assert!(LockTimestamp::from_unix_timestamp(499_999_999).is_none());
    let t = LockTimestamp::from_unix_timestamp(500_000_000).unwrap();
    assert_eq!(t.into_consensus(), 500_000_000);
    assert_eq!(LOCKTIME_THRESHOLD, 500_000_000);
}

#[test]
fn height_boundary() {
    assert!(LockHeight::from_height(500_000_000).is_none());
    let h = LockHeight::from_height(499_999_999).unwrap();
    assert_eq!(h.into_consensus(), 499_999_999);
    assert_eq!(LockHeight::from_height(0).unwrap(), LockHeight::anytime());
}

#[test]
fn anytime_text() {
    assert_eq!(LockTimestamp::anytime().to_string(), "0");
    assert_eq!(LockHeight::anytime().to_string(), "0");
    assert_eq!("0".parse::<LockTimestamp>().unwrap(), LockTimestamp::anytime());
    assert_eq!("none".parse::<LockTimestamp>().unwrap(), LockTimestamp::anytime());
    assert_eq!("0".parse::<LockHeight>().unwrap(), LockHeight::anytime());
    assert_eq!("NONE".parse::<LockHeight>().unwrap(), LockHeight::anytime());
    assert_eq!(LockTimestamp::anytime().into_consensus(), LockHeight::anytime().into_consensus());
}

#[test]
fn timestamp_round_trip() {
    for t in [500_000_000u32, 600_000_000, 1_700_000_000, u32::MAX] {
        let lock = LockTimestamp::from_unix_timestamp(t).unwrap();
        let text = lock.to_string();
        assert_eq!(text, format!("time({})", t));
        assert_eq!(text.parse::<LockTimestamp>().unwrap(), lock);
    }
}

#[test]
fn height_round_trip() {
    for h in [0u32, 1, 700_000, 499_999_999] {
        let lock = LockHeight::from_height(h).unwrap();
        let text = lock.to_string();
        assert_eq!(text.parse::<LockHeight>().unwrap(), lock);
        assert_eq!(lock.into_consensus(), h);
    }
    assert_eq!(LockHeight::from_height(700_000).unwrap().to_string(), "height(700000)");
}

#[test]
fn parse_examples() {
    let t: LockTimestamp = "time(600000000)".parse().unwrap();
    assert_eq!(t.into_consensus(), 600_000_000);
    let h: LockHeight = "height(700000)".parse().unwrap();
    assert_eq!(h.into_consensus(), 700_000);
    assert_eq!("time(100)".parse::<LockTimestamp>(), Err(ParseError::InvalidTimestamp(100)));
    assert_eq!(
        "garbage".parse::<LockTimestamp>(),
        Err(ParseError::InvalidDescriptor("garbage".to_string()))
    );
    assert_eq!(
        "garbage".parse::<LockHeight>(),
        Err(ParseError::InvalidDescriptor("garbage".to_string()))
    );
}

#[test]
fn parse_other_forms() {
    let t: LockTimestamp = "TIME(600000000)".parse().unwrap();
    assert_eq!(t.into_consensus(), 600_000_000);
    let t: LockTimestamp = "time(+600000000)".parse().unwrap();
    assert_eq!(t.into_consensus(), 600_000_000);
    assert_eq!("time(0)".parse::<LockTimestamp>().unwrap(), LockTimestamp::anytime());
    assert_eq!(
        "Height(500000000)".parse::<LockHeight>(),
        Err(ParseError::InvalidHeight(500_000_000))
    );
    assert_eq!(
        "time(abc)".parse::<LockTimestamp>(),
        Err(ParseError::InvalidInteger("abc".to_string()))
    );
    assert_eq!(
        "time(4294967296)".parse::<LockTimestamp>(),
        Err(ParseError::InvalidInteger("4294967296".to_string()))
    );
    assert_eq!("height()".parse::<LockHeight>(), Err(ParseError::InvalidInteger(String::new())));
    assert_eq!(
        "time(5".parse::<LockTimestamp>(),
        Err(ParseError::InvalidDescriptor("time(5".to_string()))
    );
    assert_eq!(
        "HEIGHT(5)".parse::<LockTimestamp>(),
        Err(ParseError::InvalidDescriptor("height(5)".to_string()))
    );
}

#[test]
fn parse_lowercase_keeps_case() {
    assert_eq!(
        LockTimestamp::parse_lowercase("TIME(600000000)"),
        Err(ParseError::InvalidDescriptor("TIME(600000000)".to_string()))
    );
    assert_eq!(LockHeight::parse_lowercase("height(5)").unwrap().into_consensus(), 5);
}

#[test]
fn consensus_values() {
    assert_eq!(LockTimestamp::from_consensus(0).unwrap(), LockTimestamp::anytime());
    assert_eq!(LockTimestamp::from_consensus(1), Err(InvalidTimelock));
    assert_eq!(LockTimestamp::from_consensus(499_999_999), Err(InvalidTimelock));
    assert_eq!(LockTimestamp::from_consensus(500_000_000).unwrap().into_consensus(), 500_000_000);
    assert_eq!(LockHeight::from_consensus(500_000_000), Err(InvalidTimelock));
    assert_eq!(LockHeight::from_consensus(1).unwrap().into_consensus(), 1);
}

#[test]
fn since_now_is_a_timestamp() {
    let t = LockTimestamp::since_now().unwrap();
    assert!(t.into_consensus() >= LOCKTIME_THRESHOLD);
}

#[test]
fn generic_locktime_conversion() {
    let t = LockTimestamp::from_unix_timestamp(600_000_000).unwrap();
    let lt = t.into_locktime();
    assert_eq!(lt, bp::LockTime::from_consensus_u32(600_000_000));
    assert_eq!(LockTimestamp::from_locktime(lt), Ok(t));
    assert_eq!(LockHeight::from_locktime(lt), Err(InvalidTimelock));
    let h = LockHeight::from_height(700_000).unwrap();
    assert_eq!(h.into_locktime().into_consensus_u32(), 700_000);
    assert_eq!(LockHeight::from_locktime(h.into_locktime()), Ok(h));
    assert_eq!(
        LockTimestamp::from_locktime(bp::LockTime::from_consensus_u32(700_000)),
        Err(InvalidTimelock)
    );
    assert_eq!(
        LockTimestamp::from_locktime(bp::LockTime::from_consensus_u32(0)),
        Ok(LockTimestamp::anytime())
    );
}

#[test]
fn extra_closing_parenthesis_fails() {
    assert_eq!(
        "time(600000000))".parse::<LockTimestamp>(),
        Err(ParseError::InvalidInteger("600000000)".to_string()))
    );
    assert_eq!(
        "height(700000))".parse::<LockHeight>(),
        Err(ParseError::InvalidInteger("700000)".to_string()))
    );
    assert!("time(600000000)))".parse::<LockTimestamp>().is_err());
}

#[test]
fn clock_reading_conversion() {
    assert_eq!(LockTimestamp::from_unix_secs(499_999_999), None);
    assert_eq!(LockTimestamp::from_unix_secs(500_000_000).unwrap().into_consensus(), 500_000_000);
    assert_eq!(LockTimestamp::from_unix_secs(u32::MAX as u64).unwrap().into_consensus(), u32::MAX);
    assert_eq!(LockTimestamp::from_unix_secs(u32::MAX as u64 + 1), None);
}

#[test]
fn defaults_and_u32_conversion() {
    assert_eq!(LockTimestamp::default(), LockTimestamp::anytime());
    assert_eq!(LockHeight::default(), LockHeight::anytime());
    let t = LockTimestamp::from_unix_timestamp(600_000_000).unwrap();
    assert_eq!(u32::from(t), 600_000_000);
    let h = LockHeight::from_height(700_000).unwrap();
    assert_eq!(u32::from(h), 700_000);
    assert_eq!(u32::from(LockTimestamp::default()), 0);
}
