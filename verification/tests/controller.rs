use rhai_demo::{
    judge, load_args, load_witness, validate, validate_with_limits, Error, Limits, Verdict, UNIT_MULTIPLIER,
};

const RULE: &str = r#"
    let price_tiers = [50000, 20000, 10000, 5000, 2000, 1000];
    let len = account_chars.len();
    if len > 6 {
        100
    } else {
        price_tiers[len - 1]
    }"#;

#[test]
fn test_customized_rule_tx() {
    let args = "ABC".as_bytes();
    let capacity = 10000 * 100_000_000u64;
    let verdict = validate(args, Some(RULE.as_bytes()), capacity);
    assert_eq!(verdict, Verdict::Accept);
    assert_eq!(verdict.into_result(), Ok(()));
}

#[test]
fn unit_multiplier_value() {
    assert_eq!(UNIT_MULTIPLIER, 100_000_000);
}

#[test]
fn capacity_gate_at_the_boundary() {
    assert_eq!(judge(1000, 1000 * 100_000_000), Verdict::Accept);
    assert_eq!(judge(1000, 1000 * 100_000_000 - 1), Verdict::Reject(Error::InsufficientCapacity));
    assert_eq!(judge(1000, 1000 * 100_000_000 + 1), Verdict::Accept);
    assert_eq!(judge(1000, u64::MAX), Verdict::Accept);
    assert_eq!(judge(1000, 0), Verdict::Reject(Error::InsufficientCapacity));
}

#[test]
fn zero_price_is_always_covered() {
    assert_eq!(judge(0, 0), Verdict::Accept);
    assert_eq!(judge(0, 17), Verdict::Accept);
}

#[test]
fn negative_price_is_a_rule_error() {
    assert_eq!(judge(-1, u64::MAX), Verdict::Reject(Error::RuleError));
    assert_eq!(judge(i64::MIN, 0), Verdict::Reject(Error::RuleError));
    assert_eq!(validate(b"ABC", Some(b"-5"), u64::MAX), Verdict::Reject(Error::RuleError));
}

#[test]
fn requirement_beyond_every_capacity_is_never_covered() {
    assert_eq!(judge(i64::MAX, u64::MAX), Verdict::Reject(Error::InsufficientCapacity));
    // 184_467_440_737 * 100_000_000 is the largest requirement that fits
    assert_eq!(judge(184_467_440_737, u64::MAX), Verdict::Accept);
    assert_eq!(judge(184_467_440_737, 18_446_744_073_700_000_000), Verdict::Accept);
    assert_eq!(judge(184_467_440_737, 18_446_744_073_699_999_999), Verdict::Reject(Error::InsufficientCapacity));
    assert_eq!(judge(184_467_440_738, u64::MAX), Verdict::Reject(Error::InsufficientCapacity));
}

#[test]
fn empty_args_are_a_missing_identifier() {
    assert_eq!(load_args(b""), Err(Error::MissingIdentifier));
    assert_eq!(validate(b"", Some(RULE.as_bytes()), u64::MAX), Verdict::Reject(Error::MissingIdentifier));
    assert_eq!(validate(b"", None, 0), Verdict::Reject(Error::MissingIdentifier));
}

#[test]
fn args_are_decoded_as_utf8() {
    assert_eq!(load_args(b"ABC"), Ok("ABC"));
    assert_eq!(load_args("h\u{e9}llo".as_bytes()), Ok("h\u{e9}llo"));
    assert_eq!(load_args(&[0xff, 0xfe]), Err(Error::EncodingError));
    assert_eq!(load_args(&[0x41, 0x80]), Err(Error::EncodingError));
    assert_eq!(load_args(&[0xc3]), Err(Error::EncodingError));
}

#[test]
fn witness_is_decoded_as_utf8() {
    assert_eq!(load_witness(None), Err(Error::MissingRule));
    assert_eq!(load_witness(Some(b"1 + 1")), Ok("1 + 1"));
    assert_eq!(load_witness(Some(b"")), Ok(""));
    assert_eq!(load_witness(Some(&[0xff])), Err(Error::EncodingError));
}

#[test]
fn non_utf8_bytes_are_an_encoding_error() {
    assert_eq!(validate(&[0xff, 0xfe], Some(RULE.as_bytes()), u64::MAX), Verdict::Reject(Error::EncodingError));
    assert_eq!(validate(b"ABC", Some(&[0xc0, 0x80]), u64::MAX), Verdict::Reject(Error::EncodingError));
    // the arguments are looked at first
    assert_eq!(validate(&[0xff], None, u64::MAX), Verdict::Reject(Error::EncodingError));
}

#[test]
fn absent_witness_lock_is_a_missing_rule() {
    assert_eq!(validate(b"ABC", None, u64::MAX), Verdict::Reject(Error::MissingRule));
}

#[test]
fn unusable_rule_rejects_the_spend() {
    assert_eq!(validate(b"ABC", Some(b"if true { 1 "), u64::MAX), Verdict::Reject(Error::RuleError));
    assert_eq!(validate(b"ABC", Some(b"1 / 0"), u64::MAX), Verdict::Reject(Error::RuleError));
    assert_eq!(validate(b"ABC", Some(b"[1, 2][2]"), u64::MAX), Verdict::Reject(Error::RuleError));
    assert_eq!(validate(b"ABC", Some(b""), u64::MAX), Verdict::Reject(Error::RuleError));
}

#[test]
fn price_follows_the_length_of_the_name() {
    let rule = Some(RULE.as_bytes());
    assert_eq!(validate(b"A", rule, 50000 * 100_000_000), Verdict::Accept);
    assert_eq!(validate(b"A", rule, 50000 * 100_000_000 - 1), Verdict::Reject(Error::InsufficientCapacity));
    assert_eq!(validate(b"ABCDEF", rule, 1000 * 100_000_000), Verdict::Accept);
    assert_eq!(validate(b"ABCDEF", rule, 1000 * 100_000_000 - 1), Verdict::Reject(Error::InsufficientCapacity));
    assert_eq!(validate(b"ABCDEFG", rule, 100 * 100_000_000), Verdict::Accept);
    assert_eq!(validate(b"ABCDEFG", rule, 100 * 100_000_000 - 1), Verdict::Reject(Error::InsufficientCapacity));
}

#[test]
fn limits_reach_the_engine_through_validate() {
    let rule = b"let a = 1; let b = a + 1; let c = b + 1; let d = c + 1; d";
    let tight = Limits::new(2, 32, 1024, 256).unwrap();
    assert_eq!(validate_with_limits(b"ABC", Some(rule), u64::MAX, &tight), Verdict::Reject(Error::RuleError));
    let standard = Limits::standard();
    assert_eq!(validate_with_limits(b"ABC", Some(rule), 4 * 100_000_000, &standard), Verdict::Accept);
    assert_eq!(validate(b"ABC", Some(rule), 4 * 100_000_000), Verdict::Accept);
}

#[test]
fn verdict_as_result() {
    assert!(Verdict::Accept.is_accept());
    assert!(!Verdict::Reject(Error::MissingRule).is_accept());
    assert_eq!(Verdict::Accept.into_result(), Ok(()));
    assert_eq!(Verdict::Reject(Error::InsufficientCapacity).into_result(), Err(Error::InsufficientCapacity));
}
