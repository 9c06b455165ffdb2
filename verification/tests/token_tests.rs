use simplestclaw::token::{clock_reading, generate_token, reading_from, token_from_clock};

#[test]
fn token_of_the_zero_reading() {
    assert_eq!(token_from_clock(0, 0), "sclw-00");
}

#[test]
fn token_is_prefix_then_seconds_then_nanoseconds_in_hex() {
    assert_eq!(token_from_clock(1_700_000_000, 123_456_789), "sclw-6553f10075bcd15");
    assert_eq!(token_from_clock(255, 16), "sclw-ff10");
    assert_eq!(
        token_from_clock(u64::MAX, 999_999_999),
        "sclw-ffffffffffffffff3b9ac9ff"
    );
}

#[test]
fn token_agrees_with_the_standard_formatter() {
    let readings: Vec<(u64, u32)> = vec![
        (0, 0),
        (0, 1),
        (1, 0),
        (1_700_000_000, 0),
        (1_700_000_000, 999_999_999),
        (4_294_967_295, 500),
        (4_294_967_296, 500),
    ];
    for (secs, nanos) in readings {
        assert_eq!(
            token_from_clock(secs, nanos),
            format!("sclw-{:x}{:x}", secs, nanos)
        );
    }
}

#[test]
fn a_clock_without_a_time_reads_as_zero() {
    assert_eq!(reading_from(None), (0, 0));
    assert_eq!(token_from_clock(reading_from(None).0, reading_from(None).1), "sclw-00");
}

#[test]
fn a_time_since_the_epoch_is_read_as_it_is() {
    assert_eq!(reading_from(Some((1_700_000_000, 123_456_789))), (1_700_000_000, 123_456_789));
    assert_eq!(reading_from(Some((0, 0))), (0, 0));
    assert_eq!(reading_from(Some((u64::MAX, 999_999_999))), (u64::MAX, 999_999_999));
}

#[test]
fn clock_reading_keeps_nanoseconds_below_one_second() {
    let (secs, nanos) = clock_reading();
    assert!(nanos < 1_000_000_000);
    assert!(secs > 1_600_000_000);
}

#[test]
fn generated_token_has_the_prefix_and_hex_digits() {
    let token = generate_token();
    assert!(token.starts_with("sclw-"));
    let digits = &token["sclw-".len()..];
    assert!(digits.len() >= 2);
    assert!(digits.len() <= 16 + 8);
    assert!(digits
        .chars()
        .all(|c| c.is_ascii_digit() || ('a'..='f').contains(&c)));
}

#[test]
fn generated_token_is_the_token_of_a_current_reading() {
    let before = clock_reading();
    let token = generate_token();
    let after = clock_reading();
    let digits = &token["sclw-".len()..];
    let mut matched = false;
    let mut secs = before.0;
    while secs <= after.0 {
        let whole = format!("{:x}", secs);
        if digits.starts_with(&whole) {
            let rest = &digits[whole.len()..];
            if let Ok(nanos) = u32::from_str_radix(rest, 16) {
                if nanos < 1_000_000_000 && format!("{:x}", nanos) == rest {
                    matched = true;
                }
            }
        }
        secs += 1;
    }
    assert!(matched);
}

#[test]
fn different_readings_in_our_time_give_different_tokens() {
    let base = token_from_clock(1_700_000_000, 1);
    assert_ne!(base, token_from_clock(1_700_000_000, 2));
    assert_ne!(base, token_from_clock(1_700_000_001, 1));
    assert_ne!(base, token_from_clock(1_700_000_001, 0));
    assert_ne!(
        token_from_clock(0x1000_0000, 0x10),
        token_from_clock(0x1000_0001, 0)
    );
}

#[test]
fn readings_of_different_width_can_share_a_token() {
    assert_eq!(token_from_clock(0x1, 0x23), "sclw-123");
    assert_eq!(token_from_clock(0x12, 0x3), "sclw-123");
}

#[test]
fn tokens_issued_at_different_times_differ() {
    let first_reading = clock_reading();
    let first = generate_token();
    while clock_reading() == first_reading {}
    let between = clock_reading();
    while clock_reading() == between {}
    let second = generate_token();
    assert_ne!(first, second);
}
