use key_signer::trust::check_trust_session;
use key_signer::trust::parse_trust_session;
use key_signer::trust::TrustSession;
use key_signer::trust::TrustSessionError;

fn session(subject: &str, expires_at: i64, issuer: &str, seal: &str) -> TrustSession {
    TrustSession {
        subject_id: subject.to_string(),
        expires_at,
        issuer_tag: issuer.to_string(),
        seal: seal.to_string(),
    }
}

#[test]
fn a_record_of_four_fields_is_read() {
    assert_eq!(
        parse_trust_session("npub1abc:1700000000:cli:deadbeef"),
        Ok(session("npub1abc", 1_700_000_000, "cli", "deadbeef"))
    );
}

#[test]
fn the_opaque_fields_are_kept_as_they_are() {
    assert_eq!(parse_trust_session(":5::"), Ok(session("", 5, "", "")));
    assert_eq!(
        parse_trust_session(" a :5: b :c\n"),
        Ok(session(" a ", 5, " b ", "c\n"))
    );
}

#[test]
fn an_expiry_may_be_negative_or_signed() {
    assert_eq!(parse_trust_session("a:-5:b:c"), Ok(session("a", -5, "b", "c")));
    assert_eq!(parse_trust_session("a:+5:b:c"), Ok(session("a", 5, "b", "c")));
}

#[test]
fn any_other_number_of_fields_is_no_record() {
    for text in ["", "a", "a:1", "a:1:b", "a:1:b:c:d", "a:1:b:c:", "::::", "1700000000"] {
        assert_eq!(
            parse_trust_session(text),
            Err(TrustSessionError::WrongFieldCount),
            "for {:?}",
            text
        );
    }
}

#[test]
fn an_expiry_that_is_no_timestamp_is_no_record() {
    for text in [
        "a::b:c",
        "a:soon:b:c",
        "a: 5:b:c",
        "a:5 :b:c",
        "a:5.0:b:c",
        "a:9223372036854775808:b:c",
        "a:-:b:c",
    ] {
        assert_eq!(
            parse_trust_session(text),
            Err(TrustSessionError::InvalidExpiry),
            "for {:?}",
            text
        );
    }
}

#[test]
fn the_field_count_is_checked_before_the_expiry() {
    assert_eq!(parse_trust_session("a:soon:b"), Err(TrustSessionError::WrongFieldCount));
}

#[test]
fn a_session_is_valid_strictly_before_its_expiry() {
    let record = Some("id:1000:tag:seal");
    assert!(check_trust_session(record, 0));
    assert!(check_trust_session(record, 999));
}

#[test]
fn a_session_is_invalid_at_the_moment_of_its_expiry() {
    assert!(!check_trust_session(Some("id:1000:tag:seal"), 1000));
}

#[test]
fn a_session_is_invalid_after_its_expiry() {
    let record = Some("id:1000:tag:seal");
    assert!(!check_trust_session(record, 1001));
    assert!(!check_trust_session(record, u64::MAX));
}

#[test]
fn validity_follows_the_expiry_for_many_timestamps() {
    let now: u64 = 1_700_000_000;
    for expiry in [0i64, 1, 1_699_999_999, 1_700_000_000, 1_700_000_001, i64::MAX] {
        let record = format!("id:{}:tag:seal", expiry);
        assert_eq!(
            check_trust_session(Some(&record), now),
            (now as i128) < (expiry as i128),
            "for expiry {}",
            expiry
        );
    }
}

#[test]
fn a_session_with_a_negative_expiry_is_never_valid() {
    assert!(!check_trust_session(Some("id:-1:tag:seal"), 0));
    assert!(!check_trust_session(Some("id:-9223372036854775808:tag:seal"), 0));
}

#[test]
fn a_session_with_expiry_zero_is_never_valid() {
    assert!(!check_trust_session(Some("id:0:tag:seal"), 0));
}

#[test]
fn a_clock_beyond_the_signed_range_invalidates_every_session() {
    assert!(!check_trust_session(Some("id:9223372036854775807:tag:seal"), u64::MAX));
    assert!(!check_trust_session(
        Some("id:9223372036854775807:tag:seal"),
        9_223_372_036_854_775_807
    ));
    assert!(check_trust_session(
        Some("id:9223372036854775807:tag:seal"),
        9_223_372_036_854_775_806
    ));
}

#[test]
fn a_record_with_the_wrong_number_of_fields_is_never_valid() {
    for text in ["", "a", "a:9999999999", "a:9999999999:b", "a:9999999999:b:c:d"] {
        assert!(!check_trust_session(Some(text), 0), "for {:?}", text);
    }
}

#[test]
fn a_record_with_an_unreadable_expiry_is_never_valid() {
    assert!(!check_trust_session(Some("a:never:b:c"), 0));
    assert!(!check_trust_session(Some("a::b:c"), 0));
}

#[test]
fn a_missing_record_is_never_valid() {
    assert!(!check_trust_session(None, 0));
    assert!(!check_trust_session(None, u64::MAX));
}

#[test]
fn a_record_with_a_trailing_line_feed_is_still_read() {
    assert!(check_trust_session(Some("id:1000:tag:seal\n"), 999));
    assert!(!check_trust_session(Some("id:1000:tag:seal\n"), 1000));
}

#[test]
fn is_valid_at_compares_with_the_expiry() {
    let granted = session("id", 50, "tag", "seal");
    assert!(granted.is_valid_at(49));
    assert!(!granted.is_valid_at(50));
    assert!(!granted.is_valid_at(51));
}
