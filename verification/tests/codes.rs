use remote_unlock::code_buffer::CodeBuffer;
use remote_unlock::enrollment_code::{EnrollmentCode, CODE_LIFETIME_SECS};

const NOW: i64 = 1_700_000_000;

fn code_with(digits: u32) -> EnrollmentCode {
    EnrollmentCode { code: digits, expires: NOW + CODE_LIFETIME_SECS }
}

#[test]
fn minted_code_is_six_digits() {
    let c = EnrollmentCode::new(NOW);
    assert!((100_000..1_000_000).contains(&c.code()));
    assert_eq!(c.expires(), NOW + 30 * 60);
}

#[test]
fn code_expires_after_thirty_minutes() {
    let c = EnrollmentCode::new(NOW);
    let digits = c.code();
    assert!(c.verify(&digits, NOW));
    assert!(c.verify(&digits, NOW + CODE_LIFETIME_SECS));
    assert!(!c.verify(&digits, NOW + CODE_LIFETIME_SECS + 1));
    assert!(!c.verify(&digits, NOW + 31 * 60));
}

#[test]
fn code_wrong_digits_fail() {
    let c = code_with(123_456);
    assert!(!c.verify(&123_457, NOW));
    assert!(c.verify(&123_456, NOW));
}

#[test]
fn buffer_verify_is_one_shot() {
    let mut buf = CodeBuffer::new();
    buf.insert(code_with(123_456)).unwrap();
    assert!(buf.verify(&123_456, NOW));
    assert!(!buf.verify(&123_456, NOW));
}

#[test]
fn buffer_unknown_code_fails() {
    let mut buf = CodeBuffer::new();
    buf.insert(code_with(123_456)).unwrap();
    assert!(!buf.verify(&654_321, NOW));
    assert!(buf.verify(&123_456, NOW));
}

#[test]
fn buffer_expired_code_fails_without_sweep() {
    let mut buf = CodeBuffer::new();
    buf.insert(code_with(123_456)).unwrap();
    assert!(!buf.verify(&123_456, NOW + CODE_LIFETIME_SECS + 1));
    // still occupying its slot until a sweep
    let mut filler = 0;
    for d in 0..16u32 {
        if buf.insert(code_with(200_000 + d)).is_ok() {
            filler += 1;
        }
    }
    assert_eq!(filler, 15);
}

#[test]
fn buffer_seventeenth_insert_fails_and_leaves_buffer() {
    let mut buf = CodeBuffer::new();
    for d in 0..16u32 {
        buf.insert(code_with(100_000 + d)).unwrap();
    }
    let err = buf.insert(code_with(999_999)).unwrap_err();
    assert!(matches!(
        err.kind(),
        remote_unlock::errors::ErrorKind::CodeBufferFull
    ));
    // the sixteen live codes are untouched and the rejected one is absent
    assert!(!buf.verify(&999_999, NOW));
    for d in 0..16u32 {
        assert!(buf.verify(&(100_000 + d), NOW));
    }
}

#[test]
fn sweep_reclaims_expired_slots() {
    let mut buf = CodeBuffer::new();
    for d in 0..16u32 {
        buf.insert(EnrollmentCode { code: 100_000 + d, expires: NOW }).unwrap();
    }
    assert!(buf.insert(code_with(999_999)).is_err());
    buf.clear_expired(NOW + 1);
    buf.insert(code_with(999_999)).unwrap();
    assert!(buf.verify(&999_999, NOW + 2));
    assert!(!buf.verify(&100_000, NOW + 2));
}
