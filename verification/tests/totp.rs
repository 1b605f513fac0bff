use nyx::totp::{truncate, Totp, TotpError};

const KEY: &[u8] = b"12345678901234567890";

#[test]
fn totp_8_digits_0_skew_30_step() {
    // Test values from https://tools.ietf.org/html/rfc6238.
    let totp = Totp::options(8, 0, 30).unwrap();
    assert!(totp.verify(b"12345678901234567890", 59, 94287082).unwrap());
    assert!(totp.verify(b"12345678901234567890", 1111111109, 7081804).unwrap());
    assert!(totp.verify(b"12345678901234567890", 1111111111, 14050471).unwrap());
    assert!(totp.verify(b"12345678901234567890", 1234567890, 89005924).unwrap());
    assert!(totp.verify(b"12345678901234567890", 2000000000, 69279037).unwrap());
    assert!(totp.verify(b"12345678901234567890", 20000000000, 65353130).unwrap());
}

#[test]
fn rfc6238_vectors_generate_8_digits_skew_1() {
    let totp = Totp::options(8, 1, 30).unwrap();
    assert_eq!(totp.generate(KEY, 59).unwrap(), 94287082);
    assert_eq!(totp.generate(KEY, 1111111109).unwrap(), 7081804);
    assert_eq!(totp.generate(KEY, 1111111111).unwrap(), 14050471);
    assert_eq!(totp.generate(KEY, 1234567890).unwrap(), 89005924);
    assert_eq!(totp.generate(KEY, 2000000000).unwrap(), 69279037);
    assert_eq!(totp.generate(KEY, 20000000000).unwrap(), 65353130);
}

#[test]
fn default_config_vector() {
    assert_eq!(nyx::generate(KEY, 59), 287082);
    assert!(nyx::verify(KEY, 59, 287082));
}

#[test]
fn generation_is_deterministic() {
    assert_eq!(nyx::generate(KEY, 1234567890), nyx::generate(KEY, 1234567890));
    let totp = Totp::options(8, 1, 30).unwrap();
    assert_eq!(
        totp.generate(KEY, 2000000000).unwrap(),
        totp.generate(KEY, 2000000000).unwrap()
    );
}

#[test]
fn generated_code_self_verifies() {
    for &secs in &[0u64, 29, 59, 1111111109, 20000000000] {
        let code = nyx::generate(KEY, secs);
        assert!(nyx::verify(KEY, secs, code));
    }
    let totp = Totp::options(8, 0, 30).unwrap();
    let code = totp.generate(KEY, 1234567890).unwrap();
    assert!(totp.verify(KEY, 1234567890, code).unwrap());
}

#[test]
fn empty_key_is_accepted() {
    let code = nyx::generate(b"", 59);
    assert!(code < 1000000);
    assert_eq!(code, nyx::generate(b"", 59));
    assert!(nyx::verify(b"", 59, code));
}

#[test]
fn code_is_in_range() {
    let totp8 = Totp::options(8, 0, 30).unwrap();
    assert!(totp8.generate(KEY, 59).unwrap() < 100000000);
    let totp1 = Totp::options(1, 0, 30).unwrap();
    assert!(totp1.generate(KEY, 59).unwrap() < 10);
    let totp9 = Totp::options(9, 0, 30).unwrap();
    let code = totp9.generate(KEY, 1111111111).unwrap();
    assert!(code < 1000000000);
    assert!(totp9.verify(KEY, 1111111111, code).unwrap());
}

#[test]
fn window_boundary_skew_1_step_30() {
    let t: u64 = 1111111109;
    let code = nyx::generate(KEY, t);
    assert!(nyx::verify(KEY, t + 30, code));
    assert!(nyx::verify(KEY, t - 30, code));
    assert!(!nyx::verify(KEY, t + 61, code));
    assert!(!nyx::verify(KEY, t - 61, code));
}

#[test]
fn wider_skew_widens_the_window() {
    let totp = Totp::options(6, 2, 30).unwrap();
    let code = totp.generate(KEY, 1234567890).unwrap();
    assert!(totp.verify(KEY, 1234567890 + 60, code).unwrap());
    assert!(totp.verify(KEY, 1234567890 - 60, code).unwrap());
    assert!(!totp.verify(KEY, 1234567890 + 91, code).unwrap());
}

#[test]
fn window_clamps_at_time_zero() {
    let code = nyx::generate(KEY, 0);
    assert!(nyx::verify(KEY, 0, code));
    assert!(nyx::verify(KEY, 10, code));
}

#[test]
fn rfc4226_truncation_example() {
    // The worked dynamic-truncation example of RFC 4226 section 5.4:
    // offset 0xa, four-byte window 0x50ef7f19, six-digit code 872921.
    let digest: Vec<u8> = vec![
        0x1f, 0x86, 0x98, 0x69, 0x0e, 0x02, 0xca, 0x16, 0x61, 0x85, 0x50, 0xef, 0x7f, 0x19, 0xda,
        0x8e, 0x94, 0x5b, 0x55, 0x5a,
    ];
    assert_eq!(truncate(&digest, 6), 872921);
    assert_eq!(truncate(&digest, 8), 57872921);
    assert_eq!(truncate(&digest, 9), 0x50ef7f19 % 1000000000);
}

#[test]
fn invalid_digits_rejected() {
    assert_eq!(Totp::options(10, 1, 30), Err(TotpError::Overflow));
    assert_eq!(Totp::options(0, 1, 30), Err(TotpError::Configuration));
    let bad = Totp { digits: 10, skew: 1, step: 30 };
    assert_eq!(bad.generate(KEY, 59), Err(TotpError::Overflow));
    assert_eq!(bad.verify(KEY, 59, 287082), Err(TotpError::Overflow));
}

#[test]
fn zero_step_rejected() {
    assert_eq!(Totp::options(6, 1, 0), Err(TotpError::Configuration));
    let bad = Totp { digits: 6, skew: 1, step: 0 };
    assert_eq!(bad.generate(KEY, 59), Err(TotpError::Configuration));
    assert_eq!(bad.verify(KEY, 59, 287082), Err(TotpError::Configuration));
}

#[test]
fn options_accepts_valid_bounds() {
    let totp = Totp::options(9, 0, 1).unwrap();
    let code = totp.generate(KEY, 59).unwrap();
    assert!(totp.verify(KEY, 59, code).unwrap());
    assert!(Totp::options(1, 255, 1).is_ok());
}
