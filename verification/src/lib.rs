//! Time-based one-time passwords (RFC 6238) over HMAC-SHA1, with the
//! RFC 4226 dynamic truncation, verified down to the keyed-hash call.
//!
//! The free functions [`generate`] and [`verify`] use the default
//! options (six digits, a skew of one step, thirty-second steps);
//! [`totp::Totp`] carries explicit options.

use vstd::prelude::*;

pub mod mac;
pub mod totp;

use crate::totp::{lemma_code_range, pow10, Totp};

verus! {

/// The default options: six digits, a skew of one step, and
/// thirty-second steps.
pub open spec fn default_totp() -> Totp {
    Totp { digits: 6, skew: 1, step: 30 }
}

/// Generates a six-digit code for `key` at `secs` with the default
/// options.
///
/// Callers wanting fixed-width display must zero-pad the returned
/// integer themselves.
pub fn generate(key: &[u8], secs: u64) -> (code: u32)
    ensures
        code == default_totp().code(key@, secs),
        code < 1000000,
{
    let t = Totp { digits: 6, skew: 1, step: 30 };
    proof {
        lemma_code_range(t, key@, secs);
        assert(pow10(6) == 1000000) by {
            reveal_with_fuel(pow10, 7);
        }
    }
    t.generate(key, secs).unwrap()
}

/// Checks a six-digit `token` for `key` at `secs` with the default
/// options.
pub fn verify(key: &[u8], secs: u64, token: u32) -> (r: bool)
    ensures
        r == default_totp().verifies(key@, secs, token),
{
    let t = Totp { digits: 6, skew: 1, step: 30 };
    t.verify(key, secs, token).unwrap()
}

} // verus!
