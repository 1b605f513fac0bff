//! The counter and truncation engine and the verifier: a Unix time is
//! divided into steps, the step counter is signed with HMAC-SHA1, and
//! the digest is truncated (RFC 4226) to a decimal code; verification
//! probes a symmetric window of adjacent steps.

use vstd::prelude::*;

use crate::mac::{hmac_sha1, hmac_sha1_digest};

verus! {

/// Why a request was rejected: options outside their domain, or a code
/// width whose decimal modulus would overflow 32 bits.
#[derive(Copy, Clone, Debug, PartialEq, Eq, Structural)]
pub enum TotpError {
    /// `digits == 0` or `step == 0`.
    Configuration,
    /// `digits > 9`, so `10^digits` exceeds a 32-bit accumulator.
    Overflow,
}

/// Ten raised to `d`.
pub open spec fn pow10(d: nat) -> nat
    decreases d,
{
    if d == 0 {
        1
    } else {
        10 * pow10((d - 1) as nat)
    }
}

/// The eight-byte big-endian encoding of a 64-bit counter: the message
/// that is signed.
pub open spec fn be64(x: u64) -> Seq<u8> {
    seq![
        ((x >> 56) & 0xff) as u8,
        ((x >> 48) & 0xff) as u8,
        ((x >> 40) & 0xff) as u8,
        ((x >> 32) & 0xff) as u8,
        ((x >> 24) & 0xff) as u8,
        ((x >> 16) & 0xff) as u8,
        ((x >> 8) & 0xff) as u8,
        (x & 0xff) as u8,
    ]
}

/// A 32-bit big-endian value read from four bytes.
pub open spec fn be32(b0: u8, b1: u8, b2: u8, b3: u8) -> u32 {
    ((b0 as u32) * 0x1000000 + (b1 as u32) * 0x10000 + (b2 as u32) * 0x100 + (b3 as u32)) as u32
}

/// The number of whole steps elapsed at `secs`.
pub open spec fn counter_of(secs: u64, step: u64) -> u64
    recommends
        step > 0,
{
    secs / step
}

/// The RFC 4226 dynamic truncation of a 20-byte digest: the offset is
/// the low nibble of the last byte, the four bytes there are read
/// big-endian, the top bit is masked, and the rest is reduced modulo
/// `10^digits`.
pub open spec fn truncated(digest: Seq<u8>, digits: u32) -> u32 {
    let offset = (digest[19] & 0x0f) as int;
    let binary = be32(digest[offset], digest[offset + 1], digest[offset + 2], digest[offset + 3])
        & 0x7fffffff;
    (binary as int % pow10(digits as nat) as int) as u32
}

/// The RFC 4226 code for a counter: HMAC-SHA1 of the big-endian
/// counter, dynamically truncated to `digits` decimal digits.
pub open spec fn hotp_code(key: Seq<u8>, counter: u64, digits: u32) -> u32 {
    truncated(hmac_sha1(key, be64(counter)), digits)
}

/// Any truncation result is in `[0, 10^digits)`.
pub proof fn lemma_truncated_range(digest: Seq<u8>, digits: u32)
    ensures
        truncated(digest, digits) < pow10(digits as nat),
{
    let offset = (digest[19] & 0x0f) as int;
    let word = be32(digest[offset], digest[offset + 1], digest[offset + 2], digest[offset + 3]);
    assert(word & 0x7fffffff < 0x80000000) by (bit_vector);
    lemma_pow10_pos(digits as nat);
}

/// Truncates a 20-byte digest into a code of `digits` decimal digits,
/// exactly as RFC 4226 prescribes.
pub fn truncate(digest: &[u8], digits: u32) -> (code: u32)
    requires
        digest@.len() == 20,
        1 <= digits <= 9,
    ensures
        code == truncated(digest@, digits),
        code < pow10(digits as nat),
{
    let last = digest[19];
    assert((last & 0x0f) < 16) by (bit_vector);
    let offset = (last & 0x0f) as usize;
    let b0 = digest[offset];
    let b1 = digest[offset + 1];
    let b2 = digest[offset + 2];
    let b3 = digest[offset + 3];
    let word: u32 = (b0 as u32) * 0x1000000 + (b1 as u32) * 0x10000 + (b2 as u32) * 0x100 + (
    b3 as u32);
    let binary: u32 = word & 0x7fffffff;
    let modulus = pow10_exec(digits);
    proof {
        lemma_pow10_pos(digits as nat);
    }
    binary % modulus
}

/// `10^d` is positive.
pub proof fn lemma_pow10_pos(d: nat)
    ensures
        pow10(d) >= 1,
    decreases d,
{
    if d > 0 {
        lemma_pow10_pos((d - 1) as nat);
    }
}

/// `10^a <= 10^b` when `a <= b`.
pub proof fn lemma_pow10_le(a: nat, b: nat)
    requires
        a <= b,
    ensures
        pow10(a) <= pow10(b),
    decreases b,
{
    if a < b {
        lemma_pow10_le(a, (b - 1) as nat);
        lemma_pow10_pos((b - 1) as nat);
    }
}

/// Encodes a 64-bit counter as eight big-endian bytes.
fn counter_bytes(x: u64) -> (r: Vec<u8>)
    ensures
        r@ == be64(x),
{
    let mut r: Vec<u8> = Vec::new();
    r.push(((x >> 56) & 0xff) as u8);
    r.push(((x >> 48) & 0xff) as u8);
    r.push(((x >> 40) & 0xff) as u8);
    r.push(((x >> 32) & 0xff) as u8);
    r.push(((x >> 24) & 0xff) as u8);
    r.push(((x >> 16) & 0xff) as u8);
    r.push(((x >> 8) & 0xff) as u8);
    r.push((x & 0xff) as u8);
    proof {
        assert(r@ =~= be64(x));
    }
    r
}

/// Computes `10^d` for a code width of at most nine digits.
fn pow10_exec(d: u32) -> (r: u32)
    requires
        d <= 9,
    ensures
        r == pow10(d as nat),
{
    let mut r: u32 = 1;
    let mut i: u32 = 0;
    while i < d
        invariant
            i <= d <= 9,
            r == pow10(i as nat),
        decreases d - i,
    {
        proof {
            lemma_pow10_le(i as nat, 8);
            assert(pow10(8) == 100000000) by {
                reveal_with_fuel(pow10, 9);
            }
        }
        r = r * 10;
        i = i + 1;
    }
    r
}

/// TOTP options: the code width in decimal digits, the allowed clock
/// skew in steps on each side, and the step length in seconds.
#[derive(Copy, Clone, Debug, PartialEq, Eq, Structural)]
pub struct Totp {
    pub digits: u32,
    pub skew: u8,
    pub step: u64,
}

impl Totp {
    /// Options are usable when the code width is between one and nine
    /// digits and the step is a positive number of seconds.
    pub open spec fn wf(self) -> bool {
        1 <= self.digits <= 9 && self.step > 0
    }

    /// The error that unusable options surface: `Overflow` for a code
    /// width above nine digits, `Configuration` otherwise.
    pub open spec fn config_error(self) -> TotpError {
        if self.digits > 9 {
            TotpError::Overflow
        } else {
            TotpError::Configuration
        }
    }

    /// The code these options give for a step counter.
    pub open spec fn code_at(self, key: Seq<u8>, counter: u64) -> u32 {
        hotp_code(key, counter, self.digits)
    }

    /// The code these options give for a time.
    pub open spec fn code(self, key: Seq<u8>, secs: u64) -> u32 {
        self.code_at(key, counter_of(secs, self.step))
    }

    /// The first step counter the verifier probes for a time: `skew`
    /// steps below the time's own counter, clamped at zero.
    pub open spec fn window_lo(self, secs: u64) -> int {
        let c = counter_of(secs, self.step) as int;
        if c - self.skew >= 0 {
            c - self.skew
        } else {
            0
        }
    }

    /// The last step counter the verifier probes for a time: `skew`
    /// steps above the time's own counter, clamped at the counter
    /// type's maximum.
    pub open spec fn window_hi(self, secs: u64) -> int {
        let c = counter_of(secs, self.step) as int;
        if c + self.skew <= u64::MAX {
            c + self.skew
        } else {
            u64::MAX as int
        }
    }

    /// Whether some step counter in the window around `secs` yields
    /// `token`.
    pub open spec fn verifies(self, key: Seq<u8>, secs: u64, token: u32) -> bool {
        exists|p: u64|
            self.window_lo(secs) <= p <= self.window_hi(secs) && #[trigger] self.code_at(
                key,
                p,
            ) == token
    }

    /// Signs the big-endian encoding of a step counter under `key`,
    /// yielding the 20-byte digest that is truncated into a code.
    fn sign(&self, key: &[u8], counter: u64) -> (digest: Vec<u8>)
        ensures
            digest@ == hmac_sha1(key@, be64(counter)),
            digest@.len() == 20,
    {
        let msg = counter_bytes(counter);
        hmac_sha1_digest(key, msg.as_slice())
    }

    /// Derives the code for one step counter: dynamic truncation of the
    /// counter's digest, reduced modulo `10^digits`.
    fn generate_at(&self, key: &[u8], counter: u64) -> (code: u32)
        requires
            1 <= self.digits <= 9,
        ensures
            code == self.code_at(key@, counter),
            code < pow10(self.digits as nat),
    {
        let digest = self.sign(key, counter);
        truncate(digest.as_slice(), self.digits)
    }

    /// Generates the code for `key` at `secs`, or the error these
    /// options surface.
    ///
    /// Callers wanting fixed-width display must zero-pad the returned
    /// integer themselves.
    pub fn generate(&self, key: &[u8], secs: u64) -> (r: Result<u32, TotpError>)
        ensures
            self.wf() ==> r == Ok::<u32, TotpError>(self.code(key@, secs)),
            !self.wf() ==> r == Err::<u32, TotpError>(self.config_error()),
    {
        if self.digits > 9 {
            return Err(TotpError::Overflow);
        }
        if self.digits == 0 || self.step == 0 {
            return Err(TotpError::Configuration);
        }
        Ok(self.generate_at(key, secs / self.step))
    }

    /// Checks `token` for `key` at `secs`: probes every step counter of
    /// the window around `secs`, in increasing order, and reports
    /// whether one yields `token`; or the error these options surface.
    pub fn verify(&self, key: &[u8], secs: u64, token: u32) -> (r: Result<bool, TotpError>)
        ensures
            self.wf() ==> r == Ok::<bool, TotpError>(self.verifies(key@, secs, token)),
            !self.wf() ==> r == Err::<bool, TotpError>(self.config_error()),
    {
        if self.digits > 9 {
            return Err(TotpError::Overflow);
        }
        if self.digits == 0 || self.step == 0 {
            return Err(TotpError::Configuration);
        }
        let c: u64 = secs / self.step;
        let skew: u64 = self.skew as u64;
        let lo: u64 = if c >= skew {
            c - skew
        } else {
            0
        };
        let hi: u64 = if c <= u64::MAX - skew {
            c + skew
        } else {
            u64::MAX
        };
        let count: u64 = hi - lo + 1;
        let mut i: u64 = 0;
        while i < count
            invariant
                self.wf(),
                lo as int == self.window_lo(secs),
                hi as int == self.window_hi(secs),
                lo <= hi,
                count == hi - lo + 1,
                i <= count,
                forall|p: u64| lo <= p < lo + i ==> #[trigger] self.code_at(key@, p) != token,
            decreases count - i,
        {
            let code = self.generate_at(key, lo + i);
            if code == token {
                proof {
                    let w: u64 = (lo + i) as u64;
                    assert(self.window_lo(secs) <= w <= self.window_hi(secs)
                        && self.code_at(key@, w) == token);
                }
                return Ok(true);
            }
            i = i + 1;
        }
        Ok(false)
    }

    /// Returns options after checking their domain: the code width must
    /// be one through nine digits and the step positive.
    pub fn options(digits: u32, skew: u8, step: u64) -> (r: Result<Totp, TotpError>)
        ensures
            1 <= digits <= 9 && step > 0 ==> r == Ok::<Totp, TotpError>(
                Totp { digits, skew, step },
            ),
            !(1 <= digits <= 9 && step > 0) ==> r == Err::<Totp, TotpError>(
                (Totp { digits, skew, step }).config_error(),
            ),
    {
        if digits > 9 {
            Err(TotpError::Overflow)
        } else if digits == 0 || step == 0 {
            Err(TotpError::Configuration)
        } else {
            Ok(Totp { digits, skew, step })
        }
    }
}

/// Generation is deterministic: the code is a function of the key, the
/// time and the options alone, so two results for the same inputs are
/// equal.
pub proof fn lemma_generate_deterministic(t: Totp, key: Seq<u8>, secs: u64, c1: u32, c2: u32)
    requires
        c1 == t.code(key, secs),
        c2 == t.code(key, secs),
    ensures
        c1 == c2,
{
}

/// Any code is in `[0, 10^digits)`.
pub proof fn lemma_code_range(t: Totp, key: Seq<u8>, secs: u64)
    ensures
        t.code(key, secs) < pow10(t.digits as nat),
{
    lemma_truncated_range(hmac_sha1(key, be64(counter_of(secs, t.step))), t.digits);
}

/// A code generated for a time verifies at that same time.
pub proof fn lemma_self_verify(t: Totp, key: Seq<u8>, secs: u64)
    requires
        t.wf(),
    ensures
        t.verifies(key, secs, t.code(key, secs)),
{
    let c = counter_of(secs, t.step);
    assert(t.window_lo(secs) <= c <= t.window_hi(secs) && t.code_at(key, c) == t.code(key, secs));
}

/// Clock drift within the skew is tolerated: a code verifies at any
/// time whose own counter lies within `skew` steps of the counter the
/// code was generated for.
pub proof fn lemma_window_tolerance(t: Totp, key: Seq<u8>, gen_secs: u64, check_secs: u64)
    requires
        t.wf(),
        counter_of(check_secs, t.step) - t.skew <= counter_of(gen_secs, t.step)
            <= counter_of(check_secs, t.step) + t.skew,
    ensures
        t.verifies(key, check_secs, t.code(key, gen_secs)),
{
    let cg = counter_of(gen_secs, t.step);
    assert(t.window_lo(check_secs) <= cg <= t.window_hi(check_secs) && t.code_at(key, cg)
        == t.code(key, gen_secs));
}

/// One step of drift stays within a skew of one: a code for `secs`
/// verifies one step later, and a code for one step later verifies at
/// `secs`.
pub proof fn lemma_adjacent_step_verifies(t: Totp, key: Seq<u8>, secs: u64, later: u64)
    requires
        t.wf(),
        t.skew >= 1,
        later == secs + t.step,
    ensures
        t.verifies(key, later, t.code(key, secs)),
        t.verifies(key, secs, t.code(key, later)),
{
    vstd::arithmetic::div_mod::lemma_div_plus_one(secs as int, t.step as int);
    assert(counter_of(later, t.step) == counter_of(secs, t.step) + 1);
    lemma_window_tolerance(t, key, secs, later);
    lemma_window_tolerance(t, key, later, secs);
}

/// More than `skew` steps of drift falls outside the window: the
/// counter a code was generated for is then never probed.
pub proof fn lemma_window_excludes(t: Totp, gen_secs: u64, check_secs: u64)
    requires
        t.wf(),
        counter_of(gen_secs, t.step) < counter_of(check_secs, t.step) - t.skew || counter_of(
            gen_secs,
            t.step,
        ) > counter_of(check_secs, t.step) + t.skew,
    ensures
        !(t.window_lo(check_secs) <= counter_of(gen_secs, t.step) <= t.window_hi(check_secs)),
{
}

} // verus!
