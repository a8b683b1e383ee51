//! The claim envelope: a payload together with the second at which it stops
//! being accepted.

use vstd::prelude::*;
use crate::decimal::{all_digits, digits_value, digit_run_end, digits_to_u64};

verus! {

/// Lifetime of a claim when the configuration gives none, or none that parses.
pub const DEFAULT_TTL_SECS: u64 = 7200;

/// A payload wrapped with its expiry, in seconds since the Unix epoch.
pub struct Claim<C> {
    exp: u64,
    data: C,
}

impl<C> Claim<C> {
    pub closed spec fn spec_exp(&self) -> u64 {
        self.exp
    }

    pub closed spec fn spec_data(&self) -> C {
        self.data
    }

    /// Wraps `item` at time `now` so that it expires `ttl` seconds later
    /// (at the last representable second if that lies beyond).
    pub fn from(item: C, now: u64, ttl: u64) -> (r: Claim<C>)
        ensures
            r.spec_exp() == if now + ttl <= u64::MAX { (now + ttl) as u64 } else { u64::MAX },
            r.spec_data() == item,
    {
        Claim { exp: now.saturating_add(ttl), data: item }
    }

    /// A claim as read back from a token: its expiry and payload as they stand.
    pub fn with_expiry(exp: u64, data: C) -> (r: Claim<C>)
        ensures
            r.spec_exp() == exp,
            r.spec_data() == data,
    {
        Claim { exp, data }
    }

    pub fn exp(&self) -> (r: u64)
        ensures
            r == self.spec_exp(),
    {
        self.exp
    }

    pub fn data(&self) -> (r: &C)
        ensures
            *r == self.spec_data(),
    {
        &self.data
    }

    /// Whether the claim is no longer accepted at time `now`.
    pub fn is_expired_at(&self, now: u64) -> (r: bool)
        ensures
            r == (now >= self.spec_exp()),
    {
        now >= self.exp
    }
}

/// The numbers that Rust's `u64` parser accepts: an optional `+`, then one
/// or more digits whose value fits in 64 bits.
pub open spec fn parsed_secs(s: Seq<u8>) -> Option<u64> {
    let digits = if s.len() > 0 && s[0] == 43 { s.drop_first() } else { s };
    if digits.len() > 0 && all_digits(digits) && digits_value(digits) <= u64::MAX {
        Some(digits_value(digits) as u64)
    } else {
        None
    }
}

/// Reads a count of seconds as the standard `u64` parser does.
pub fn parse_secs(s: &[u8]) -> (r: Option<u64>)
    ensures
        r == parsed_secs(s@),
{
    let start: usize = if s.len() > 0 && s[0] == 43 { 1 } else { 0 };
    let ghost digits = s@.subrange(start as int, s@.len() as int);
    proof {
        if start == 1 {
            assert(digits =~= s@.drop_first());
        } else {
            assert(digits =~= s@);
        }
    }
    let end = digit_run_end(s, start);
    if start == s.len() || end < s.len() {
        proof {
            if end < s.len() {
                assert(digits[end - start] == s@[end as int]);
            }
        }
        return None;
    }
    digits_to_u64(s, start, end)
}

/// The configured lifetime of a claim: the value given, when it parses,
/// else the default.
pub open spec fn configured_ttl(setting: Option<Seq<u8>>) -> u64 {
    match setting {
        Some(s) => match parsed_secs(s) {
            Some(v) => v,
            None => DEFAULT_TTL_SECS,
        },
        None => DEFAULT_TTL_SECS,
    }
}

/// The claim lifetime for a configuration setting that may be absent.
pub fn ttl_from_setting(setting: Option<&[u8]>) -> (r: u64)
    ensures
        r == configured_ttl(
            match setting {
                Some(s) => Some(s@),
                None => None,
            },
        ),
{
    match setting {
        Some(s) => match parse_secs(s) {
            Some(v) => v,
            None => DEFAULT_TTL_SECS,
        },
        None => DEFAULT_TTL_SECS,
    }
}

} // verus!
