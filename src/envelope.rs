//! The JSON text that a token carries: `{"exp":<seconds>,"data":<payload>}`,
//! the payload being JSON text of its own.

use vstd::prelude::*;
use crate::claim::Claim;
use crate::decimal::{
    decimal, digit_run_end, digits_to_u64, digits_value, is_canonical, is_digit, write_decimal,
    lemma_canonical_decimal, lemma_decimal_canonical,
};

verus! {

/// `{"exp":`
pub open spec fn exp_field() -> Seq<u8> {
    seq![123u8, 34, 101, 120, 112, 34, 58]
}

/// `,"data":`
pub open spec fn data_field() -> Seq<u8> {
    seq![44u8, 34, 100, 97, 116, 97, 34, 58]
}

/// The text of an envelope that expires at `exp` around the payload `data`.
pub open spec fn envelope_of(exp: u64, data: Seq<u8>) -> Seq<u8> {
    exp_field() + decimal(exp as nat) + data_field() + data + seq![125u8]
}

fn push_exp_field(out: &mut Vec<u8>)
    ensures
        final(out)@ == old(out)@ + exp_field(),
{
    out.push(123);
    out.push(34);
    out.push(101);
    out.push(120);
    out.push(112);
    out.push(34);
    out.push(58);
    assert(final(out)@ =~= old(out)@ + exp_field());
}

fn push_data_field(out: &mut Vec<u8>)
    ensures
        final(out)@ == old(out)@ + data_field(),
{
    out.push(44);
    out.push(34);
    out.push(100);
    out.push(97);
    out.push(116);
    out.push(97);
    out.push(34);
    out.push(58);
    assert(final(out)@ =~= old(out)@ + data_field());
}

/// Writes the envelope text of a claim whose payload is JSON text.
pub fn seal(claim: &Claim<Vec<u8>>) -> (r: Vec<u8>)
    ensures
        r@ == envelope_of(claim.spec_exp(), claim.spec_data()@),
{
    let mut out: Vec<u8> = Vec::new();
    push_exp_field(&mut out);
    write_decimal(claim.exp(), &mut out);
    push_data_field(&mut out);
    let data = claim.data();
    out.extend_from_slice(data.as_slice());
    out.push(125);
    assert(out@ =~= envelope_of(claim.spec_exp(), claim.spec_data()@));
    out
}

fn matches_at(s: &[u8], at: usize, pat: &Vec<u8>) -> (r: bool)
    requires
        at <= s@.len(),
    ensures
        r == (at + pat@.len() <= s@.len() && s@.subrange(at as int, at + pat@.len()) == pat@),
{
    let n = s.len();
    if pat.len() > n - at {
        return false;
    }
    let mut i: usize = 0;
    while i < pat.len()
        invariant
            n == s@.len(),
            at + pat@.len() <= s@.len(),
            0 <= i <= pat@.len(),
            forall|k: int| 0 <= k < i ==> s@[at + k] == pat@[k],
        decreases pat@.len() - i,
    {
        if s[at + i] != pat[i] {
            assert(s@.subrange(at as int, at + pat@.len())[i as int] != pat@[i as int]);
            return false;
        }
        i = i + 1;
    }
    assert(s@.subrange(at as int, at + pat@.len()) =~= pat@);
    true
}

fn exp_field_bytes() -> (r: Vec<u8>)
    ensures
        r@ == exp_field(),
{
    let mut v: Vec<u8> = Vec::new();
    push_exp_field(&mut v);
    assert(v@ =~= exp_field());
    v
}

fn data_field_bytes() -> (r: Vec<u8>)
    ensures
        r@ == data_field(),
{
    let mut v: Vec<u8> = Vec::new();
    push_data_field(&mut v);
    assert(v@ =~= data_field());
    v
}

/// Where the parts of an envelope stand in its text.
proof fn lemma_envelope_layout(b: Seq<u8>, exp: u64, data: Seq<u8>)
    requires
        b == envelope_of(exp, data),
    ensures
        ({
            let k: int = decimal(exp as nat).len() as int;
            &&& b.len() == 7 + k + 8 + data.len() + 1
            &&& b.subrange(0, 7) == exp_field()
            &&& b.subrange(7, 7 + k) == decimal(exp as nat)
            &&& b.subrange(7 + k, 15 + k) == data_field()
            &&& b.subrange(15 + k, b.len() - 1) == data
            &&& b[b.len() - 1] == 125
        }),
{
    let k: int = decimal(exp as nat).len() as int;
    assert(b.subrange(0, 7) =~= exp_field());
    assert(b.subrange(7, 7 + k) =~= decimal(exp as nat));
    assert(b.subrange(7 + k, 15 + k) =~= data_field());
    assert(b.subrange(15 + k, b.len() - 1) =~= data);
}

/// In the text of an envelope, the run of digits after `{"exp":` is the
/// spelling of the expiry.
proof fn lemma_envelope_run(b: Seq<u8>, exp: u64, data: Seq<u8>, end: int)
    requires
        b == envelope_of(exp, data),
        7 <= end <= b.len(),
        forall|i: int| 7 <= i < end ==> is_digit(#[trigger] b[i]),
        end == b.len() || !is_digit(b[end]),
    ensures
        end == 7 + decimal(exp as nat).len(),
        b.subrange(7, end) == decimal(exp as nat),
{
    lemma_envelope_layout(b, exp, data);
    lemma_decimal_canonical(exp as nat);
    let k: int = decimal(exp as nat).len() as int;
    let dec = decimal(exp as nat);
    if end < 7 + k {
        assert(b.subrange(7, 7 + k)[end - 7] == b[end]);
        assert(is_digit(dec[end - 7]));
    }
    if end > 7 + k {
        assert(b.subrange(7 + k, 15 + k)[0] == b[7 + k]);
        assert(data_field()[0] == 44u8);
    }
}

/// Reads an envelope back from its text: `Some` exactly when the text is the
/// envelope of some expiry and payload, and then those.
pub fn open(b: &[u8]) -> (r: Option<Claim<Vec<u8>>>)
    ensures
        match r {
            Some(c) => b@ == envelope_of(c.spec_exp(), c.spec_data()@),
            None => forall|exp: u64, data: Seq<u8>| b@ != envelope_of(exp, data),
        },
{
    let head = exp_field_bytes();
    if !matches_at(b, 0, &head) {
        proof {
            assert forall|exp: u64, data: Seq<u8>| b@ != envelope_of(exp, data) by {
                if b@ == envelope_of(exp, data) {
                    lemma_envelope_layout(b@, exp, data);
                }
            }
        }
        return None;
    }
    let end = digit_run_end(b, 7);
    proof {
        assert forall|i: int| 7 <= i < end implies is_digit(#[trigger] b@[i]) by {
            assert(b@.subrange(7, end as int)[i - 7] == b@[i]);
        }
    }
    let ghost run = b@.subrange(7, end as int);
    if end == 7 || (end > 8 && b[7] == 48) {
        proof {
            assert forall|exp: u64, data: Seq<u8>| b@ != envelope_of(exp, data) by {
                if b@ == envelope_of(exp, data) {
                    lemma_envelope_run(b@, exp, data, end as int);
                    lemma_decimal_canonical(exp as nat);
                    assert(run[0] == b@[7]);
                }
            }
        }
        return None;
    }
    proof {
        assert(is_canonical(run));
        lemma_canonical_decimal(run);
    }
    let exp = match digits_to_u64(b, 7, end) {
        Some(v) => v,
        None => {
            proof {
                assert forall|exp: u64, data: Seq<u8>| b@ != envelope_of(exp, data) by {
                    if b@ == envelope_of(exp, data) {
                        lemma_envelope_run(b@, exp, data, end as int);
                        lemma_decimal_canonical(exp as nat);
                    }
                }
            }
            return None;
        },
    };
    let mid = data_field_bytes();
    if !matches_at(b, end, &mid) || b.len() - end < 9 || b[b.len() - 1] != 125 {
        proof {
            assert forall|exp: u64, data: Seq<u8>| b@ != envelope_of(exp, data) by {
                if b@ == envelope_of(exp, data) {
                    lemma_envelope_run(b@, exp, data, end as int);
                    lemma_envelope_layout(b@, exp, data);
                }
            }
        }
        return None;
    }
    let last = b.len() - 1;
    let mut data: Vec<u8> = Vec::new();
    let mut i: usize = end + 8;
    while i < last
        invariant
            end + 8 <= i <= last,
            last == b@.len() - 1,
            data@ == b@.subrange(end + 8, i as int),
        decreases last - i,
    {
        data.push(b[i]);
        i = i + 1;
        assert(data@ =~= b@.subrange(end + 8, i as int));
    }
    let c = Claim::with_expiry(exp, data);
    proof {
        assert(decimal(exp as nat) == run);
        assert(b@ =~= envelope_of(exp, data@)) by {
            assert(b@.subrange(0, 7) == exp_field());
            assert(b@.subrange(end as int, end + 8) == data_field());
            assert(b@ =~= b@.subrange(0, 7) + run + b@.subrange(end as int, end + 8)
                + b@.subrange(end + 8, last as int) + seq![125u8]);
        }
    }
    Some(c)
}

/// Different expiries or payloads give different envelope texts.
pub proof fn lemma_envelope_injective(e1: u64, d1: Seq<u8>, e2: u64, d2: Seq<u8>)
    requires
        envelope_of(e1, d1) == envelope_of(e2, d2),
    ensures
        e1 == e2,
        d1 == d2,
{
    let b = envelope_of(e1, d1);
    lemma_envelope_layout(b, e1, d1);
    lemma_decimal_canonical(e1 as nat);
    lemma_decimal_canonical(e2 as nat);
    let k: int = decimal(e1 as nat).len() as int;
    let end = 7 + k;
    assert forall|i: int| 7 <= i < end implies is_digit(#[trigger] b[i]) by {
        assert(b.subrange(7, end)[i - 7] == b[i]);
    }
    assert(b.subrange(end, end + 8)[0] == b[end]);
    lemma_envelope_run(b, e2, d2, end);
    lemma_envelope_layout(b, e2, d2);
}

} // verus!
