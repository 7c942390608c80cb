//! Decimal rendering of the tray identifier.
//!
//! The status-notifier service publishes the tray's 128-bit identifier as
//! its service identity, in decimal text. The digits are computed here and
//! proved against [`dec_rep`], the usual most-significant-first decimal
//! representation without leading zeroes.

use vstd::prelude::*;

verus! {

/// The ASCII decimal representation of `n`, most significant digit first.
pub open spec fn dec_rep(n: nat) -> Seq<u8>
    decreases n,
{
    if n < 10 {
        seq![(0x30 + n) as u8]
    } else {
        dec_rep(n / 10).push((0x30 + n % 10) as u8)
    }
}

/// The same representation, as text.
pub open spec fn dec_chars(n: nat) -> Seq<char> {
    dec_rep(n).map_values(|b: u8| b as char)
}

/// Every byte of the representation is an ASCII digit.
pub proof fn lemma_dec_rep_digits(n: nat)
    ensures
        forall|i: int| 0 <= i < dec_rep(n).len() ==> 0x30 <= #[trigger] dec_rep(n)[i] <= 0x39,
    decreases n,
{
    if n < 10 {
        assert(dec_rep(n)[0] == (0x30 + n) as u8);
    } else {
        lemma_dec_rep_digits(n / 10);
        let s = dec_rep(n / 10);
        assert forall|i: int| 0 <= i < dec_rep(n).len() implies 0x30 <= #[trigger] dec_rep(n)[i]
            <= 0x39 by {
            if i < s.len() {
                assert(dec_rep(n)[i] == s[i]);
            } else {
                assert(dec_rep(n)[i] == (0x30 + n % 10) as u8);
            }
        }
    }
}

/// The decimal digits of `n`, most significant first.
pub fn decimal_ascii(n: u128) -> (r: Vec<u8>)
    ensures
        r@ == dec_rep(n as nat),
{
    let mut m: u128 = n;
    let mut low: Vec<u8> = Vec::new();
    proof {
        assert(dec_rep(n as nat) =~= dec_rep(n as nat) + low@.reverse());
    }
    while m >= 10
        invariant
            dec_rep(n as nat) == dec_rep(m as nat) + low@.reverse(),
        decreases m,
    {
        let d: u8 = 0x30 + (m % 10) as u8;
        proof {
            let pushed = low@.push(d);
            assert(pushed.reverse() =~= seq![d] + low@.reverse());
            assert(dec_rep(m as nat) =~= dec_rep((m / 10) as nat).push(d));
            assert(dec_rep((m / 10) as nat).push(d) =~= dec_rep((m / 10) as nat) + seq![d]);
            assert(dec_rep((m / 10) as nat) + pushed.reverse() =~= dec_rep(m as nat)
                + low@.reverse());
        }
        low.push(d);
        m = m / 10;
    }
    let mut r: Vec<u8> = Vec::new();
    r.push(0x30 + m as u8);
    proof {
        assert(r@ =~= dec_rep(m as nat));
    }
    while low.len() > 0
        invariant
            r@ + low@.reverse() == dec_rep(n as nat),
        decreases low.len(),
    {
        let ghost prev = low@;
        let d = low.pop().unwrap();
        proof {
            assert(prev =~= low@.push(d));
            assert(prev.reverse() =~= seq![d] + low@.reverse());
            assert(r@.push(d) + low@.reverse() =~= r@ + prev.reverse());
        }
        r.push(d);
    }
    proof {
        assert(r@ =~= r@ + low@.reverse());
    }
    r
}

/// Relies on `String::from_utf8`: bytes below 0x80 are one-byte UTF-8
/// sequences, so they decode to one character each with the same code
/// points, and decoding cannot fail.
#[verifier::external_body]
fn ascii_string(bytes: Vec<u8>) -> (r: String)
    requires
        forall|i: int| 0 <= i < bytes@.len() ==> bytes@[i] < 0x80,
    ensures
        r@.len() == bytes@.len(),
        forall|i: int| 0 <= i < bytes@.len() ==> r@[i] == bytes@[i] as char,
{
    String::from_utf8(bytes).unwrap_or_default()
}

/// `n` in decimal, as text.
pub fn decimal_string(n: u128) -> (r: String)
    ensures
        r@ == dec_chars(n as nat),
{
    let digits = decimal_ascii(n);
    proof {
        lemma_dec_rep_digits(n as nat);
    }
    let r = ascii_string(digits);
    proof {
        assert(r@ =~= dec_chars(n as nat));
    }
    r
}

} // verus!
