use vstd::prelude::*;
use vstd::string::{StrSliceExecFns, StringExecFns, StringSliceAdditionalSpecFns};
use vstd::utf8::{decode_utf8, encode_utf8, is_char_boundary};

verus! {

/// The decimal digit character of a value below 10.
pub open spec fn digit_char(d: nat) -> char {
    "0123456789"@[d as int]
}

/// The decimal text of a natural number, without leading zeros.
pub open spec fn decimal(n: nat) -> Seq<char>
    decreases n,
{
    if n < 10 {
        seq![digit_char(n)]
    } else {
        decimal(n / 10).push(digit_char(n % 10))
    }
}

/// Writes a number in decimal.
pub fn decimal_text(n: u64) -> (r: String)
    ensures
        r@ == decimal(n as nat),
{
    let digits = "0123456789";
    proof {
        reveal_strlit("0123456789");
    }
    let first = (n % 10) as usize;
    let mut s = digits.substring_char(first, first + 1).to_owned();
    assert(s@ =~= seq![digit_char((n % 10) as nat)]);
    let mut m: u64 = n / 10;
    assert(m > 0 ==> decimal(n as nat) =~= decimal(m as nat) + s@);
    while m > 0
        invariant
            digits@ == "0123456789"@,
            digits@.len() == 10,
            m == 0 ==> s@ == decimal(n as nat),
            m > 0 ==> decimal(n as nat) == decimal(m as nat) + s@,
        decreases m,
    {
        let d = (m % 10) as usize;
        let one = digits.substring_char(d, d + 1).to_owned();
        assert(one@ =~= seq![digit_char((m % 10) as nat)]);
        s = one.concat(s.as_str());
        proof {
            if m >= 10 {
                assert(decimal(n as nat) =~= decimal((m / 10) as nat) + s@);
            } else {
                assert(decimal(n as nat) =~= s@);
            }
        }
        m = m / 10;
    }
    s
}

/// Longest text, in UTF-8 bytes, shown whole; a longer one keeps only its end.
pub const TRIM_LEN: usize = 32;

/// The first character start at or after byte `k` of UTF-8 bytes `b`.
pub open spec fn next_boundary(b: Seq<u8>, k: int) -> int
    decreases b.len() - k,
{
    if k >= b.len() || is_char_boundary(b, k) {
        k
    } else {
        next_boundary(b, k + 1)
    }
}

/// A text cut for display: where its UTF-8 is longer than 32 bytes, "..." and
/// then its last 32 bytes, or, where those begin inside a character, the
/// shortest tail of at most 32 bytes that begins on a character.
pub open spec fn trim_spec(s: Seq<char>) -> Seq<char> {
    let b = encode_utf8(s);
    if b.len() > TRIM_LEN {
        "..."@ + decode_utf8(b.subrange(next_boundary(b, b.len() - TRIM_LEN), b.len() as int))
    } else {
        s
    }
}

/// Shortens a text for display, counting UTF-8 bytes.
pub fn trim_str(s: &str) -> (r: String)
    ensures
        r@ == trim_spec(s@),
{
    broadcast use vstd::utf8::encode_utf8_valid_utf8, vstd::utf8::is_char_boundary_start_end_of_seq, vstd::utf8::encode_utf8_decode_utf8;

    let n = s.as_bytes().len();
    let ghost b = s.spec_bytes();
    if n > TRIM_LEN {
        let mut k: usize = n - TRIM_LEN;
        while k < n && !s.is_char_boundary(k)
            invariant
                b == encode_utf8(s@),
                n == b.len(),
                n - TRIM_LEN <= k <= n,
                next_boundary(b, (n - TRIM_LEN) as int) == next_boundary(b, k as int),
            decreases n - k,
        {
            k = k + 1;
        }
        assert(next_boundary(b, k as int) == k as int);
        assert(is_char_boundary(b, k as int));
        let (_, tail) = s.split_at(k);
        assert(tail.spec_bytes() =~= b.subrange(k as int, n as int));
        assert(decode_utf8(encode_utf8(tail@)) == tail@);
        "...".to_owned().concat(tail)
    } else {
        s.to_owned()
    }
}

} // verus!
