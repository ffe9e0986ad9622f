//! Standard Base64 (RFC 4648, standard alphabet, with `=` padding): what the
//! encoder produces, stated over byte and character sequences, with its length
//! and its inverse.

use base64::Engine;
use vstd::prelude::*;

verus! {

/// The character of the standard Base64 alphabet for a six-bit value
/// (`A`-`Z`, `a`-`z`, `0`-`9`, `+`, `/`).
pub open spec fn base64_digit(v: int) -> char {
    if v < 26 {
        (65 + v) as char
    } else if v < 52 {
        (71 + v) as char
    } else if v < 62 {
        (v - 4) as char
    } else if v == 62 {
        '+'
    } else {
        '/'
    }
}

/// The six-bit value of a character of the standard Base64 alphabet (`0` for
/// any other character, padding included).
pub open spec fn base64_value(c: char) -> int {
    if 'A' <= c && c <= 'Z' {
        c as int - 65
    } else if 'a' <= c && c <= 'z' {
        c as int - 71
    } else if '0' <= c && c <= '9' {
        c as int + 4
    } else if c == '+' {
        62
    } else if c == '/' {
        63
    } else {
        0
    }
}

/// The 24-bit number that three bytes make, most significant first.
pub open spec fn triple(a: int, b: int, c: int) -> int {
    a * 65536 + b * 256 + c
}

/// The four characters that stand for a 24-bit number.
pub open spec fn quad(n: int) -> Seq<char> {
    seq![
        base64_digit(n / 262144),
        base64_digit((n / 4096) % 64),
        base64_digit((n / 64) % 64),
        base64_digit(n % 64),
    ]
}

/// Standard Base64 with padding: each group of three bytes becomes four
/// characters; a final group of one or two bytes becomes two or three
/// characters followed by `==` or `=`.
pub open spec fn base64_standard(data: Seq<u8>) -> Seq<char>
    decreases data.len(),
{
    if data.len() == 0 {
        Seq::empty()
    } else if data.len() == 1 {
        let q = quad(triple(data[0] as int, 0, 0));
        seq![q[0], q[1], '=', '=']
    } else if data.len() == 2 {
        let q = quad(triple(data[0] as int, data[1] as int, 0));
        seq![q[0], q[1], q[2], '=']
    } else {
        quad(triple(data[0] as int, data[1] as int, data[2] as int)) + base64_standard(
            data.subrange(3, data.len() as int),
        )
    }
}

/// The number that four Base64 characters stand for (padding counts as zero).
pub open spec fn unquad(s: Seq<char>) -> int {
    base64_value(s[0]) * 262144 + base64_value(s[1]) * 4096 + base64_value(s[2]) * 64
        + base64_value(s[3])
}

/// Decoding of padded standard Base64, four characters at a time.
pub open spec fn base64_decode(s: Seq<char>) -> Seq<u8>
    decreases s.len(),
{
    if s.len() < 4 {
        Seq::empty()
    } else {
        let n = unquad(s);
        let bytes: Seq<u8> = if s[2] == '=' {
            seq![(n / 65536) as u8]
        } else if s[3] == '=' {
            seq![(n / 65536) as u8, ((n / 256) % 256) as u8]
        } else {
            seq![(n / 65536) as u8, ((n / 256) % 256) as u8, (n % 256) as u8]
        };
        bytes + base64_decode(s.subrange(4, s.len() as int))
    }
}

/// Calls `Engine::encode` of `base64::engine::general_purpose::STANDARD`,
/// the engine that the crate documents as the standard alphabet with padding
/// (RFC 4648); the result is that encoding, [`base64_standard`]. The encoder
/// panics when the output length overflows `usize`; `requires` keeps the
/// input short enough for that not to happen.
#[verifier::external_body]
pub(crate) fn encode_base64(data: &[u8]) -> (r: String)
    requires
        data@.len() <= usize::MAX / 2,
    ensures
        r@ == base64_standard(data@),
{
    base64::engine::general_purpose::STANDARD.encode(data)
}

/// Every value of six bits has its own alphabet character, which is not the
/// padding character, and which reads back as that value.
pub proof fn base64_digit_reads_back(v: int)
    requires
        0 <= v < 64,
    ensures
        base64_value(base64_digit(v)) == v,
        base64_digit(v) != '=',
{
}

proof fn lemma_triple_splits(a: int, b: int, c: int)
    requires
        0 <= a < 256,
        0 <= b < 256,
        0 <= c < 256,
    ensures
        ({
            let n = triple(a, b, c);
            &&& 0 <= n < 16777216
            &&& (n / 262144) * 262144 + ((n / 4096) % 64) * 4096 + ((n / 64) % 64) * 64 + n % 64
                == n
            &&& n / 65536 == a
            &&& (n / 256) % 256 == b
            &&& n % 256 == c
            &&& c == 0 ==> n % 64 == 0
            &&& b == 0 && c == 0 ==> (n / 64) % 64 == 0
        }),
{
    let n = triple(a, b, c);
    assert(0 <= n < 16777216);
    assert((n / 262144) * 262144 + ((n / 4096) % 64) * 4096 + ((n / 64) % 64) * 64 + n % 64 == n)
        by (nonlinear_arith)
        requires
            0 <= n,
    ;
    assert(n / 65536 == a) by (nonlinear_arith)
        requires
            n == a * 65536 + b * 256 + c,
            0 <= b < 256,
            0 <= c < 256,
            0 <= a,
    ;
    assert((n / 256) % 256 == b) by (nonlinear_arith)
        requires
            n == a * 65536 + b * 256 + c,
            0 <= b < 256,
            0 <= c < 256,
            0 <= a,
    ;
    assert(n % 256 == c) by (nonlinear_arith)
        requires
            n == a * 65536 + b * 256 + c,
            0 <= c < 256,
            0 <= a,
            0 <= b,
    ;
    if c == 0 {
        assert(n % 64 == 0) by (nonlinear_arith)
            requires
                n == a * 65536 + b * 256,
                0 <= a,
                0 <= b,
        ;
    }
    if b == 0 && c == 0 {
        assert((n / 64) % 64 == 0) by (nonlinear_arith)
            requires
                n == a * 65536,
                0 <= a,
        ;
    }
}

/// Standard Base64 text is four characters for every started group of three
/// bytes.
pub proof fn base64_length(data: Seq<u8>)
    ensures
        base64_standard(data).len() == 4 * ((data.len() + 2) / 3),
    decreases data.len(),
{
    if data.len() >= 3 {
        base64_length(data.subrange(3, data.len() as int));
    }
}

/// Decoding the standard Base64 text of any bytes gives those bytes back.
pub proof fn base64_round_trip(data: Seq<u8>)
    ensures
        base64_decode(base64_standard(data)) == data,
    decreases data.len(),
{
    let s = base64_standard(data);
    if data.len() == 0 {
    } else if data.len() == 1 {
        let n = triple(data[0] as int, 0, 0);
        lemma_triple_splits(data[0] as int, 0, 0);
        base64_digit_reads_back(n / 262144);
        base64_digit_reads_back((n / 4096) % 64);
        assert(s.subrange(4, 4) =~= Seq::<char>::empty());
        assert(base64_decode(s.subrange(4, 4)) =~= Seq::<u8>::empty());
        assert(unquad(s) == n);
        assert(base64_decode(s) =~= data);
    } else if data.len() == 2 {
        let n = triple(data[0] as int, data[1] as int, 0);
        lemma_triple_splits(data[0] as int, data[1] as int, 0);
        base64_digit_reads_back(n / 262144);
        base64_digit_reads_back((n / 4096) % 64);
        base64_digit_reads_back((n / 64) % 64);
        assert(s.subrange(4, 4) =~= Seq::<char>::empty());
        assert(base64_decode(s.subrange(4, 4)) =~= Seq::<u8>::empty());
        assert(unquad(s) == n);
        assert(base64_decode(s) =~= data);
    } else {
        let rest = data.subrange(3, data.len() as int);
        let n = triple(data[0] as int, data[1] as int, data[2] as int);
        lemma_triple_splits(data[0] as int, data[1] as int, data[2] as int);
        base64_digit_reads_back(n / 262144);
        base64_digit_reads_back((n / 4096) % 64);
        base64_digit_reads_back((n / 64) % 64);
        base64_digit_reads_back(n % 64);
        base64_round_trip(rest);
        assert(s.subrange(4, s.len() as int) =~= base64_standard(rest));
        assert(unquad(s) == n);
        assert(base64_decode(s) =~= data);
    }
}

} // verus!
