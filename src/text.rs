//! Rendering of numbers and bytes as text: lower-case hex and decimal.
use vstd::prelude::*;

verus! {

/// The sixteen digit characters, in order of value.
pub open spec fn digit_chars() -> Seq<char> {
    seq!['0', '1', '2', '3', '4', '5', '6', '7', '8', '9', 'a', 'b', 'c', 'd', 'e', 'f']
}

/// The character for a digit value below sixteen.
pub open spec fn digit_char(d: int) -> char {
    digit_chars()[d]
}

/// Two lower-case hex digits per byte, high nibble first.
pub open spec fn hex_of(b: Seq<u8>) -> Seq<char>
    decreases b.len(),
{
    if b.len() == 0 {
        Seq::empty()
    } else {
        let last = b.last() as int;
        hex_of(b.drop_last()) + seq![digit_char(last / 16), digit_char(last % 16)]
    }
}

/// Decimal digits of a natural number, without leading zeros.
pub open spec fn decimal_of(n: nat) -> Seq<char>
    decreases n,
{
    if n < 10 {
        seq![digit_char(n as int)]
    } else {
        decimal_of(n / 10) + seq![digit_char((n % 10) as int)]
    }
}

/// Decimal text of a signed number, with a leading '-' when negative.
pub open spec fn signed_decimal_of(n: int) -> Seq<char> {
    if n < 0 {
        seq!['-'] + decimal_of((-n) as nat)
    } else {
        decimal_of(n as nat)
    }
}

pub proof fn lemma_hex_len(b: Seq<u8>)
    ensures
        hex_of(b).len() == 2 * b.len(),
    decreases b.len(),
{
    if b.len() > 0 {
        lemma_hex_len(b.drop_last());
    }
}

fn digit_text(d: u64) -> (r: &'static str)
    requires
        d < 16,
    ensures
        r@ == seq![digit_char(d as int)],
{
    let all = "0123456789abcdef";
    proof {
        reveal_strlit("0123456789abcdef");
    }
    assert(all@ =~= digit_chars());
    let r = all.substring_char(d as usize, (d + 1) as usize);
    assert(r@ =~= seq![digit_char(d as int)]);
    r
}

/// Lower-case hex text of a byte sequence.
pub fn hex_lower(bytes: &Vec<u8>) -> (r: String)
    ensures
        r@ == hex_of(bytes@),
{
    let mut r = String::new();
    let mut i: usize = 0;
    while i < bytes.len()
        invariant
            i <= bytes@.len(),
            r@ == hex_of(bytes@.subrange(0, i as int)),
        decreases bytes@.len() - i,
    {
        let b = bytes[i];
        let hi = digit_text((b / 16) as u64);
        let lo = digit_text((b % 16) as u64);
        r.append(hi);
        r.append(lo);
        proof {
            let next = bytes@.subrange(0, i + 1);
            assert(next.drop_last() =~= bytes@.subrange(0, i as int));
            assert(next.last() == b);
        }
        i = i + 1;
    }
    assert(bytes@.subrange(0, bytes@.len() as int) =~= bytes@);
    r
}

fn unsigned_decimal(n: u64) -> (r: String)
    ensures
        r@ == decimal_of(n as nat),
    decreases n,
{
    if n < 10 {
        let mut r = String::new();
        r.append(digit_text(n));
        assert(r@ =~= decimal_of(n as nat));
        r
    } else {
        let mut r = unsigned_decimal(n / 10);
        r.append(digit_text(n % 10));
        r
    }
}

/// Decimal text of a signed 64-bit number.
pub fn signed_decimal(n: i64) -> (r: String)
    ensures
        r@ == signed_decimal_of(n as int),
{
    if n < 0 {
        let magnitude: u64 = (-(n as i128)) as u64;
        let digits = unsigned_decimal(magnitude);
        let mut r = String::new();
        let minus = "-";
        proof {
            reveal_strlit("-");
        }
        r.append(minus);
        r.append(digits.as_str());
        assert(r@ =~= signed_decimal_of(n as int));
        r
    } else {
        unsigned_decimal(n as u64)
    }
}

} // verus!
