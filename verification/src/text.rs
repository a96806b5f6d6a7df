use vstd::prelude::*;
use vstd::utf8::*;

verus! {

broadcast use vstd::utf8::encode_utf8_valid_utf8;

/// The UTF-8 bytes of a character sequence.
pub open spec fn utf8_bytes(s: Seq<char>) -> Seq<u8> {
    encode_utf8(s)
}

/// The largest character boundary of `bytes` that is at most `limit`
/// (all of `bytes` when `limit` reaches its length).
pub open spec fn boundary_at_or_below(bytes: Seq<u8>, limit: int) -> int
    decreases limit,
{
    if limit <= 0 {
        0
    } else if limit >= bytes.len() {
        bytes.len() as int
    } else if is_char_boundary(bytes, limit) {
        limit
    } else {
        boundary_at_or_below(bytes, limit - 1)
    }
}

/// `boundary_at_or_below` is a character boundary, it lies in `0..=limit`
/// (for a non-negative limit), and no boundary lies strictly between it and `limit`.
pub proof fn lemma_boundary_at_or_below(bytes: Seq<u8>, limit: int)
    requires
        valid_utf8(bytes),
        0 <= limit,
    ensures
        0 <= boundary_at_or_below(bytes, limit) <= limit,
        boundary_at_or_below(bytes, limit) <= bytes.len(),
        is_char_boundary(bytes, boundary_at_or_below(bytes, limit)),
        forall|j: int|
            boundary_at_or_below(bytes, limit) < j <= limit && j <= bytes.len() ==> !is_char_boundary(
                bytes,
                j,
            ),
    decreases limit,
{
    broadcast use vstd::utf8::is_char_boundary_start_end_of_seq;

    if limit <= 0 {
    } else if limit >= bytes.len() {
    } else if is_char_boundary(bytes, limit) {
    } else {
        lemma_boundary_at_or_below(bytes, limit - 1);
    }
}

/// Cutting valid UTF-8 at a character boundary keeps a prefix of the characters.
pub proof fn lemma_cut_is_prefix(s: Seq<char>, cut: int)
    requires
        is_char_boundary(utf8_bytes(s), cut),
    ensures
        decode_utf8(utf8_bytes(s).subrange(0, cut)).len() <= s.len(),
        decode_utf8(utf8_bytes(s).subrange(0, cut)) == s.take(
            decode_utf8(utf8_bytes(s).subrange(0, cut)).len() as int,
        ),
{
    broadcast use vstd::utf8::encode_utf8_decode_utf8, vstd::utf8::decode_utf8_split;

    let bytes = utf8_bytes(s);
    let head = decode_utf8(bytes.subrange(0, cut));
    let tail = decode_utf8(bytes.subrange(cut, bytes.len() as int));
    assert(s == head + tail);
    assert(s.take(head.len() as int) =~= head);
}

/// The decimal digit `d` (0 to 9) as a character.
pub open spec fn digit_char(d: int) -> char {
    (48 + d) as char
}

/// The decimal numeral of `n`, without sign or leading zeros.
pub open spec fn decimal(n: nat) -> Seq<char>
    decreases n,
{
    if n < 10 {
        seq![digit_char(n as int)]
    } else {
        decimal(n / 10).push(digit_char((n % 10) as int))
    }
}

/// The number that the decimal digits `digits` denote, most significant first.
pub open spec fn digits_value(digits: Seq<char>) -> int
    decreases digits.len(),
{
    if digits.len() == 0 {
        0
    } else {
        10 * digits_value(digits.drop_last()) + (digits.last() as int - 48)
    }
}

/// A decimal digit's character reads back as that digit.
pub proof fn lemma_digit_char_value(d: int)
    requires
        0 <= d < 10,
    ensures
        digit_char(d) as int == 48 + d,
        '0' <= digit_char(d) <= '9',
{
    assert(((48 + d) as char) as u32 == (48 + d) as u32);
}

/// `decimal(n)` is the decimal numeral of `n`: it is made of the digits
/// '0' to '9', has no leading zero (unless it is "0"), and read back in base
/// ten it gives `n`. Appending a digit `d` to the numeral of `m > 0` gives the
/// numeral of `10 * m + d`.
pub proof fn law_decimal_numeral(n: nat)
    ensures
        decimal(n).len() > 0,
        forall|i: int| 0 <= i < decimal(n).len() ==> '0' <= #[trigger] decimal(n)[i] <= '9',
        n > 0 ==> decimal(n)[0] != '0',
        n == 0 ==> decimal(n) == seq!['0'],
        digits_value(decimal(n)) == n,
        forall|m: nat, d: nat|
            m > 0 && d < 10 && n == 10 * m + d ==> decimal(n) == #[trigger] decimal(m).push(
                (48 + d) as char,
            ),
    decreases n,
{
    if n >= 10 {
        law_decimal_numeral(n / 10);
        lemma_digit_char_value((n % 10) as int);
        let s = decimal(n);
        assert(s.drop_last() =~= decimal(n / 10));
        assert forall|i: int| 0 <= i < s.len() implies '0' <= #[trigger] s[i] <= '9' by {
            if i < s.len() - 1 {
                assert(s[i] == decimal(n / 10)[i]);
            }
        }
        assert(s[0] == decimal(n / 10)[0]);
        assert(s.last() == digit_char((n % 10) as int));
        assert(digits_value(s) == 10 * digits_value(decimal(n / 10)) + (n % 10));
        assert(10 * (n / 10) + n % 10 == n);
        assert forall|m: nat, d: nat|
            m > 0 && d < 10 && n == 10 * m + d implies decimal(n) == #[trigger] decimal(m).push(
            (48 + d) as char,
        ) by {
            assert(m == n / 10 && d == n % 10);
        }
    } else {
        lemma_digit_char_value(n as int);
        assert(decimal(n).drop_last() =~= Seq::<char>::empty());
        assert(digits_value(decimal(n).drop_last()) == 0);
    }
}

/// The one-character text of the decimal digit `d`.
fn digit_text(d: usize) -> (res: &'static str)
    requires
        d < 10,
    ensures
        res@ == seq![digit_char(d as int)],
{
    proof {
        reveal_strlit("0");
        reveal_strlit("1");
        reveal_strlit("2");
        reveal_strlit("3");
        reveal_strlit("4");
        reveal_strlit("5");
        reveal_strlit("6");
        reveal_strlit("7");
        reveal_strlit("8");
        reveal_strlit("9");
    }
    match d {
        0 => "0",
        1 => "1",
        2 => "2",
        3 => "3",
        4 => "4",
        5 => "5",
        6 => "6",
        7 => "7",
        8 => "8",
        _ => "9",
    }
}

/// `n` written in decimal, as `n.to_string()` writes it.
pub fn decimal_text(n: usize) -> (res: String)
    ensures
        res@ == decimal(n as nat),
    decreases n,
{
    if n < 10 {
        digit_text(n).to_string()
    } else {
        let mut text = decimal_text(n / 10);
        text.append(digit_text(n % 10));
        text
    }
}

} // verus!
