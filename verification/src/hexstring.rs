//! The byte/text codec of the library's edge: raw byte sequences rendered as
//! lowercase hexadecimal text, and hexadecimal text of either case read back
//! into bytes.

use vstd::prelude::*;

verus! {

/// Errors of the hexadecimal text codec.
#[derive(Clone, Copy, Debug, PartialEq, Eq, Structural)]
pub enum HexError {
    /// The text holds an odd number of digits.
    OddLength,
    /// The text holds a character that is no hexadecimal digit.
    InvalidHexCharacter,
}

/// The sixteen lowercase hexadecimal digits, in value order.
pub open spec fn spec_hex_digits() -> Seq<char> {
    "0123456789abcdef"@
}

/// The lowercase digit of one nibble.
pub open spec fn spec_hex_char(n: u8) -> char
    recommends
        n < 16,
{
    spec_hex_digits()[n as int]
}

/// The lowercase hexadecimal rendering of a byte sequence: two digits per
/// byte, high nibble first.
pub open spec fn spec_hex_of(b: Seq<u8>) -> Seq<char>
    decreases b.len(),
{
    if b.len() == 0 {
        Seq::empty()
    } else {
        seq![spec_hex_char((b[0] / 16) as u8), spec_hex_char((b[0] % 16) as u8)] + spec_hex_of(
            b.drop_first(),
        )
    }
}

/// Whether `c` is a hexadecimal digit of either case.
pub open spec fn is_hex_digit(c: char) -> bool {
    (48 <= c as u32 && c as u32 <= 57) || (97 <= c as u32 && c as u32 <= 102) || (65 <= c as u32
        && c as u32 <= 70)
}

/// The nibble value of a hexadecimal digit of either case.
pub open spec fn spec_hex_digit_value(c: char) -> u8
    recommends
        is_hex_digit(c),
{
    if 48 <= c as u32 && c as u32 <= 57 {
        (c as u32 - 48) as u8
    } else if 97 <= c as u32 && c as u32 <= 102 {
        (c as u32 - 87) as u8
    } else {
        (c as u32 - 55) as u8
    }
}

/// Whether every character of `s` is a hexadecimal digit.
pub open spec fn all_hex_digits(s: Seq<char>) -> bool {
    forall|i: int| 0 <= i < s.len() ==> is_hex_digit(#[trigger] s[i])
}

/// The bytes that a well-formed hexadecimal text denotes, two digits a byte.
pub open spec fn spec_hex_decode(s: Seq<char>) -> Seq<u8>
    recommends
        s.len() % 2 == 0,
        all_hex_digits(s),
    decreases s.len(),
{
    if s.len() < 2 {
        Seq::empty()
    } else {
        seq![(spec_hex_digit_value(s[0]) * 16 + spec_hex_digit_value(s[1])) as u8]
            + spec_hex_decode(s.skip(2))
    }
}

proof fn lemma_hex_of_snoc(b: Seq<u8>, x: u8)
    ensures
        spec_hex_of(b.push(x)) == spec_hex_of(b) + seq![
            spec_hex_char((x / 16) as u8),
            spec_hex_char((x % 16) as u8),
        ],
    decreases b.len(),
{
    let two = seq![spec_hex_char((x / 16) as u8), spec_hex_char((x % 16) as u8)];
    if b.len() == 0 {
        assert(b.push(x).drop_first() =~= Seq::<u8>::empty());
        assert(spec_hex_of(Seq::<u8>::empty()) =~= Seq::<char>::empty());
        assert(b.push(x)[0] == x);
        assert(spec_hex_of(b.push(x)) =~= spec_hex_of(b) + two);
    } else {
        assert(b.push(x).drop_first() =~= b.drop_first().push(x));
        lemma_hex_of_snoc(b.drop_first(), x);
        assert(b.push(x)[0] == b[0]);
        assert(spec_hex_of(b.push(x)) =~= spec_hex_of(b) + two);
    }
}

/// Each nibble's digit decodes back to the nibble, for every nibble value.
proof fn lemma_hex_char_value(n: u8)
    requires
        n < 16,
    ensures
        is_hex_digit(spec_hex_char(n)),
        spec_hex_digit_value(spec_hex_char(n)) == n,
{
    reveal_strlit("0123456789abcdef");
    if n < 10 {
        assert(spec_hex_char(n) as u32 == 48 + n) by {
            assert(spec_hex_digits()[0] == '0');
            assert(spec_hex_digits()[1] == '1');
            assert(spec_hex_digits()[2] == '2');
            assert(spec_hex_digits()[3] == '3');
            assert(spec_hex_digits()[4] == '4');
            assert(spec_hex_digits()[5] == '5');
            assert(spec_hex_digits()[6] == '6');
            assert(spec_hex_digits()[7] == '7');
            assert(spec_hex_digits()[8] == '8');
            assert(spec_hex_digits()[9] == '9');
        }
    } else {
        assert(spec_hex_char(n) as u32 == 87 + n) by {
            assert(spec_hex_digits()[10] == 'a');
            assert(spec_hex_digits()[11] == 'b');
            assert(spec_hex_digits()[12] == 'c');
            assert(spec_hex_digits()[13] == 'd');
            assert(spec_hex_digits()[14] == 'e');
            assert(spec_hex_digits()[15] == 'f');
        }
    }
}

/// Rendering bytes as hexadecimal text loses nothing: the text is twice as
/// long, holds digits only, and decodes back to the very same bytes.
pub proof fn lemma_hex_round_trip(b: Seq<u8>)
    ensures
        spec_hex_of(b).len() == 2 * b.len(),
        all_hex_digits(spec_hex_of(b)),
        spec_hex_decode(spec_hex_of(b)) == b,
    decreases b.len(),
{
    if b.len() == 0 {
        assert(spec_hex_decode(spec_hex_of(b)) =~= b);
    } else {
        let s = spec_hex_of(b);
        let rest = spec_hex_of(b.drop_first());
        lemma_hex_round_trip(b.drop_first());
        lemma_hex_char_value((b[0] / 16) as u8);
        lemma_hex_char_value((b[0] % 16) as u8);
        assert(s[0] == spec_hex_char((b[0] / 16) as u8));
        assert(s[1] == spec_hex_char((b[0] % 16) as u8));
        assert(forall|i: int| 0 <= i < rest.len() ==> s[i + 2] == #[trigger] rest[i]);
        assert(all_hex_digits(s));
        assert(s.skip(2) =~= rest);
        assert(spec_hex_digit_value(s[0]) * 16 + spec_hex_digit_value(s[1]) == (b[0] / 16) * 16 + (
        b[0] % 16));
        assert((b[0] / 16) * 16 + (b[0] % 16) == b[0]) by {
            vstd::arithmetic::div_mod::lemma_fundamental_div_mod(b[0] as int, 16);
        }
        assert(spec_hex_decode(spec_hex_of(b)) =~= b);
    }
}

/// Renders a byte sequence as lowercase hexadecimal text, two digits a byte.
pub fn bytes_to_hex_string(bytes: &Vec<u8>) -> (r: String)
    ensures
        r@ == spec_hex_of(bytes@),
{
    let digits: &str = "0123456789abcdef";
    proof {
        reveal_strlit("0123456789abcdef");
    }
    let mut s = String::new();
    let mut i: usize = 0;
    while i < bytes.len()
        invariant
            i <= bytes@.len(),
            s@ == spec_hex_of(bytes@.take(i as int)),
            digits@ == spec_hex_digits(),
        decreases bytes@.len() - i,
    {
        proof {
            reveal_strlit("0123456789abcdef");
            assert(digits@.len() == 16);
            assert(digits.is_ascii());
        }
        let b = bytes[i];
        let hi = (b / 16) as usize;
        let lo = (b % 16) as usize;
        let d1 = digits.substring_ascii(hi, hi + 1);
        s.append(d1);
        let d2 = digits.substring_ascii(lo, lo + 1);
        s.append(d2);
        proof {
            assert(bytes@.take(i + 1 as int) =~= bytes@.take(i as int).push(bytes@[i as int]));
            lemma_hex_of_snoc(bytes@.take(i as int), bytes@[i as int]);
            assert(d1@ =~= seq![spec_hex_char((b / 16) as u8)]);
            assert(d2@ =~= seq![spec_hex_char((b % 16) as u8)]);
            assert(s@ =~= spec_hex_of(bytes@.take(i + 1 as int)));
        }
        i = i + 1;
    }
    proof {
        assert(bytes@.take(bytes@.len() as int) =~= bytes@);
    }
    s
}

/// Classifies one character: its nibble value when it is a hexadecimal digit.
fn hex_digit_value(c: char) -> (r: Option<u8>)
    ensures
        r is Some <==> is_hex_digit(c),
        is_hex_digit(c) ==> r == Option::Some(spec_hex_digit_value(c)),
        r is Some ==> r->0 < 16,
{
    let u = c as u32;
    if 48 <= u && u <= 57 {
        Some((u - 48) as u8)
    } else if 97 <= u && u <= 102 {
        Some((u - 87) as u8)
    } else if 65 <= u && u <= 70 {
        Some((u - 55) as u8)
    } else {
        None
    }
}

proof fn lemma_hex_decode_snoc2(s: Seq<char>, c1: char, c2: char)
    requires
        s.len() % 2 == 0,
    ensures
        spec_hex_decode(s.push(c1).push(c2)) == spec_hex_decode(s) + seq![
            (spec_hex_digit_value(c1) * 16 + spec_hex_digit_value(c2)) as u8,
        ],
    decreases s.len(),
{
    let one = seq![(spec_hex_digit_value(c1) * 16 + spec_hex_digit_value(c2)) as u8];
    if s.len() == 0 {
        assert(s.push(c1).push(c2).skip(2) =~= Seq::<char>::empty());
        assert(spec_hex_decode(Seq::<char>::empty()) =~= Seq::<u8>::empty());
        assert(s.push(c1).push(c2)[0] == c1);
        assert(s.push(c1).push(c2)[1] == c2);
        assert(spec_hex_decode(s.push(c1).push(c2)) =~= spec_hex_decode(s) + one);
    } else {
        assert(s.push(c1).push(c2).skip(2) =~= s.skip(2).push(c1).push(c2));
        lemma_hex_decode_snoc2(s.skip(2), c1, c2);
        assert(s.push(c1).push(c2)[0] == s[0]);
        assert(s.push(c1).push(c2)[1] == s[1]);
        assert(spec_hex_decode(s.push(c1).push(c2)) =~= spec_hex_decode(s) + one);
    }
}

/// Reads hexadecimal text back into bytes. Text of odd length is rejected as
/// `OddLength`; text holding a character that is no hexadecimal digit is
/// rejected as `InvalidHexCharacter`; everything else decodes, two digits a
/// byte.
pub fn hex_string_to_bytes(string: String) -> (r: Result<Vec<u8>, HexError>)
    ensures
        string@.len() % 2 != 0 ==> r == Err::<Vec<u8>, HexError>(HexError::OddLength),
        string@.len() % 2 == 0 && !all_hex_digits(string@) ==> r == Err::<Vec<u8>, HexError>(
            HexError::InvalidHexCharacter,
        ),
        string@.len() % 2 == 0 && all_hex_digits(string@) ==> r is Ok && r->Ok_0@
            == spec_hex_decode(string@),
{
    let n = string.as_str().unicode_len();
    if n % 2 != 0 {
        return Err(HexError::OddLength);
    }
    let mut out: Vec<u8> = Vec::new();
    let mut i: usize = 0;
    while i < n
        invariant
            n == string@.len(),
            n % 2 == 0,
            i % 2 == 0,
            i <= n,
            out@ == spec_hex_decode(string@.take(i as int)),
            forall|j: int| 0 <= j < i ==> is_hex_digit(#[trigger] string@[j]),
        decreases n - i,
    {
        let c1 = string.as_str().get_char(i);
        let c2 = string.as_str().get_char(i + 1);
        let v1 = match hex_digit_value(c1) {
            Some(v) => v,
            None => {
                proof {
                    assert(!is_hex_digit(string@[i as int]));
                }
                return Err(HexError::InvalidHexCharacter);
            },
        };
        let v2 = match hex_digit_value(c2) {
            Some(v) => v,
            None => {
                proof {
                    assert(!is_hex_digit(string@[i + 1 as int]));
                }
                return Err(HexError::InvalidHexCharacter);
            },
        };
        out.push(v1 * 16 + v2);
        proof {
            assert(string@.take(i + 2 as int) =~= string@.take(i as int).push(
                string@[i as int],
            ).push(string@[i + 1 as int]));
            lemma_hex_decode_snoc2(string@.take(i as int), string@[i as int], string@[i + 1 as int]);
            assert(out@ =~= spec_hex_decode(string@.take(i + 2 as int)));
        }
        i = i + 2;
    }
    proof {
        assert(string@.take(string@.len() as int) =~= string@);
    }
    Ok(out)
}

} // verus!
