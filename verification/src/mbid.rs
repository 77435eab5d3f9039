//! The stable entity identifier: a 128-bit universally unique identifier
//! with a verified codec for the canonical hyphenated text form
//! (8-4-4-4-12 hexadecimal digits).
use vstd::prelude::*;
use vstd::arithmetic::div_mod::{
    lemma_breakdown, lemma_div_denominator, lemma_div_pos_is_pos,
    lemma_mod_division_less_than_divisor, lemma_small_mod,
};
use vstd::string::{StrSliceExecFns, StringExecFns};
use crate::error::Error;

verus! {

/// A unique entity identifier: 128 bits, written canonically as 32
/// hexadecimal digits with hyphens after the 8th, 12th, 16th and 20th.
#[derive(Clone, Copy, Debug, PartialEq, Eq, Structural)]
pub struct Uuid {
    pub value: u128,
}

/// Whether `c` is a hexadecimal digit (either case).
pub open spec fn is_hex_digit(c: char) -> bool {
    ||| '0' as u32 <= c as u32 && c as u32 <= '9' as u32
    ||| 'a' as u32 <= c as u32 && c as u32 <= 'f' as u32
    ||| 'A' as u32 <= c as u32 && c as u32 <= 'F' as u32
}

/// The numeric value of a hexadecimal digit.
pub open spec fn hex_digit_value(c: char) -> int {
    if '0' as u32 <= c as u32 && c as u32 <= '9' as u32 {
        c as u32 - '0' as u32
    } else if 'a' as u32 <= c as u32 && c as u32 <= 'f' as u32 {
        c as u32 - 'a' as u32 + 10
    } else {
        c as u32 - 'A' as u32 + 10
    }
}

/// The value of a big-endian sequence of hexadecimal digits.
pub open spec fn hex_value(s: Seq<char>) -> int
    decreases s.len(),
{
    if s.len() == 0 {
        0
    } else {
        hex_value(s.drop_last()) * 16 + hex_digit_value(s.last())
    }
}

/// Sixteen to the power `e`.
pub open spec fn pow16(e: nat) -> int
    decreases e,
{
    if e == 0 {
        1
    } else {
        16 * pow16((e - 1) as nat)
    }
}

/// `pow16` is positive.
proof fn lemma_pow16_pos(e: nat)
    ensures
        pow16(e) > 0,
    decreases e,
{
    if e > 0 {
        lemma_pow16_pos((e - 1) as nat);
    }
}

/// `pow16` is monotone in the exponent.
proof fn lemma_pow16_increases(e1: nat, e2: nat)
    requires
        e1 <= e2,
    ensures
        pow16(e1) <= pow16(e2),
    decreases e2,
{
    if e1 < e2 {
        lemma_pow16_increases(e1, (e2 - 1) as nat);
        lemma_pow16_pos((e2 - 1) as nat);
    }
}

/// The four indices at which the canonical form holds a hyphen.
pub open spec fn is_hyphen_position(i: int) -> bool {
    i == 8 || i == 13 || i == 18 || i == 23
}

/// What the canonical form requires of the character at index `i`.
pub open spec fn canonical_char_ok(s: Seq<char>, i: int) -> bool {
    if is_hyphen_position(i) {
        s[i] == '-'
    } else {
        is_hex_digit(s[i])
    }
}

/// Whether `s` is a canonical identifier: 36 characters, hyphens at the
/// four fixed positions, hexadecimal digits everywhere else.
pub open spec fn is_canonical_uuid(s: Seq<char>) -> bool {
    s.len() == 36 && (forall|i: int| 0 <= i < 36 ==> #[trigger] canonical_char_ok(s, i))
}

/// The index in the canonical form of the `j`-th hexadecimal digit.
pub open spec fn digit_position(j: int) -> int {
    if j < 8 {
        j
    } else if j < 12 {
        j + 1
    } else if j < 16 {
        j + 2
    } else if j < 20 {
        j + 3
    } else {
        j + 4
    }
}

/// How many of the first `i` characters of the canonical form are digits.
pub open spec fn digits_before(i: int) -> int {
    i - (if i > 8 { 1int } else { 0int }) - (if i > 13 { 1int } else { 0int }) - (if i > 18 {
        1int
    } else {
        0int
    }) - (if i > 23 { 1int } else { 0int })
}

/// The 32 hexadecimal digits of a canonical identifier, hyphens removed.
pub open spec fn uuid_digits(s: Seq<char>) -> Seq<char> {
    Seq::new(32, |j: int| s[digit_position(j)])
}

/// The numeric value a canonical identifier denotes.
pub open spec fn uuid_value_of(s: Seq<char>) -> int {
    hex_value(uuid_digits(s))
}

/// The lowercase hexadecimal digit of a value below 16.
pub open spec fn nibble_char(d: int) -> char {
    if d < 10 {
        ((48 + d) as u8) as char
    } else {
        ((87 + d) as u8) as char
    }
}

/// The canonical lowercase text of value `v`.
pub open spec fn canonical_text(v: int) -> Seq<char> {
    Seq::new(
        36,
        |i: int|
            if is_hyphen_position(i) {
                '-'
            } else {
                nibble_char((v / pow16((31 - digits_before(i)) as nat)) % 16)
            },
    )
}

/// The numeric value of one hexadecimal character, or `None` outside the
/// hexadecimal alphabet.
fn hex_digit_val(c: char) -> (r: Option<u8>)
    ensures
        match r {
            Some(d) => is_hex_digit(c) && d < 16 && d as int == hex_digit_value(c),
            None => !is_hex_digit(c),
        },
{
    let u = c as u32;
    if 48 <= u && u <= 57 {
        Some((u - 48) as u8)
    } else if 97 <= u && u <= 102 {
        Some((u - 87) as u8)
    } else if 65 <= u && u <= 70 {
        Some((u - 55) as u8)
    } else {
        None
    }
}

/// The single-character lowercase spelling of a hexadecimal digit.
fn nibble_str(d: u8) -> (r: &'static str)
    requires
        d < 16,
    ensures
        r@.len() == 1,
        r@[0] == nibble_char(d as int),
{
    proof {
        reveal_strlit("0");
        reveal_strlit("1");
        reveal_strlit("2");
        reveal_strlit("3");
        reveal_strlit("4");
        reveal_strlit("5");
        reveal_strlit("6");
        reveal_strlit("7");
        reveal_strlit("8");
        reveal_strlit("9");
        reveal_strlit("a");
        reveal_strlit("b");
        reveal_strlit("c");
        reveal_strlit("d");
        reveal_strlit("e");
        reveal_strlit("f");
    }
    match d {
        0 => "0",
        1 => "1",
        2 => "2",
        3 => "3",
        4 => "4",
        5 => "5",
        6 => "6",
        7 => "7",
        8 => "8",
        9 => "9",
        10 => "a",
        11 => "b",
        12 => "c",
        13 => "d",
        14 => "e",
        _ => "f",
    }
}

/// `pow16(32)` is exactly one more than the largest `u128`.
proof fn lemma_pow16_32()
    ensures
        pow16(32) == 0x100000000000000000000000000000000,
{
    reveal_with_fuel(pow16, 33);
}

impl Uuid {
    /// The nil identifier, all bits zero.
    pub fn nil() -> (r: Uuid)
        ensures
            r.value == 0,
    {
        Uuid { value: 0 }
    }

    /// Parses the canonical hyphenated text form. Succeeds exactly on
    /// canonical 36-character strings and yields the value they denote;
    /// anything else is an invalid identifier.
    pub fn parse_str(s: &str) -> (r: Result<Uuid, Error>)
        ensures
            match r {
                Ok(u) => is_canonical_uuid(s@) && u.value as int == uuid_value_of(s@),
                Err(e) => !is_canonical_uuid(s@) && e == Error::InvalidIdentifier,
            },
    {
        let n = s.unicode_len();
        if n != 36 {
            return Err(Error::InvalidIdentifier);
        }
        let mut value: u128 = 0;
        let mut i: usize = 0;
        while i < 36
            invariant
                s@.len() == 36,
                i <= 36,
                forall|p: int| 0 <= p < i ==> #[trigger] canonical_char_ok(s@, p),
                0 <= digits_before(i as int) <= 32,
                value < pow16(digits_before(i as int) as nat),
                value as int == hex_value(uuid_digits(s@).take(digits_before(i as int))),
            decreases 36 - i,
        {
            let ghost k = digits_before(i as int);
            let c = s.get_char(i);
            if i == 8 || i == 13 || i == 18 || i == 23 {
                if c != '-' {
                    proof {
                        assert(!canonical_char_ok(s@, i as int));
                    }
                    return Err(Error::InvalidIdentifier);
                }
                proof {
                    assert(digits_before(i as int + 1) == k);
                }
            } else {
                match hex_digit_val(c) {
                    None => {
                        proof {
                            assert(!canonical_char_ok(s@, i as int));
                        }
                        return Err(Error::InvalidIdentifier);
                    },
                    Some(d) => {
                        proof {
                            lemma_pow16_32();
                            assert(k <= 31);
                            lemma_pow16_increases(k as nat, 31);
                            assert(pow16(32) == 16 * pow16(31));
                            assert(pow16((k + 1) as nat) == 16 * pow16(k as nat));
                            assert(value * 16 + d < pow16((k + 1) as nat));
                        }
                        let new_value: u128 = value * 16 + (d as u128);
                        proof {
                            assert(digits_before(i as int + 1) == k + 1);
                            assert(digit_position(k) == i as int);
                            let digits = uuid_digits(s@);
                            assert(digits.take(k + 1).drop_last() =~= digits.take(k));
                            assert(digits.take(k + 1).last() == s@[i as int]);
                            assert(new_value as int == hex_value(digits.take(k + 1)));
                        }
                        value = new_value;
                    },
                }
            }
            i += 1;
        }
        proof {
            assert(is_canonical_uuid(s@));
            assert(digits_before(36) == 32);
            assert(uuid_digits(s@).take(32) =~= uuid_digits(s@));
        }
        Ok(Uuid { value })
    }

    /// The canonical lowercase hyphenated text of this identifier.
    pub fn hyphenated(&self) -> (r: String)
        ensures
            r@ == canonical_text(self.value as int),
    {
        let ghost v = self.value as int;
        // Little-endian digits: digits[m] == (v / 16^m) % 16.
        let mut digits: Vec<u8> = Vec::new();
        let mut rest: u128 = self.value;
        let mut m: usize = 0;
        while m < 32
            invariant
                m <= 32,
                rest as int == v / pow16(m as nat),
                digits@.len() == m,
                0 <= v,
                forall|q: int|
                    0 <= q < m ==> #[trigger] digits@[q] as int == (v / pow16(q as nat)) % 16,
            decreases 32 - m,
        {
            proof {
                assert(pow16(m as nat) > 0) by {
                    lemma_pow16_pos(m as nat);
                }
                lemma_mod_division_less_than_divisor(rest as int, 16);
                lemma_div_denominator(v, pow16(m as nat), 16);
                assert(pow16((m + 1) as nat) == 16 * pow16(m as nat));
                lemma_div_pos_is_pos(v, pow16(m as nat));
            }
            digits.push((rest % 16) as u8);
            rest = rest / 16;
            m += 1;
        }
        let mut out = String::new();
        let mut i: usize = 0;
        proof {
            reveal_strlit("-");
        }
        while i < 36
            invariant
                i <= 36,
                digits@.len() == 32,
                forall|q: int|
                    0 <= q < 32 ==> #[trigger] digits@[q] as int == (v / pow16(q as nat)) % 16,
                forall|q: int| 0 <= q < 32 ==> #[trigger] digits@[q] < 16,
                out@ == canonical_text(v).take(i as int),
                0 <= v,
                "-"@.len() == 1 && "-"@[0] == '-',
            decreases 36 - i,
        {
            let ghost before = out@;
            if i == 8 || i == 13 || i == 18 || i == 23 {
                out.append("-");
            } else {
                let ghost j = digits_before(i as int);
                proof {
                    assert(0 <= j <= 31);
                    lemma_pow16_pos((31 - j) as nat);
                    lemma_div_pos_is_pos(v, pow16((31 - j) as nat));
                    lemma_mod_division_less_than_divisor(v / pow16((31 - j) as nat), 16);
                }
                let idx: usize = 31 - (i - (if i > 8 { 1 } else { 0 }) - (if i > 13 {
                    1
                } else {
                    0
                }) - (if i > 18 {
                    1
                } else {
                    0
                }) - (if i > 23 {
                    1
                } else {
                    0
                }));
                proof {
                    assert(idx as int == 31 - j);
                }
                let d = digits[idx];
                out.append(nibble_str(d));
            }
            proof {
                assert(out@ =~= before.push(canonical_text(v)[i as int]));
                assert(canonical_text(v).take(i as int + 1) =~= canonical_text(v).take(
                    i as int,
                ).push(canonical_text(v)[i as int]));
            }
            i += 1;
        }
        proof {
            assert(canonical_text(v).take(36) =~= canonical_text(v));
        }
        out
    }
}

/// `hex_digit_value` inverts `nibble_char` on digit values.
proof fn lemma_nibble_char_value(d: int)
    requires
        0 <= d < 16,
    ensures
        is_hex_digit(nibble_char(d)),
        hex_digit_value(nibble_char(d)) == d,
{
}

/// One step of the digit expansion: the big-endian digits of `v` to `n`
/// places denote `v % 16^n`.
proof fn lemma_hex_value_of_digit_expansion(v: int, n: nat)
    requires
        0 <= v,
    ensures
        hex_value(
            Seq::new(n, |j: int| nibble_char((v / pow16((n - 1 - j) as nat)) % 16)),
        ) == v % pow16(n),
    decreases n,
{
    let s = Seq::new(n, |j: int| nibble_char((v / pow16((n - 1 - j) as nat)) % 16));
    lemma_pow16_pos(n);
    if n == 0 {
        assert(pow16(0) == 1);
        lemma_small_mod(0, 1);
        assert(v % 1 == 0) by {
            lemma_mod_division_less_than_divisor(v, 1);
        }
    } else {
        let prev = Seq::new(
            (n - 1) as nat,
            |j: int| nibble_char(((v / 16) / pow16((n - 2 - j) as nat)) % 16),
        );
        lemma_hex_value_of_digit_expansion(v / 16, (n - 1) as nat);
        assert forall|j: int| 0 <= j < n - 1 implies s.drop_last()[j] == prev[j] by {
            lemma_pow16_pos((n - 2 - j) as nat);
            lemma_div_denominator(v, 16, pow16((n - 2 - j) as nat));
            assert(16 * pow16((n - 2 - j) as nat) == pow16((n - 1 - j) as nat));
        }
        assert(s.drop_last() =~= prev);
        assert(pow16(0) == 1);
        assert(s.last() == nibble_char((v / 1) % 16));
        assert(v / 1 == v) by {
            vstd::arithmetic::div_mod::lemma_div_basics(v);
        }
        lemma_mod_division_less_than_divisor(v, 16);
        lemma_nibble_char_value(v % 16);
        lemma_mod_division_less_than_divisor(v / 16, pow16((n - 1) as nat));
        assert(hex_value(s) == ((v / 16) % pow16((n - 1) as nat)) * 16 + v % 16);
        lemma_breakdown(v, 16, pow16((n - 1) as nat));
        assert(v % (16 * pow16((n - 1) as nat)) == 16 * ((v / 16) % pow16((n - 1) as nat)) + v
            % 16);
        assert(16 * pow16((n - 1) as nat) == pow16(n));
    }
}

/// The identifier codec is lossless: the canonical text of any value is
/// canonical, and parsing it yields the value back.
pub proof fn lemma_uuid_codec_lossless(v: u128)
    ensures
        is_canonical_uuid(canonical_text(v as int)),
        uuid_value_of(canonical_text(v as int)) == v as int,
{
    let t = canonical_text(v as int);
    assert forall|i: int| 0 <= i < 36 implies #[trigger] canonical_char_ok(t, i) by {
        if !is_hyphen_position(i) {
            let j = digits_before(i);
            lemma_pow16_pos((31 - j) as nat);
            lemma_div_pos_is_pos(v as int, pow16((31 - j) as nat));
            lemma_mod_division_less_than_divisor(v as int / pow16((31 - j) as nat), 16);
            lemma_nibble_char_value((v as int / pow16((31 - j) as nat)) % 16);
        }
    }
    let expansion = Seq::new(
        32,
        |j: int| nibble_char((v as int / pow16((32 - 1 - j) as nat)) % 16),
    );
    assert forall|j: int| 0 <= j < 32 implies uuid_digits(t)[j] == expansion[j] by {
        assert(!is_hyphen_position(digit_position(j)));
        assert(digits_before(digit_position(j)) == j);
    }
    assert(uuid_digits(t) =~= expansion);
    lemma_hex_value_of_digit_expansion(v as int, 32);
    lemma_pow16_32();
    lemma_small_mod(v as nat, pow16(32) as nat);
}

} // verus!
