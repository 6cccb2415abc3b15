//! Identifiers for new sessions, and the checksum they are drawn from.

use vstd::arithmetic::div_mod::{lemma_add_mod_noop_right, lemma_mul_mod_noop_left};
use vstd::prelude::*;
use vstd::string::*;

use crate::text::{byte_len, decimal, hex, u64_to_decimal, u64_to_hex};

verus! {

/// Sum of the code points of the characters.
pub open spec fn char_sum(s: Seq<char>) -> nat
    decreases s.len(),
{
    if s.len() == 0 {
        0
    } else {
        char_sum(s.drop_last()) + s.last() as nat
    }
}

/// The checksum of a text: forty-two times its length in bytes plus the sum
/// of its code points, in 32 bits.
pub open spec fn simple_hash_value(s: Seq<char>) -> nat {
    ((byte_len(s) * 42 + char_sum(s)) % 0x1_0000_0000) as nat
}

/// The value of a text of decimal digits.
pub open spec fn decimal_value(s: Seq<char>) -> nat
    decreases s.len(),
{
    if s.len() == 0 {
        0
    } else {
        decimal_value(s.drop_last()) * 10 + (s.last() as nat - 48) as nat
    }
}

/// Whether `c` is one of the digits `0` to `9`.
pub open spec fn is_decimal_digit(c: char) -> bool {
    48 <= c as nat <= 57
}

/// Whether every character of `s` is a decimal digit.
pub open spec fn all_decimal_digits(s: Seq<char>) -> bool {
    forall|i: int| 0 <= i < s.len() ==> is_decimal_digit(#[trigger] s[i])
}

/// At most the first eight characters of `s`.
pub open spec fn head(s: Seq<char>) -> Seq<char> {
    if s.len() <= 8 {
        s
    } else {
        s.subrange(0, 8)
    }
}

/// The number that the first eight characters of `s` spell in decimal, and
/// zero where they spell none.
pub open spec fn leading_number(s: Seq<char>) -> nat {
    if s.len() > 0 && all_decimal_digits(head(s)) {
        decimal_value(head(s))
    } else {
        0
    }
}

/// The identifier drawn from `timestamp`: its low 32 bits in hexadecimal,
/// followed by the hexadecimal form of the number that leads the checksum of
/// its decimal form.
pub open spec fn random_id_text(timestamp: u64) -> Seq<char> {
    hex((timestamp % 0x1_0000_0000) as nat) + hex(
        leading_number(hex(simple_hash_value(decimal(timestamp as nat)))),
    )
}

/// The code point of a character.
pub fn code_point(c: char) -> (code: u64)
    ensures
        code == c as nat,
        code <= 0x10_ffff,
{
    c as u64
}

/// The checksum of `password` in hexadecimal. It is no protection for a
/// password: texts with the same length and the same sum of code points
/// collide.
pub fn simple_hash(password: &str) -> (r: String)
    ensures
        r@ == hex(simple_hash_value(password@)),
{
    let mut sum: u64 = 0;
    assert(password@.subrange(0, 0) =~= Seq::<char>::empty());
    for c in it: password.chars()
        invariant
            it.seq() == password@,
            sum < 0x1_0000_0000,
            sum == char_sum(password@.subrange(0, it.index() as int)) % 0x1_0000_0000,
    {
        proof {
            let i = it.index() as int;
            let a = password@.subrange(0, i);
            let b = password@.subrange(0, i + 1);
            assert(b.drop_last() =~= a);
            assert(b.last() == c);
        }
        let code = code_point(c);
        proof {
            let i = it.index() as int;
            let a = password@.subrange(0, i);
            let b = password@.subrange(0, i + 1);
            assert(char_sum(b) == char_sum(a) + code);
            lemma_add_mod_noop_right(code as int, char_sum(a) as int, 0x1_0000_0000);
        }
        sum = (sum + code) % 0x1_0000_0000;
    }
    assert(password@.subrange(0, password@.len() as int) =~= password@);
    let length: u64 = (password.len() as u64) % 0x1_0000_0000;
    let value: u64 = (length * 42 + sum) % 0x1_0000_0000;
    proof {
        let n = byte_len(password@) as int;
        let total = char_sum(password@) as int;
        lemma_mul_mod_noop_left(n, 42, 0x1_0000_0000);
        lemma_add_mod_noop_right(length * 42, total, 0x1_0000_0000);
        vstd::arithmetic::div_mod::lemma_add_mod_noop(n * 42, total, 0x1_0000_0000);
        vstd::arithmetic::div_mod::lemma_add_mod_noop(length * 42, total, 0x1_0000_0000);
    }
    u64_to_hex(value)
}

/// The number that the first eight characters of `s` spell in decimal, and
/// zero where they spell none.
pub fn leading_number_of(s: &str) -> (r: u32)
    ensures
        r == leading_number(s@),
{
    let n: usize = s.unicode_len();
    if n == 0 {
        return 0;
    }
    let end: usize = if n <= 8 {
        n
    } else {
        8
    };
    assert(head(s@) =~= s@.subrange(0, end as int));
    let mut value: u32 = 0;
    let mut i: usize = 0;
    assert(s@.subrange(0, 0) =~= Seq::<char>::empty());
    while i < end
        invariant
            i <= end <= 8,
            end <= s@.len(),
            all_decimal_digits(s@.subrange(0, i as int)),
            value == decimal_value(s@.subrange(0, i as int)),
            value < pow10(i as nat),
        decreases end - i,
    {
        let c: char = s.get_char(i);
        proof {
            let a = s@.subrange(0, i as int);
            let b = s@.subrange(0, i as int + 1);
            assert(b.drop_last() =~= a);
            assert(b.last() == c);
            lemma_pow10_bound(i as nat);
            lemma_pow10_bound((i + 1) as nat);
        }
        if !('0' <= c && c <= '9') {
            proof {
                let h = s@.subrange(0, end as int);
                assert(h[i as int] == c);
                assert(!is_decimal_digit(h[i as int]));
            }
            return 0;
        }
        value = value * 10 + (c as u32 - 48);
        proof {
            let b = s@.subrange(0, i as int + 1);
            assert forall|j: int| 0 <= j < b.len() implies is_decimal_digit(#[trigger] b[j]) by {
                if j < i {
                    assert(b[j] == s@.subrange(0, i as int)[j]);
                }
            }
        }
        i = i + 1;
    }
    value
}

/// The number that `s` spells in decimal, if it is made of decimal digits
/// and is not empty.
pub open spec fn decimal_number(s: Seq<char>) -> Option<nat> {
    if s.len() > 0 && all_decimal_digits(s) {
        Some(decimal_value(s))
    } else {
        None
    }
}

/// Reads an unsigned decimal number: a text of one or more decimal digits
/// whose value fits in 64 bits. A sign is not accepted.
pub fn parse_u64(text: &str) -> (r: Option<u64>)
    ensures
        r == match decimal_number(text@) {
            Some(n) => if n <= u64::MAX {
                Some(n as u64)
            } else {
                None
            },
            None => None,
        },
{
    let n: usize = text.unicode_len();
    if n == 0 {
        return None;
    }
    let mut value: u64 = 0;
    let mut overflow: bool = false;
    let mut i: usize = 0;
    assert(text@.subrange(0, 0) =~= Seq::<char>::empty());
    while i < n
        invariant
            i <= n == text@.len(),
            all_decimal_digits(text@.subrange(0, i as int)),
            !overflow ==> value == decimal_value(text@.subrange(0, i as int)),
            overflow ==> decimal_value(text@.subrange(0, i as int)) > u64::MAX,
        decreases n - i,
    {
        let c: char = text.get_char(i);
        proof {
            let a = text@.subrange(0, i as int);
            let b = text@.subrange(0, i as int + 1);
            assert(b.drop_last() =~= a);
            assert(b.last() == c);
        }
        if !('0' <= c && c <= '9') {
            proof {
                assert(text@[i as int] == c);
                assert(!is_decimal_digit(text@[i as int]));
            }
            return None;
        }
        let d: u64 = (c as u32 - 48) as u64;
        if !overflow {
            if value > (u64::MAX - d) / 10 {
                overflow = true;
            } else {
                value = value * 10 + d;
            }
        }
        proof {
            let b = text@.subrange(0, i as int + 1);
            assert forall|j: int| 0 <= j < b.len() implies is_decimal_digit(#[trigger] b[j]) by {
                if j < i {
                    assert(b[j] == text@.subrange(0, i as int)[j]);
                }
            }
        }
        i = i + 1;
    }
    assert(text@.subrange(0, n as int) =~= text@);
    if overflow {
        None
    } else {
        Some(value)
    }
}

/// Ten to the power `n`.
pub open spec fn pow10(n: nat) -> nat
    decreases n,
{
    if n == 0 {
        1
    } else {
        10 * pow10((n - 1) as nat)
    }
}

/// Powers of ten up to the eighth are at most a hundred million.
proof fn lemma_pow10_bound(n: nat)
    requires
        n <= 8,
    ensures
        1 <= pow10(n) <= 100_000_000,
{
    reveal_with_fuel(pow10, 10);
}

/// An identifier for a session created at `timestamp`.
pub fn generate_random_id(timestamp: u64) -> (r: String)
    ensures
        r@ == random_id_text(timestamp),
{
    let checksum = simple_hash(u64_to_decimal(timestamp).as_str());
    let number = leading_number_of(checksum.as_str());
    let mut id = u64_to_hex(timestamp % 0x1_0000_0000);
    id.append(u64_to_hex(number as u64).as_str());
    id
}

} // verus!
