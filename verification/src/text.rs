//! Text building blocks: number rendering, character classes, joining.

use vstd::prelude::*;
use vstd::string::*;

verus! {

/// `String::push` of the standard library: the character is appended at the
/// end and nothing else changes.
pub assume_specification[ String::push ](s: &mut String, ch: char)
    ensures
        final(s)@ == old(s)@.push(ch),
;

/// What `char::is_alphanumeric` answers for `c` (the Unicode `Alphabetic`
/// property or one of the numeric general categories).
pub uninterp spec fn char_is_alphanumeric(c: char) -> bool;

/// What `char::is_whitespace` answers for `c` (the Unicode `White_Space`
/// property).
pub uninterp spec fn char_is_whitespace(c: char) -> bool;

/// What `str::to_uppercase` returns for the text `s` (Unicode upper-casing,
/// which may change the number of characters).
pub uninterp spec fn uppercase_of(s: Seq<char>) -> Seq<char>;

/// Calls `char::is_alphanumeric`; the answer is a fixed property of the
/// character, named [`char_is_alphanumeric`].
#[verifier::external_body]
pub(crate) fn is_alphanumeric(c: char) -> (r: bool)
    ensures
        r == char_is_alphanumeric(c),
{
    c.is_alphanumeric()
}

/// Calls `char::is_whitespace`; the answer is a fixed property of the
/// character, named [`char_is_whitespace`].
#[verifier::external_body]
pub(crate) fn is_whitespace(c: char) -> (r: bool)
    ensures
        r == char_is_whitespace(c),
{
    c.is_whitespace()
}

/// Calls `str::to_uppercase`; the result depends on the text alone and is
/// named [`uppercase_of`].
#[verifier::external_body]
pub(crate) fn to_uppercase(s: &str) -> (r: String)
    ensures
        r@ == uppercase_of(s@),
{
    s.to_uppercase()
}

/// Number of bytes of the UTF-8 encoding of `s`, as `str::len` reports it.
pub open spec fn byte_len(s: Seq<char>) -> usize {
    vstd::utf8::encode_utf8(s).len() as usize
}

/// The character that stands for the digit `d` in bases up to sixteen,
/// lower case.
pub open spec fn digit_char(d: int) -> char {
    if d < 10 {
        (48 + d) as u8 as char
    } else {
        (87 + d) as u8 as char
    }
}

/// The decimal digits of `n`, most significant first; empty for zero.
pub open spec fn decimal_digits(n: nat) -> Seq<char>
    decreases n,
{
    if n == 0 {
        Seq::empty()
    } else {
        decimal_digits(n / 10).push(digit_char((n % 10) as int))
    }
}

/// The hexadecimal digits of `n`, most significant first; empty for zero.
pub open spec fn hex_digits(n: nat) -> Seq<char>
    decreases n,
{
    if n == 0 {
        Seq::empty()
    } else {
        hex_digits(n / 16).push(digit_char((n % 16) as int))
    }
}

/// `n` in decimal, as `{}` prints an unsigned integer.
pub open spec fn decimal(n: nat) -> Seq<char> {
    if n == 0 {
        seq!['0']
    } else {
        decimal_digits(n)
    }
}

/// `n` in lower-case hexadecimal without padding, as `{:x}` prints it.
pub open spec fn hex(n: nat) -> Seq<char> {
    if n == 0 {
        seq!['0']
    } else {
        hex_digits(n)
    }
}

/// The lowest `width` hexadecimal digits of `n`, most significant first,
/// with leading zeros.
pub open spec fn hex_fixed(n: nat, width: nat) -> Seq<char>
    decreases width,
{
    if width == 0 {
        Seq::empty()
    } else {
        hex_fixed(n / 16, (width - 1) as nat).push(digit_char((n % 16) as int))
    }
}

/// Sixteen to the power `width`.
pub open spec fn pow16(width: nat) -> nat
    decreases width,
{
    if width == 0 {
        1
    } else {
        16 * pow16((width - 1) as nat)
    }
}

/// Different digits have different characters.
pub proof fn lemma_digit_chars_differ(a: int, b: int)
    requires
        0 <= a < 16,
        0 <= b < 16,
        digit_char(a) == digit_char(b),
    ensures
        a == b,
{
    assert(digit_char(a) as int == if a < 10 {
        48 + a
    } else {
        87 + a
    });
    assert(digit_char(b) as int == if b < 10 {
        48 + b
    } else {
        87 + b
    });
}

/// Numbers that fit in `width` hexadecimal digits and are written alike are
/// equal.
pub proof fn lemma_hex_fixed_tells_apart(a: nat, b: nat, width: nat)
    requires
        a < pow16(width),
        b < pow16(width),
        hex_fixed(a, width) == hex_fixed(b, width),
    ensures
        a == b,
    decreases width,
{
    if width > 0 {
        let w = (width - 1) as nat;
        let sa = hex_fixed(a / 16, w).push(digit_char((a % 16) as int));
        let sb = hex_fixed(b / 16, w).push(digit_char((b % 16) as int));
        assert(sa.last() == sb.last());
        assert(sa.drop_last() =~= hex_fixed(a / 16, w));
        assert(sb.drop_last() =~= hex_fixed(b / 16, w));
        lemma_digit_chars_differ((a % 16) as int, (b % 16) as int);
        lemma_hex_fixed_tells_apart(a / 16, b / 16, w);
    }
}

/// Sixteen hexadecimal digits hold exactly the numbers of 64 bits.
pub proof fn lemma_pow16_of_sixteen()
    ensures
        pow16(16) == 0x1_0000_0000_0000_0000,
{
    reveal_with_fuel(pow16, 17);
}

/// Texts that differ still differ behind a common beginning.
pub proof fn lemma_same_beginning<T>(beginning: Seq<T>, a: Seq<T>, b: Seq<T>)
    requires
        beginning + a == beginning + b,
    ensures
        a == b,
{
    let n = beginning.len() as int;
    assert((beginning + a).len() == n + a.len());
    assert((beginning + b).len() == n + b.len());
    assert forall|i: int| 0 <= i < a.len() implies a[i] == b[i] by {
        assert((beginning + a)[n + i] == a[i]);
        assert((beginning + b)[n + i] == b[i]);
    }
    assert(a =~= b);
}

/// Two lower-case hexadecimal digits for each byte, in order.
pub open spec fn hex_bytes(bytes: Seq<u8>) -> Seq<char>
    decreases bytes.len(),
{
    if bytes.len() == 0 {
        Seq::empty()
    } else {
        hex_bytes(bytes.drop_last()).push(digit_char(bytes.last() as int / 16)).push(
            digit_char(bytes.last() as int % 16),
        )
    }
}

/// `parts` joined with `separator` between neighbours.
pub open spec fn joined(parts: Seq<Seq<char>>, separator: Seq<char>) -> Seq<char>
    decreases parts.len(),
{
    if parts.len() == 0 {
        Seq::empty()
    } else if parts.len() == 1 {
        parts[0]
    } else {
        joined(parts.drop_last(), separator) + separator + parts.last()
    }
}

/// The character for one digit below sixteen.
pub fn digit_to_char(d: u8) -> (c: char)
    requires
        d < 16,
    ensures
        c == digit_char(d as int),
{
    if d < 10 {
        (48u8 + d) as char
    } else {
        (87u8 + d) as char
    }
}

/// Collects characters into a `String`.
pub fn string_from_chars(chars: &Vec<char>) -> (out: String)
    ensures
        out@ == chars@,
{
    let mut out = String::new();
    let mut i: usize = 0;
    while i < chars.len()
        invariant
            i <= chars.len(),
            out@ == chars@.subrange(0, i as int),
        decreases chars.len() - i,
    {
        out.push(chars[i]);
        assert(chars@.subrange(0, i as int + 1) =~= chars@.subrange(0, i as int).push(chars@[i as int]));
        i = i + 1;
    }
    assert(chars@.subrange(0, chars.len() as int) =~= chars@);
    out
}

/// Renders `n` in decimal.
pub fn u64_to_decimal(n: u64) -> (out: String)
    ensures
        out@ == decimal(n as nat),
{
    let mut v: Vec<char> = Vec::new();
    if n == 0 {
        v.push('0');
        assert(v@ =~= seq!['0']);
        return string_from_chars(&v);
    }
    let mut rest: u64 = n;
    while rest > 0
        invariant
            decimal_digits(n as nat) == decimal_digits(rest as nat) + v@,
        decreases rest,
    {
        let d: u8 = (rest % 10) as u8;
        let c: char = digit_to_char(d);
        let ghost before = v@;
        v.insert(0, c);
        proof {
            let next = (rest / 10) as nat;
            assert(decimal_digits(rest as nat) == decimal_digits(next).push(c));
            assert(decimal_digits(next).push(c) + before =~= decimal_digits(next) + v@);
        }
        rest = rest / 10;
    }
    assert(decimal_digits(0) + v@ =~= v@);
    string_from_chars(&v)
}

/// Renders `n` in lower-case hexadecimal without padding.
pub fn u64_to_hex(n: u64) -> (out: String)
    ensures
        out@ == hex(n as nat),
{
    let mut v: Vec<char> = Vec::new();
    if n == 0 {
        v.push('0');
        assert(v@ =~= seq!['0']);
        return string_from_chars(&v);
    }
    let mut rest: u64 = n;
    while rest > 0
        invariant
            hex_digits(n as nat) == hex_digits(rest as nat) + v@,
        decreases rest,
    {
        let d: u8 = (rest % 16) as u8;
        let c: char = digit_to_char(d);
        let ghost before = v@;
        v.insert(0, c);
        proof {
            let next = (rest / 16) as nat;
            assert(hex_digits(rest as nat) == hex_digits(next).push(c));
            assert(hex_digits(next).push(c) + before =~= hex_digits(next) + v@);
        }
        rest = rest / 16;
    }
    assert(hex_digits(0) + v@ =~= v@);
    string_from_chars(&v)
}

/// Renders `n` as exactly sixteen lower-case hexadecimal digits.
pub fn u64_to_hex16(n: u64) -> (out: String)
    ensures
        out@ == hex_fixed(n as nat, 16),
        out@.len() == 16,
{
    let mut v: Vec<char> = Vec::new();
    let mut rest: u64 = n;
    let mut k: usize = 0;
    while k < 16
        invariant
            k <= 16,
            v@.len() == k,
            hex_fixed(n as nat, 16) == hex_fixed(rest as nat, (16 - k) as nat) + v@,
        decreases 16 - k,
    {
        let d: u8 = (rest % 16) as u8;
        let c: char = digit_to_char(d);
        let ghost before = v@;
        v.insert(0, c);
        proof {
            let next = (rest / 16) as nat;
            let w = (16 - k - 1) as nat;
            assert(hex_fixed(rest as nat, (16 - k) as nat) == hex_fixed(next, w).push(c));
            assert(hex_fixed(next, w).push(c) + before =~= hex_fixed(next, w) + v@);
        }
        rest = rest / 16;
        k = k + 1;
    }
    assert(hex_fixed(rest as nat, 0) + v@ =~= v@);
    string_from_chars(&v)
}

/// Renders each byte as two lower-case hexadecimal digits.
pub fn bytes_to_hex(bytes: &Vec<u8>) -> (out: String)
    ensures
        out@ == hex_bytes(bytes@),
{
    let mut out = String::new();
    let mut i: usize = 0;
    while i < bytes.len()
        invariant
            i <= bytes.len(),
            out@ == hex_bytes(bytes@.subrange(0, i as int)),
        decreases bytes.len() - i,
    {
        let b: u8 = bytes[i];
        proof {
            let next = bytes@.subrange(0, i as int + 1);
            assert(next.drop_last() =~= bytes@.subrange(0, i as int));
            assert(next.last() == b);
        }
        out.push(digit_to_char(b / 16));
        out.push(digit_to_char(b % 16));
        i = i + 1;
    }
    assert(bytes@.subrange(0, bytes.len() as int) =~= bytes@);
    out
}

/// Joins `parts` with `separator` between neighbours.
pub fn join(parts: &Vec<String>, separator: &str) -> (out: String)
    ensures
        out@ == joined(parts.deep_view(), separator@),
{
    let mut out = String::new();
    let mut i: usize = 0;
    let ghost all = parts.deep_view();
    while i < parts.len()
        invariant
            i <= parts.len(),
            all == parts.deep_view(),
            out@ == joined(all.subrange(0, i as int), separator@),
        decreases parts.len() - i,
    {
        proof {
            let next = all.subrange(0, i as int + 1);
            assert(next.drop_last() =~= all.subrange(0, i as int));
            assert(next.last() == parts@[i as int]@);
            if i == 0 {
                assert(next[0] == next.last());
                assert(Seq::<char>::empty() + parts@[i as int]@ =~= parts@[i as int]@);
            }
        }
        if i > 0 {
            out.append(separator);
        }
        out.append(parts[i].as_str());
        i = i + 1;
    }
    assert(all.subrange(0, parts.len() as int) =~= all);
    out
}

/// A copy of a list of texts.
pub fn clone_texts(texts: &Vec<String>) -> (out: Vec<String>)
    ensures
        out.deep_view() == texts.deep_view(),
{
    let mut out: Vec<String> = Vec::new();
    let mut i: usize = 0;
    while i < texts.len()
        invariant
            i <= texts.len(),
            out.len() == i,
            forall|j: int| 0 <= j < i ==> out@[j]@ == texts@[j]@,
        decreases texts.len() - i,
    {
        out.push(texts[i].clone());
        i = i + 1;
    }
    assert(out.deep_view() =~= texts.deep_view());
    out
}

/// A copy of an optional text.
pub fn clone_optional_text(text: &Option<String>) -> (out: Option<String>)
    ensures
        out.deep_view() == text.deep_view(),
{
    match text {
        Some(t) => Some(t.clone()),
        None => None,
    }
}

/// Whether two texts hold the same characters.
pub fn text_eq(a: &String, b: &str) -> (r: bool)
    ensures
        r == (a@ == b@),
{
    let other = String::from_str(b);
    *a == other
}

} // verus!
