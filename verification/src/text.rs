//! Decimal integer text: parsing (with the acceptance rules of Rust's
//! `str::parse` for `usize` and `i64`) and formatting.

use vstd::prelude::*;
use crate::strbuf::push_char;

verus! {

broadcast use vstd::string::group_string_axioms;

/// `c` is one of `'0'..='9'`.
pub open spec fn is_ascii_digit(c: char) -> bool {
    '0' <= c && c <= '9'
}

/// Every character of `s` is an ASCII digit.
pub open spec fn all_digits(s: Seq<char>) -> bool {
    forall|i: int| 0 <= i < s.len() ==> #[trigger] is_ascii_digit(s[i])
}

/// The value of a digit character.
pub open spec fn digit_value(c: char) -> nat {
    ((c as int) - ('0' as int)) as nat
}

/// The number written by a string of decimal digits (most significant first).
pub open spec fn digits_value(s: Seq<char>) -> nat
    decreases s.len(),
{
    if s.len() == 0 {
        0
    } else {
        digits_value(s.drop_last()) * 10 + digit_value(s.last())
    }
}

/// A non-empty run of digits.
pub open spec fn is_numeral(d: Seq<char>) -> bool {
    d.len() > 0 && all_digits(d)
}

/// `s` without one leading `'+'`.
pub open spec fn unsigned_body(s: Seq<char>) -> Seq<char> {
    if s.len() > 0 && s[0] == '+' {
        s.skip(1)
    } else {
        s
    }
}

/// `s` without one leading `'+'` or `'-'`.
pub open spec fn signed_body(s: Seq<char>) -> Seq<char> {
    if s.len() > 0 && (s[0] == '+' || s[0] == '-') {
        s.skip(1)
    } else {
        s
    }
}

/// What `s.parse::<usize>()` accepts: an optional `'+'` and one or more
/// digits whose value fits in `usize`.
pub open spec fn spec_parse_usize(s: Seq<char>) -> Option<usize> {
    let d = unsigned_body(s);
    if is_numeral(d) && digits_value(d) <= usize::MAX {
        Some(digits_value(d) as usize)
    } else {
        None
    }
}

/// What `s.parse::<i64>()` accepts: an optional sign and one or more digits
/// whose signed value fits in `i64`.
pub open spec fn spec_parse_i64(s: Seq<char>) -> Option<i64> {
    let d = signed_body(s);
    let neg = s.len() > 0 && s[0] == '-';
    if !is_numeral(d) {
        None
    } else if neg {
        if digits_value(d) <= 0x8000_0000_0000_0000 {
            Some((0 - digits_value(d)) as i64)
        } else {
            None
        }
    } else if digits_value(d) <= i64::MAX {
        Some(digits_value(d) as i64)
    } else {
        None
    }
}

proof fn lemma_digits_push(d: Seq<char>, c: char)
    ensures
        digits_value(d.push(c)) == digits_value(d) * 10 + digit_value(c),
        all_digits(d.push(c)) == (all_digits(d) && is_ascii_digit(c)),
{
    assert(d.push(c).drop_last() =~= d);
    if all_digits(d.push(c)) {
        assert(is_ascii_digit(d.push(c)[d.len() as int]));
        assert forall|i: int| 0 <= i < d.len() implies #[trigger] is_ascii_digit(d[i]) by {
            assert(is_ascii_digit(d.push(c)[i]));
        }
    }
}

proof fn lemma_unsigned_body_push(p: Seq<char>, c: char)
    ensures
        unsigned_body(p.push(c)) == if p.len() == 0 && c == '+' {
            Seq::<char>::empty()
        } else {
            unsigned_body(p).push(c)
        },
{
    if p.len() == 0 {
        if c == '+' {
            assert(p.push(c).skip(1) =~= Seq::<char>::empty());
        } else {
            assert(p.push(c) =~= Seq::<char>::empty().push(c));
        }
    } else if p[0] == '+' {
        assert(p.push(c).skip(1) =~= p.skip(1).push(c));
    }
}

proof fn lemma_signed_body_push(p: Seq<char>, c: char)
    ensures
        signed_body(p.push(c)) == if p.len() == 0 && (c == '+' || c == '-') {
            Seq::<char>::empty()
        } else {
            signed_body(p).push(c)
        },
{
    if p.len() == 0 {
        if c == '+' || c == '-' {
            assert(p.push(c).skip(1) =~= Seq::<char>::empty());
        } else {
            assert(p.push(c) =~= Seq::<char>::empty().push(c));
        }
    } else if p[0] == '+' || p[0] == '-' {
        assert(p.push(c).skip(1) =~= p.skip(1).push(c));
    }
}

proof fn lemma_unsigned_body_prefix(s: Seq<char>, k: int)
    requires
        0 <= k <= s.len(),
    ensures
        unsigned_body(s.take(k)).len() <= unsigned_body(s).len(),
        forall|i: int|
            0 <= i < unsigned_body(s.take(k)).len() ==> #[trigger] unsigned_body(s.take(k))[i]
                == unsigned_body(s)[i],
{
}

proof fn lemma_signed_body_prefix(s: Seq<char>, k: int)
    requires
        0 <= k <= s.len(),
    ensures
        signed_body(s.take(k)).len() <= signed_body(s).len(),
        forall|i: int|
            0 <= i < signed_body(s.take(k)).len() ==> #[trigger] signed_body(s.take(k))[i]
                == signed_body(s)[i],
{
}

/// Parses `s` as a `usize` exactly as `s.parse::<usize>().ok()` does.
pub fn parse_usize(s: &str) -> (r: Option<usize>)
    ensures
        r == spec_parse_usize(s@),
{
    let mut acc: Option<usize> = Some(0);
    let mut first = true;
    for c in it: s.chars()
        invariant
            it.seq() == s@,
            first <==> it.index() == 0,
            all_digits(unsigned_body(s@.take(it.index() as int))),
            acc is Some <==> digits_value(unsigned_body(s@.take(it.index() as int))) <= usize::MAX,
            acc is Some ==> acc->0 == digits_value(unsigned_body(s@.take(it.index() as int))),
    {
        let ghost p = s@.take(it.index() as int);
        proof {
            assert(s@.take(it.index() as int + 1) =~= p.push(c));
            lemma_unsigned_body_push(p, c);
            lemma_digits_push(unsigned_body(p), c);
        }
        if first && c == '+' {
            first = false;
        } else {
            first = false;
            if c < '0' || c > '9' {
                proof {
                    let q = s@.take(it.index() as int + 1);
                    lemma_unsigned_body_prefix(s@, it.index() as int + 1);
                    let j = unsigned_body(q).len() - 1;
                    assert(unsigned_body(q)[j] == c);
                    assert(!is_ascii_digit(unsigned_body(s@)[j]));
                }
                return None;
            }
            let d = (c as u32 - '0' as u32) as usize;
            acc = match acc {
                Some(a) => match a.checked_mul(10) {
                    Some(m) => m.checked_add(d),
                    None => None,
                },
                None => None,
            };
        }
    }
    proof {
        assert(s@.take(s@.len() as int) =~= s@);
    }
    if unsigned_body_is_empty(s) {
        return None;
    }
    acc
}

/// Parses `s` as an `i64` exactly as `s.parse::<i64>().ok()` does.
pub fn parse_i64(s: &str) -> (r: Option<i64>)
    ensures
        r == spec_parse_i64(s@),
{
    let mut mag: Option<u64> = Some(0);
    let mut first = true;
    let mut neg = false;
    for c in it: s.chars()
        invariant
            it.seq() == s@,
            first <==> it.index() == 0,
            neg <==> (it.index() > 0 && s@[0] == '-'),
            all_digits(signed_body(s@.take(it.index() as int))),
            mag is Some <==> digits_value(signed_body(s@.take(it.index() as int))) <= u64::MAX,
            mag is Some ==> mag->0 == digits_value(signed_body(s@.take(it.index() as int))),
    {
        let ghost p = s@.take(it.index() as int);
        proof {
            assert(s@.take(it.index() as int + 1) =~= p.push(c));
            lemma_signed_body_push(p, c);
            lemma_digits_push(signed_body(p), c);
        }
        if first && (c == '+' || c == '-') {
            neg = c == '-';
            first = false;
        } else {
            first = false;
            if c < '0' || c > '9' {
                proof {
                    let q = s@.take(it.index() as int + 1);
                    lemma_signed_body_prefix(s@, it.index() as int + 1);
                    let j = signed_body(q).len() - 1;
                    assert(signed_body(q)[j] == c);
                    assert(!is_ascii_digit(signed_body(s@)[j]));
                }
                return None;
            }
            let d = (c as u32 - '0' as u32) as u64;
            mag = match mag {
                Some(a) => match a.checked_mul(10) {
                    Some(m) => m.checked_add(d),
                    None => None,
                },
                None => None,
            };
        }
    }
    proof {
        assert(s@.take(s@.len() as int) =~= s@);
    }
    if signed_body_is_empty(s) {
        return None;
    }
    match mag {
        None => None,
        Some(m) => {
            if neg {
                if m <= 0x7fff_ffff_ffff_ffff {
                    Some(0 - (m as i64))
                } else if m == 0x8000_0000_0000_0000 {
                    Some(i64::MIN)
                } else {
                    None
                }
            } else if m <= 0x7fff_ffff_ffff_ffff {
                Some(m as i64)
            } else {
                None
            }
        },
    }
}

/// True iff `s` holds nothing after one optional leading `'+'`.
fn unsigned_body_is_empty(s: &str) -> (r: bool)
    ensures
        r == (unsigned_body(s@).len() == 0),
{
    let mut n: u8 = 0;
    let mut plus_first = false;
    for c in it: s.chars()
        invariant
            it.seq() == s@,
            n as int == if it.index() < 2 { it.index() as int } else { 2 },
            it.index() > 0 ==> (plus_first <==> s@[0] == '+'),
    {
        if n == 0 {
            plus_first = c == '+';
        }
        if n < 2 {
            n = n + 1;
        }
    }
    n == 0 || (n == 1 && plus_first)
}

/// True iff `s` holds nothing after one optional leading sign.
fn signed_body_is_empty(s: &str) -> (r: bool)
    ensures
        r == (signed_body(s@).len() == 0),
{
    let mut n: u8 = 0;
    let mut sign_first = false;
    for c in it: s.chars()
        invariant
            it.seq() == s@,
            n as int == if it.index() < 2 { it.index() as int } else { 2 },
            it.index() > 0 ==> (sign_first <==> (s@[0] == '+' || s@[0] == '-')),
    {
        if n == 0 {
            sign_first = c == '+' || c == '-';
        }
        if n < 2 {
            n = n + 1;
        }
    }
    n == 0 || (n == 1 && sign_first)
}

} // verus!

verus! {

/// The character for a decimal digit.
pub open spec fn digit_char(d: nat) -> char {
    if d == 0 {
        '0'
    } else if d == 1 {
        '1'
    } else if d == 2 {
        '2'
    } else if d == 3 {
        '3'
    } else if d == 4 {
        '4'
    } else if d == 5 {
        '5'
    } else if d == 6 {
        '6'
    } else if d == 7 {
        '7'
    } else if d == 8 {
        '8'
    } else {
        '9'
    }
}

/// Decimal digits of `n`, most significant first, without leading zeros.
pub open spec fn nat_text(n: nat) -> Seq<char>
    decreases n,
{
    if n < 10 {
        seq![digit_char(n)]
    } else {
        nat_text(n / 10).push(digit_char(n % 10))
    }
}

/// Decimal text of an integer, with a leading `'-'` when negative.
pub open spec fn int_text(n: int) -> Seq<char> {
    if n < 0 {
        seq!['-'] + nat_text((0 - n) as nat)
    } else {
        nat_text(n as nat)
    }
}

fn exec_digit_char(d: u64) -> (c: char)
    requires
        d < 10,
    ensures
        c == digit_char(d as nat),
{
    match d {
        0 => '0',
        1 => '1',
        2 => '2',
        3 => '3',
        4 => '4',
        5 => '5',
        6 => '6',
        7 => '7',
        8 => '8',
        _ => '9',
    }
}

/// Appends the decimal text of `n` to `buf`.
pub fn write_u64(buf: &mut String, n: u64)
    ensures
        final(buf)@ == old(buf)@ + nat_text(n as nat),
{
    let mut rev: Vec<char> = Vec::new();
    let mut m = n;
    while m >= 10
        invariant
            nat_text(n as nat) == nat_text(m as nat) + rev@.reverse(),
        decreases m,
    {
        let d = m % 10;
        let c = exec_digit_char(d);
        proof {
            assert(rev@.push(c).reverse() =~= seq![c] + rev@.reverse());
            assert(nat_text(m as nat) == nat_text((m / 10) as nat).push(c));
            assert(nat_text((m / 10) as nat) + rev@.push(c).reverse() =~= nat_text(m as nat)
                + rev@.reverse());
        }
        rev.push(c);
        m = m / 10;
    }
    let c0 = exec_digit_char(m);
    let ghost start = buf@;
    push_char(buf, c0);
    let mut i = rev.len();
    while i > 0
        invariant
            i <= rev@.len(),
            buf@ == start + seq![c0] + rev@.subrange(i as int, rev@.len() as int).reverse(),
        decreases i,
    {
        i = i - 1;
        let ghost before = buf@;
        push_char(buf, rev[i]);
        proof {
            assert(rev@.subrange(i as int, rev@.len() as int).reverse() =~= rev@.subrange(
                i as int + 1,
                rev@.len() as int,
            ).reverse() + seq![rev@[i as int]]);
            assert(buf@ =~= start + seq![c0] + rev@.subrange(i as int, rev@.len() as int).reverse());
        }
    }
    proof {
        assert(rev@.subrange(0, rev@.len() as int) =~= rev@);
        assert(buf@ =~= start + nat_text(n as nat));
    }
}

/// Appends the decimal text of `n` to `buf`.
pub fn write_i64(buf: &mut String, n: i64)
    ensures
        final(buf)@ == old(buf)@ + int_text(n as int),
{
    if n < 0 {
        let ghost start = buf@;
        push_char(buf, '-');
        let mag: u64 = if n == i64::MIN {
            0x8000_0000_0000_0000
        } else {
            (0 - n) as u64
        };
        write_u64(buf, mag);
        assert(buf@ =~= start + int_text(n as int));
    } else {
        write_u64(buf, n as u64);
    }
}

/// The decimal text of `n`.
pub fn format_i64(n: i64) -> (r: String)
    ensures
        r@ == int_text(n as int),
{
    let mut s = String::new();
    write_i64(&mut s, n);
    proof {
        assert(Seq::<char>::empty() + int_text(n as int) =~= int_text(n as int));
    }
    s
}

proof fn lemma_digit_char(d: nat)
    requires
        d < 10,
    ensures
        is_ascii_digit(digit_char(d)),
        digit_value(digit_char(d)) == d,
{
    assert('0' as int == 48 && '1' as int == 49 && '2' as int == 50 && '3' as int == 51 && '4' as int
        == 52 && '5' as int == 53 && '6' as int == 54 && '7' as int == 55 && '8' as int == 56
        && '9' as int == 57);
}

proof fn lemma_nat_text_digits(n: nat)
    ensures
        is_numeral(nat_text(n)),
        digits_value(nat_text(n)) == n,
        nat_text(n)[0] != '+' && nat_text(n)[0] != '-',
    decreases n,
{
    lemma_digit_char(n % 10);
    if n < 10 {
        assert(nat_text(n).drop_last() =~= Seq::<char>::empty());
        assert(digits_value(Seq::<char>::empty()) == 0);
        assert(n % 10 == n);
    } else {
        assert(n == (n / 10) * 10 + n % 10);
        lemma_nat_text_digits(n / 10);
        let t = nat_text(n / 10);
        lemma_digits_push(t, digit_char(n % 10));
        assert(nat_text(n)[0] == t[0]);
    }
}

/// Reading back the decimal text of an integer gives the integer.
pub proof fn lemma_parse_format_i64(n: i64)
    ensures
        spec_parse_i64(int_text(n as int)) == Some(n),
{
    if n < 0 {
        let m = (0 - n) as nat;
        lemma_nat_text_digits(m);
        let t = int_text(n as int);
        assert(t.skip(1) =~= nat_text(m));
    } else {
        lemma_nat_text_digits(n as nat);
    }
}

} // verus!
