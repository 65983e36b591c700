//! Reading what is typed into a form: trimming whitespace, reading whole numbers,
//! and matching search text.
use vstd::prelude::*;
use vstd::string::StrSliceExecFns;
use crate::text::{nat_text, int_text, digit_char, is_digit, lemma_nat_text_digits};

verus! {

/// The characters with the Unicode `White_Space` property.
pub open spec fn is_white_space(c: char) -> bool {
    let n = c as u32;
    (0x9 <= n && n <= 0xd) || n == 0x20 || n == 0x85 || n == 0xa0 || n == 0x1680 || (0x2000 <= n && n
        <= 0x200a) || n == 0x2028 || n == 0x2029 || n == 0x202f || n == 0x205f || n == 0x3000
}

/// How many whitespace characters `s` starts with.
pub open spec fn leading_white(s: Seq<char>) -> nat
    decreases s.len(),
{
    if s.len() > 0 && is_white_space(s[0]) {
        1 + leading_white(s.drop_first())
    } else {
        0
    }
}

/// How many whitespace characters `s` ends with.
pub open spec fn trailing_white(s: Seq<char>) -> nat
    decreases s.len(),
{
    if s.len() > 0 && is_white_space(s.last()) {
        1 + trailing_white(s.drop_last())
    } else {
        0
    }
}

/// `s` without its leading and trailing whitespace.
pub open spec fn trimmed(s: Seq<char>) -> Seq<char> {
    let front = s.skip(leading_white(s) as int);
    front.take(front.len() - trailing_white(front))
}

/// A digit's character reads back as the digit.
proof fn lemma_digit_value(k: int)
    requires
        0 <= k < 10,
    ensures
        digit_char(k) as u32 - '0' as u32 == k,
{
    assert('0' as u32 == 48);
    assert('1' as u32 == 49);
    assert('2' as u32 == 50);
    assert('3' as u32 == 51);
    assert('4' as u32 == 52);
    assert('5' as u32 == 53);
    assert('6' as u32 == 54);
    assert('7' as u32 == 55);
    assert('8' as u32 == 56);
    assert('9' as u32 == 57);
}

/// The decimal text of a number is all digits and reads back as the number.
pub proof fn lemma_nat_text_reads_back(n: nat)
    ensures
        all_digits(nat_text(n)),
        digits_value(nat_text(n)) == n,
    decreases n,
{
    lemma_nat_text_digits(n);
    let t = nat_text(n);
    assert forall|i: int| 0 <= i < t.len() implies '0' <= #[trigger] t[i] && t[i] <= '9' by {
        assert(is_digit(t[i]));
    }
    if n < 10 {
        assert(t.drop_last() =~= Seq::<char>::empty());
        assert(t.last() == digit_char(n as int));
        lemma_digit_value(n as int);
        assert(digits_value(Seq::<char>::empty()) == 0);
        assert(digits_value(t) == 10 * digits_value(t.drop_last()) + (t.last() as u32 - '0' as u32));
    } else {
        lemma_nat_text_reads_back(n / 10);
        assert(t.drop_last() == nat_text(n / 10));
        assert(t.last() == digit_char((n % 10) as int));
        lemma_digit_value((n % 10) as int);
        assert(digits_value(t) == 10 * digits_value(t.drop_last()) + (t.last() as u32 - '0' as u32));
        assert(10 * (n / 10) + n % 10 == n);
    }
}

/// The decimal text of a whole number, trimmed, reads back as the number: what a
/// form shows of a number is read back unchanged.
pub proof fn lemma_int_text_reads_back(v: i64)
    ensures
        i64_value(trimmed(int_text(v as int))) == Some(v),
{
    let t = int_text(v as int);
    let m: nat = if v < 0 { (-(v as int)) as nat } else { v as nat };
    lemma_nat_text_reads_back(m);
    lemma_nat_text_digits(m);
    assert(!is_white_space(t[0]));
    assert(!is_white_space(t.last()));
    assert(leading_white(t) == 0);
    assert(t.skip(0) =~= t);
    assert(trailing_white(t) == 0);
    assert(t.take(t.len() as int) =~= t);
    assert(trimmed(t) == t);
    if v < 0 {
        assert(t.drop_first() =~= nat_text(m));
        assert(t[0] == '-');
    } else {
        assert(t == nat_text(m));
        assert(t[0] != '-' && t[0] != '+');
    }
}

/// Whether the character has the `White_Space` property.
fn white_space(c: char) -> (r: bool)
    ensures
        r == is_white_space(c),
{
    let n = c as u32;
    (0x9 <= n && n <= 0xd) || n == 0x20 || n == 0x85 || n == 0xa0 || n == 0x1680 || (0x2000 <= n && n
        <= 0x200a) || n == 0x2028 || n == 0x2029 || n == 0x202f || n == 0x205f || n == 0x3000
}

proof fn lemma_leading_white(s: Seq<char>, i: int)
    requires
        0 <= i <= s.len(),
        forall|j: int| 0 <= j < i ==> is_white_space(#[trigger] s[j]),
    ensures
        leading_white(s) == i + leading_white(s.skip(i)),
    decreases i,
{
    if i > 0 {
        assert(s.skip(1) =~= s.drop_first());
        lemma_leading_white(s.drop_first(), i - 1);
        assert(s.drop_first().skip(i - 1) =~= s.skip(i));
    } else {
        assert(s.skip(0) =~= s);
    }
}

proof fn lemma_trailing_white(s: Seq<char>, i: int)
    requires
        0 <= i <= s.len(),
        forall|j: int| s.len() - i <= j < s.len() ==> is_white_space(#[trigger] s[j]),
    ensures
        trailing_white(s) == i + trailing_white(s.take(s.len() - i)),
    decreases i,
{
    if i > 0 {
        assert(s.take(s.len() - 1) =~= s.drop_last());
        lemma_trailing_white(s.drop_last(), i - 1);
        assert(s.drop_last().take(s.drop_last().len() - (i - 1)) =~= s.take(s.len() - i));
    } else {
        assert(s.take(s.len() as int) =~= s);
    }
}

/// `s` without its leading and trailing whitespace, as `str::trim` gives it.
pub fn trim_text(s: &str) -> (r: String)
    ensures
        r@ == trimmed(s@),
{
    let n = s.unicode_len();
    let mut start: usize = 0;
    while start < n && white_space(s.get_char(start))
        invariant
            start <= n,
            n == s@.len(),
            forall|j: int| 0 <= j < start ==> is_white_space(#[trigger] s@[j]),
        decreases n - start,
    {
        start = start + 1;
    }
    proof {
        lemma_leading_white(s@, start as int);
        if start < n {
            assert(s@.skip(start as int)[0] == s@[start as int]);
        }
    }
    assert(leading_white(s@) == start);
    let front = s.substring_char(start, n);
    let m = n - start;
    assert(front@ =~= s@.skip(start as int));
    let mut end: usize = m;
    while end > 0 && white_space(front.get_char(end - 1))
        invariant
            end <= m,
            m == front@.len(),
            forall|j: int| end <= j < m ==> is_white_space(#[trigger] front@[j]),
        decreases end,
    {
        end = end - 1;
    }
    proof {
        lemma_trailing_white(front@, (m - end) as int);
        if end > 0 {
            assert(front@.take(end as int).last() == front@[end - 1]);
        }
    }
    let r = front.substring_char(0, end);
    r.to_string()
}

/// The value of a run of decimal digits.
pub open spec fn digits_value(s: Seq<char>) -> int
    decreases s.len(),
{
    if s.len() == 0 {
        0
    } else {
        10 * digits_value(s.drop_last()) + (s.last() as u32 - '0' as u32)
    }
}

/// `s` is one decimal digit or more.
pub open spec fn all_digits(s: Seq<char>) -> bool {
    s.len() > 0 && forall|i: int| 0 <= i < s.len() ==> '0' <= #[trigger] s[i] && s[i] <= '9'
}

/// The whole number `s` writes, as Rust reads a signed integer: an optional `+` or
/// `-`, then one decimal digit or more, nothing else.
pub open spec fn signed_literal(s: Seq<char>) -> Option<int> {
    if s.len() > 0 && s[0] == '-' && all_digits(s.drop_first()) {
        Some(-digits_value(s.drop_first()))
    } else if s.len() > 0 && s[0] == '+' && all_digits(s.drop_first()) {
        Some(digits_value(s.drop_first()))
    } else if all_digits(s) {
        Some(digits_value(s))
    } else {
        None
    }
}

/// The whole number `s` writes, as Rust reads an unsigned integer: an optional `+`,
/// then one decimal digit or more, nothing else.
pub open spec fn unsigned_literal(s: Seq<char>) -> Option<int> {
    if s.len() > 0 && s[0] == '+' && all_digits(s.drop_first()) {
        Some(digits_value(s.drop_first()))
    } else if all_digits(s) {
        Some(digits_value(s))
    } else {
        None
    }
}

/// The value of `s` as an `i64` (`str::parse::<i64>`): none when `s` writes no whole
/// number or one out of range.
pub open spec fn i64_value(s: Seq<char>) -> Option<i64> {
    match signed_literal(s) {
        Some(v) => if i64::MIN <= v <= i64::MAX {
            Some(v as i64)
        } else {
            None
        },
        None => None,
    }
}

/// The value of `s` as a `usize` (`str::parse::<usize>`): none when `s` writes no
/// whole number or one out of range.
pub open spec fn usize_value(s: Seq<char>) -> Option<usize> {
    match unsigned_literal(s) {
        Some(v) => if v <= usize::MAX {
            Some(v as usize)
        } else {
            None
        },
        None => None,
    }
}

proof fn lemma_digits_step(s: Seq<char>, i: int)
    requires
        0 <= i < s.len(),
    ensures
        digits_value(s.take(i + 1)) == 10 * digits_value(s.take(i)) + (s[i] as u32 - '0' as u32),
{
    assert(s.take(i + 1).drop_last() =~= s.take(i));
}

proof fn lemma_digits_grow(s: Seq<char>, i: int, j: int)
    requires
        0 <= i <= j <= s.len(),
        forall|k: int| 0 <= k < s.len() ==> '0' <= #[trigger] s[k] && s[k] <= '9',
    ensures
        digits_value(s.take(i)) <= digits_value(s.take(j)),
        digits_value(s.take(i)) >= 0,
    decreases j - i,
{
    if i < j {
        lemma_digits_grow(s, i, j - 1);
        lemma_digits_step(s, j - 1);
    } else {
        lemma_digits_nonneg(s, i);
    }
}

proof fn lemma_digits_nonneg(s: Seq<char>, i: int)
    requires
        0 <= i <= s.len(),
        forall|k: int| 0 <= k < s.len() ==> '0' <= #[trigger] s[k] && s[k] <= '9',
    ensures
        digits_value(s.take(i)) >= 0,
    decreases i,
{
    if i > 0 {
        lemma_digits_nonneg(s, i - 1);
        lemma_digits_step(s, i - 1);
    } else {
        assert(s.take(0).len() == 0);
    }
}

/// The value of a run of digits, negated when `negative`, if it fits in an `i64`.
fn digits_to_i64(d: &str, negative: bool) -> (r: Option<i64>)
    requires
        all_digits(d@),
    ensures
        r == (if negative {
            if -digits_value(d@) >= i64::MIN { Some((-digits_value(d@)) as i64) } else { None }
        } else {
            if digits_value(d@) <= i64::MAX { Some(digits_value(d@) as i64) } else { None }
        }),
{
    let n = d.unicode_len();
    let mut acc: i64 = 0;
    let mut i: usize = 0;
    while i < n
        invariant
            n == d@.len(),
            i <= n,
            all_digits(d@),
            acc == (if negative { -digits_value(d@.take(i as int)) } else { digits_value(d@.take(i as int)) }),
        decreases n - i,
    {
        let c = d.get_char(i);
        proof {
            lemma_digits_step(d@, i as int);
            assert('0' <= d@[i as int] && d@[i as int] <= '9');
        }
        let digit = (c as u32 - '0' as u32) as i64;
        let next = match acc.checked_mul(10) {
            Some(t) => if negative { t.checked_sub(digit) } else { t.checked_add(digit) },
            None => None,
        };
        match next {
            Some(v) => acc = v,
            None => {
                proof {
                    lemma_digits_grow(d@, i + 1, n as int);
                    assert(d@.take(n as int) =~= d@);
                }
                return None;
            },
        }
        i = i + 1;
    }
    assert(d@.take(n as int) =~= d@);
    Some(acc)
}

/// `s` read as an `i64`, as `str::parse::<i64>` reads it.
pub fn parse_i64(s: &str) -> (r: Option<i64>)
    ensures
        r == i64_value(s@),
{
    let n = s.unicode_len();
    if n == 0 {
        return None;
    }
    let first = s.get_char(0);
    let (rest, negative) = if first == '-' || first == '+' {
        (s.substring_char(1, n), first == '-')
    } else {
        (s.substring_char(0, n), false)
    };
    proof {
        assert(s@.drop_first() =~= s@.subrange(1, n as int));
        assert(s@.subrange(0, n as int) =~= s@);
    }
    if !digits_only(rest) {
        proof {
            if first != '-' && first != '+' {
                assert(!all_digits(s@));
            } else {
                assert(!(s@[0] >= '0' && s@[0] <= '9'));
                assert(!all_digits(s@));
            }
        }
        return None;
    }
    proof {
        if first == '-' || first == '+' {
            assert(!(s@[0] >= '0' && s@[0] <= '9'));
            assert(!all_digits(s@));
            assert(rest@ == s@.drop_first());
        } else {
            assert(rest@ == s@);
        }
        lemma_digits_nonneg(rest@, rest@.len() as int);
        assert(rest@.take(rest@.len() as int) =~= rest@);
    }
    digits_to_i64(rest, negative)
}

/// `s` read as a `usize`, as `str::parse::<usize>` reads it.
pub fn parse_usize(s: &str) -> (r: Option<usize>)
    ensures
        r == usize_value(s@),
{
    match parse_u128_digits(s) {
        Some(v) => if v <= usize::MAX as u128 {
            Some(v as usize)
        } else {
            None
        },
        None => None,
    }
}

/// `s` read as an unsigned whole number of at most 128 bits.
fn parse_u128_digits(s: &str) -> (r: Option<u128>)
    ensures
        match r {
            Some(v) => unsigned_literal(s@) == Some(v as int),
            None => unsigned_literal(s@) matches None || unsigned_literal(s@)->Some_0 > u128::MAX,
        },
{
    let n = s.unicode_len();
    if n == 0 {
        return None;
    }
    let first = s.get_char(0);
    let rest = if first == '+' {
        s.substring_char(1, n)
    } else {
        s.substring_char(0, n)
    };
    proof {
        assert(s@.drop_first() =~= s@.subrange(1, n as int));
        assert(s@.subrange(0, n as int) =~= s@);
    }
    if !digits_only(rest) {
        proof {
            if first == '+' {
                assert(!(s@[0] >= '0' && s@[0] <= '9'));
            }
            assert(!all_digits(s@));
        }
        return None;
    }
    proof {
        if first == '+' {
            assert(!(s@[0] >= '0' && s@[0] <= '9'));
            assert(!all_digits(s@));
            assert(rest@ == s@.drop_first());
        } else {
            assert(rest@ == s@);
        }
        assert(unsigned_literal(s@) == Some(digits_value(rest@)));
    }
    let m = rest.unicode_len();
    let mut acc: u128 = 0;
    let mut i: usize = 0;
    while i < m
        invariant
            m == rest@.len(),
            i <= m,
            all_digits(rest@),
            unsigned_literal(s@) == Some(digits_value(rest@)),
            acc == digits_value(rest@.take(i as int)),
        decreases m - i,
    {
        let c = rest.get_char(i);
        proof {
            lemma_digits_step(rest@, i as int);
            assert('0' <= rest@[i as int] && rest@[i as int] <= '9');
        }
        let digit = (c as u32 - '0' as u32) as u128;
        let next = match acc.checked_mul(10) {
            Some(t) => t.checked_add(digit),
            None => None,
        };
        match next {
            Some(v) => acc = v,
            None => {
                proof {
                    lemma_digits_grow(rest@, i + 1, m as int);
                    assert(rest@.take(m as int) =~= rest@);
                }
                return None;
            },
        }
        i = i + 1;
    }
    assert(rest@.take(m as int) =~= rest@);
    Some(acc)
}

/// Whether `s` is one decimal digit or more.
fn digits_only(s: &str) -> (r: bool)
    ensures
        r == all_digits(s@),
{
    let n = s.unicode_len();
    if n == 0 {
        return false;
    }
    let mut i: usize = 0;
    while i < n
        invariant
            n == s@.len(),
            i <= n,
            forall|k: int| 0 <= k < i ==> '0' <= #[trigger] s@[k] && s@[k] <= '9',
        decreases n - i,
    {
        let c = s.get_char(i);
        if !('0' <= c && c <= '9') {
            return false;
        }
        i = i + 1;
    }
    true
}

/// `needle` occurs in `hay` at position `i`.
pub open spec fn occurs_at(hay: Seq<char>, needle: Seq<char>, i: int) -> bool {
    0 <= i && i + needle.len() <= hay.len() && hay.subrange(i, i + needle.len()) == needle
}

/// `needle` occurs somewhere in `hay` (the empty text occurs everywhere).
pub open spec fn contains_text(hay: Seq<char>, needle: Seq<char>) -> bool {
    exists|i: int| #[trigger] occurs_at(hay, needle, i)
}

/// Search text is found wherever it occurs: a text contains every text written inside
/// it, the empty text is in every text, and a text is in no shorter one.
pub proof fn law_contains_text(a: Seq<char>, needle: Seq<char>, b: Seq<char>, hay: Seq<char>)
    ensures
        contains_text(a + needle + b, needle),
        contains_text(hay, Seq::empty()),
        needle.len() > hay.len() ==> !contains_text(hay, needle),
{
    assert((a + needle + b).subrange(a.len() as int, (a.len() + needle.len()) as int) =~= needle);
    assert(occurs_at(a + needle + b, needle, a.len() as int));
    assert(hay.subrange(0, 0) =~= Seq::<char>::empty());
    assert(occurs_at(hay, Seq::empty(), 0));
}

/// Whether `needle` occurs in `hay`, as `str::contains` answers.
pub fn text_contains(hay: &str, needle: &str) -> (r: bool)
    ensures
        r == contains_text(hay@, needle@),
{
    let n = hay.unicode_len();
    let m = needle.unicode_len();
    if m > n {
        proof {
            if contains_text(hay@, needle@) {
                let i = choose|i: int| #[trigger] occurs_at(hay@, needle@, i);
            }
        }
        return false;
    }
    let mut i: usize = 0;
    while i <= n - m
        invariant
            n == hay@.len(),
            m == needle@.len(),
            m <= n,
            i <= n - m + 1,
            forall|k: int| 0 <= k < i ==> !#[trigger] occurs_at(hay@, needle@, k),
        decreases n - m + 1 - i,
    {
        let mut j: usize = 0;
        let mut same = true;
        while j < m && same
            invariant
                n == hay@.len(),
                m == needle@.len(),
                i + m <= n,
                j <= m,
                same == (forall|k: int| 0 <= k < j ==> hay@[i + k] == needle@[k]),
            decreases m - j,
        {
            if hay.get_char(i + j) != needle.get_char(j) {
                same = false;
            }
            j = j + 1;
        }
        proof {
            if same {
                assert(hay@.subrange(i as int, i + m) =~= needle@);
            } else {
                let k = choose|k: int| 0 <= k < j && hay@[i + k] != needle@[k];
                assert(hay@.subrange(i as int, i + m)[k] != needle@[k]);
            }
        }
        if same {
            assert(occurs_at(hay@, needle@, i as int));
            return true;
        }
        i = i + 1;
    }
    proof {
        if contains_text(hay@, needle@) {
            let k = choose|k: int| #[trigger] occurs_at(hay@, needle@, k);
            assert(!occurs_at(hay@, needle@, k));
        }
    }
    false
}

/// The lowercase form of a text, as Unicode maps it.
pub uninterp spec fn lowercase(s: Seq<char>) -> Seq<char>;

/// The lowercase form of the text (`str::to_lowercase`: each character by its Unicode
/// lowercase mapping, with the final-sigma rule). The contract names the result: it
/// depends on the text alone.
#[verifier::external_body]
pub(crate) fn to_lowercase(s: &str) -> (r: String)
    ensures
        r@ == lowercase(s@),
{
    s.to_lowercase()
}

} // verus!
