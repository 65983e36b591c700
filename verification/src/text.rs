//! Text helpers shared by the models: decimal rendering of integers,
//! lowercase hexadecimal, the hyphenated form of a 128-bit identifier,
//! and equality of string slices.
use vstd::prelude::*;

verus! {

/// The character of a decimal digit `0 <= d < 10`.
pub open spec fn digit_char(d: int) -> char {
    if d == 0 { '0' }
    else if d == 1 { '1' }
    else if d == 2 { '2' }
    else if d == 3 { '3' }
    else if d == 4 { '4' }
    else if d == 5 { '5' }
    else if d == 6 { '6' }
    else if d == 7 { '7' }
    else if d == 8 { '8' }
    else { '9' }
}

/// Decimal digits of a natural number, most significant first, no leading zeros.
pub open spec fn nat_text(n: nat) -> Seq<char>
    decreases n,
{
    if n < 10 {
        seq![digit_char(n as int)]
    } else {
        nat_text(n / 10).push(digit_char((n % 10) as int))
    }
}

/// Decimal text of an integer, with a leading `-` for negative values.
pub open spec fn int_text(i: int) -> Seq<char> {
    if i < 0 {
        seq!['-'] + nat_text((-i) as nat)
    } else {
        nat_text(i as nat)
    }
}

/// Lowercase hexadecimal digit of `0 <= n < 16`.
pub open spec fn hex_char(n: int) -> char {
    if n < 10 { digit_char(n) }
    else if n == 10 { 'a' }
    else if n == 11 { 'b' }
    else if n == 12 { 'c' }
    else if n == 13 { 'd' }
    else if n == 14 { 'e' }
    else { 'f' }
}

/// Lowercase hexadecimal text of a byte string: two digits per byte, high nibble first.
pub open spec fn hex_lower(bytes: Seq<u8>) -> Seq<char>
    decreases bytes.len(),
{
    if bytes.len() == 0 {
        Seq::empty()
    } else {
        hex_lower(bytes.drop_last()) + seq![
            hex_char((bytes.last() / 16) as int),
            hex_char((bytes.last() % 16) as int),
        ]
    }
}

/// The 32 hexadecimal digits of a 128-bit value, most significant first.
pub open spec fn hex32(v: u128) -> Seq<char> {
    Seq::new(32, |i: int| hex_char(((v as int) / pow16(31 - i)) % 16))
}

/// `16` to the power `e`.
pub open spec fn pow16(e: int) -> int
    decreases e,
{
    if e <= 0 { 1 } else { 16 * pow16(e - 1) }
}

/// The hyphenated lowercase form `8-4-4-4-12` of a 128-bit identifier.
pub open spec fn uuid_text(v: u128) -> Seq<char> {
    let h = hex32(v);
    h.subrange(0, 8) + seq!['-'] + h.subrange(8, 12) + seq!['-'] + h.subrange(12, 16)
        + seq!['-'] + h.subrange(16, 20) + seq!['-'] + h.subrange(20, 32)
}

/// A decimal digit character.
pub open spec fn is_digit(c: char) -> bool {
    '0' <= c && c <= '9'
}

/// The decimal text of a number is made of digits, one of them at least.
pub proof fn lemma_nat_text_digits(n: nat)
    ensures
        nat_text(n).len() >= 1,
        n >= 10 ==> nat_text(n).len() >= 2,
        forall|i: int| 0 <= i < nat_text(n).len() ==> #[trigger] is_digit(nat_text(n)[i]),
    decreases n,
{
    if n >= 10 {
        lemma_nat_text_digits(n / 10);
        let t = nat_text(n);
        assert forall|i: int| 0 <= i < t.len() implies #[trigger] is_digit(t[i]) by {
            if i < t.len() - 1 {
                assert(t[i] == nat_text(n / 10)[i]);
            }
        }
    }
}

/// A lowercase hexadecimal digit character.
pub open spec fn is_hex_lower_char(c: char) -> bool {
    ('0' <= c && c <= '9') || ('a' <= c && c <= 'f')
}

/// The hex text of a byte string has two lowercase hex digits per byte.
pub proof fn lemma_hex_lower(bytes: Seq<u8>)
    ensures
        hex_lower(bytes).len() == 2 * bytes.len(),
        forall|i: int| 0 <= i < hex_lower(bytes).len() ==> #[trigger] is_hex_lower_char(hex_lower(bytes)[i]),
    decreases bytes.len(),
{
    if bytes.len() > 0 {
        lemma_hex_lower(bytes.drop_last());
        let h = hex_lower(bytes);
        let p = hex_lower(bytes.drop_last());
        assert forall|i: int| 0 <= i < h.len() implies #[trigger] is_hex_lower_char(h[i]) by {
            if i < p.len() {
                assert(h[i] == p[i]);
            }
        }
    }
}

/// Different digits have different characters.
proof fn lemma_digit_char_injective(a: int, b: int)
    requires
        0 <= a < 10,
        0 <= b < 10,
        digit_char(a) == digit_char(b),
    ensures
        a == b,
{
}

/// Different numbers have different decimal texts.
pub proof fn lemma_nat_text_injective(n: nat, m: nat)
    requires
        nat_text(n) == nat_text(m),
    ensures
        n == m,
    decreases n,
{
    lemma_nat_text_digits(n);
    lemma_nat_text_digits(m);
    if n < 10 && m < 10 {
        assert(nat_text(n) == seq![digit_char(n as int)]);
        assert(nat_text(m) == seq![digit_char(m as int)]);
        assert(nat_text(n)[0] == digit_char(n as int));
        assert(nat_text(m)[0] == digit_char(m as int));
        lemma_digit_char_injective(n as int, m as int);
    } else if n >= 10 && m >= 10 {
        let a = nat_text(n);
        let b = nat_text(m);
        assert(a.last() == b.last());
        lemma_digit_char_injective((n % 10) as int, (m % 10) as int);
        assert(a.drop_last() == nat_text(n / 10));
        assert(b.drop_last() == nat_text(m / 10));
        lemma_nat_text_injective(n / 10, m / 10);
    } else {
        assert(nat_text(n).len() != nat_text(m).len());
    }
}

/// Different hex digits have different characters.
proof fn lemma_hex_char_injective(a: int, b: int)
    requires
        0 <= a < 16,
        0 <= b < 16,
        hex_char(a) == hex_char(b),
    ensures
        a == b,
{
}

/// Powers of sixteen are positive, each sixteen times the one before.
proof fn lemma_pow16(e: int)
    requires
        0 <= e,
    ensures
        pow16(e) > 0,
        pow16(e + 1) == 16 * pow16(e),
    decreases e,
{
    if e > 0 {
        lemma_pow16(e - 1);
    }
}

/// Values whose hex digits from position `k` up agree have the same quotient by
/// `16^k`.
proof fn lemma_high_digits(v: int, w: int, k: int)
    requires
        0 <= v < pow16(32),
        0 <= w < pow16(32),
        0 <= k <= 32,
        forall|j: int| k <= j < 32 ==> #[trigger] ((v / pow16(j)) % 16) == (w / pow16(j)) % 16,
    ensures
        v / pow16(k) == w / pow16(k),
    decreases 32 - k,
{
    lemma_pow16(k);
    if k == 32 {
        vstd::arithmetic::div_mod::lemma_basic_div(v, pow16(32));
        vstd::arithmetic::div_mod::lemma_basic_div(w, pow16(32));
    } else {
        lemma_high_digits(v, w, k + 1);
        vstd::arithmetic::div_mod::lemma_div_denominator(v, pow16(k), 16);
        vstd::arithmetic::div_mod::lemma_div_denominator(w, pow16(k), 16);
        assert(pow16(k) * 16 == pow16(k + 1));
        let x = v / pow16(k);
        let y = w / pow16(k);
        assert(x == 16 * (x / 16) + x % 16);
        assert(y == 16 * (y / 16) + y % 16);
        assert((v / pow16(k)) % 16 == (w / pow16(k)) % 16);
    }
}

/// The hex digits of a value, read back from its hyphenated form.
proof fn lemma_uuid_hex(v: u128)
    ensures
        hex32(v) == uuid_text(v).subrange(0, 8) + uuid_text(v).subrange(9, 13) + uuid_text(v).subrange(14, 18)
            + uuid_text(v).subrange(19, 23) + uuid_text(v).subrange(24, 36),
{
    let h = hex32(v);
    let u = uuid_text(v);
    assert(u.len() == 36);
    assert(h =~= u.subrange(0, 8) + u.subrange(9, 13) + u.subrange(14, 18) + u.subrange(19, 23)
        + u.subrange(24, 36));
}

/// Different identifiers have different hyphenated forms.
pub proof fn lemma_uuid_text_injective(v: u128, w: u128)
    requires
        uuid_text(v) == uuid_text(w),
    ensures
        v == w,
{
    lemma_uuid_hex(v);
    lemma_uuid_hex(w);
    let hv = hex32(v);
    let hw = hex32(w);
    assert(hv == hw);
    assert(pow16(32) == 0x1_0000_0000_0000_0000_0000_0000_0000_0000) by {
        assert(pow16(0) == 1);
        assert(pow16(1) == 16);
        assert(pow16(2) == 256);
        assert(pow16(3) == 4096);
        assert(pow16(4) == 65536);
        assert(pow16(5) == 1048576);
        assert(pow16(6) == 16777216);
        assert(pow16(7) == 268435456);
        assert(pow16(8) == 4294967296);
        assert(pow16(9) == 68719476736);
        assert(pow16(10) == 1099511627776);
        assert(pow16(11) == 17592186044416);
        assert(pow16(12) == 281474976710656);
        assert(pow16(13) == 4503599627370496);
        assert(pow16(14) == 72057594037927936);
        assert(pow16(15) == 1152921504606846976);
        assert(pow16(16) == 18446744073709551616);
        assert(pow16(17) == 295147905179352825856);
        assert(pow16(18) == 4722366482869645213696);
        assert(pow16(19) == 75557863725914323419136);
        assert(pow16(20) == 1208925819614629174706176);
        assert(pow16(21) == 19342813113834066795298816);
        assert(pow16(22) == 309485009821345068724781056);
        assert(pow16(23) == 4951760157141521099596496896);
        assert(pow16(24) == 79228162514264337593543950336);
        assert(pow16(25) == 1267650600228229401496703205376);
        assert(pow16(26) == 20282409603651670423947251286016);
        assert(pow16(27) == 324518553658426726783156020576256);
        assert(pow16(28) == 5192296858534827628530496329220096);
        assert(pow16(29) == 83076749736557242056487941267521536);
        assert(pow16(30) == 1329227995784915872903807060280344576);
        assert(pow16(31) == 21267647932558653966460912964485513216);
        assert(pow16(32) == 340282366920938463463374607431768211456);
    }
    assert forall|j: int| 0 <= j < 32 implies #[trigger] (((v as int) / pow16(j)) % 16) == ((w as int) / pow16(j)) % 16 by {
        lemma_pow16(j);
        assert(hv[31 - j] == hw[31 - j]);
        assert(hv[31 - j] == hex_char(((v as int) / pow16(j)) % 16));
        assert(hw[31 - j] == hex_char(((w as int) / pow16(j)) % 16));
        lemma_hex_char_injective(((v as int) / pow16(j)) % 16, ((w as int) / pow16(j)) % 16);
    }
    lemma_high_digits(v as int, w as int, 0);
    assert(pow16(0) == 1);
}

fn digit_str(d: u64) -> (r: &'static str)
    requires
        d < 10,
    ensures
        r@ == seq![digit_char(d as int)],
{
    proof {
        reveal_strlit("0");
        reveal_strlit("1");
        reveal_strlit("2");
        reveal_strlit("3");
        reveal_strlit("4");
        reveal_strlit("5");
        reveal_strlit("6");
        reveal_strlit("7");
        reveal_strlit("8");
        reveal_strlit("9");
    }
    if d == 0 { "0" }
    else if d == 1 { "1" }
    else if d == 2 { "2" }
    else if d == 3 { "3" }
    else if d == 4 { "4" }
    else if d == 5 { "5" }
    else if d == 6 { "6" }
    else if d == 7 { "7" }
    else if d == 8 { "8" }
    else { "9" }
}

fn push_nat_text(n: u64, out: &mut String)
    ensures
        final(out)@ == old(out)@ + nat_text(n as nat),
    decreases n,
{
    if n >= 10 {
        push_nat_text(n / 10, out);
    }
    out.append(digit_str(n % 10));
    proof {
        if n >= 10 {
            assert(nat_text(n as nat) == nat_text((n / 10) as nat).push(digit_char((n % 10) as int)));
        }
    }
}

/// Appends the decimal text of `i` to `out`.
pub fn push_int_text(i: i64, out: &mut String)
    ensures
        final(out)@ == old(out)@ + int_text(i as int),
{
    if i < 0 {
        proof { reveal_strlit("-"); }
        out.append("-");
        let m: u64 = (0i128 - (i as i128)) as u64;
        push_nat_text(m, out);
    } else {
        push_nat_text(i as u64, out);
    }
}

/// Decimal text of `n`, as `n.to_string()` writes it.
pub fn usize_to_text(n: usize) -> (r: String)
    ensures
        r@ == nat_text(n as nat),
{
    let mut s = String::new();
    push_nat_text(n as u64, &mut s);
    s
}

/// Decimal text of `i`, as `i.to_string()` writes it.
pub fn int_to_text(i: i64) -> (r: String)
    ensures
        r@ == int_text(i as int),
{
    let mut s = String::new();
    push_int_text(i, &mut s);
    s
}

/// Whether two string slices hold the same characters.
pub fn text_eq(a: &str, b: &str) -> (r: bool)
    ensures
        r == (a@ == b@),
{
    let x = a.to_string();
    let y = b.to_string();
    x == y
}

/// A new string holding the characters of `s`.
pub fn text(s: &str) -> (r: String)
    ensures
        r@ == s@,
{
    s.to_string()
}

/// A copy of an optional string.
pub fn dup_opt_text(o: &Option<String>) -> (r: Option<String>)
    ensures
        r == *o,
{
    match o {
        Some(s) => Some(s.clone()),
        None => None,
    }
}

/// The text of an optional string, empty when absent.
pub open spec fn opt_text(o: Option<String>) -> Seq<char> {
    match o {
        Some(s) => s@,
        None => Seq::empty(),
    }
}

} // verus!
