use vstd::prelude::*;

verus! {

pub open spec fn is_space(c: char) -> bool {
    c == ' ' || c == '\t' || c == '\r'
}

pub open spec fn is_dec_digit(c: char) -> bool {
    '0' <= c && c <= '9'
}

pub open spec fn is_hex_digit(c: char) -> bool {
    is_dec_digit(c) || ('a' <= c && c <= 'f') || ('A' <= c && c <= 'F')
}

pub open spec fn is_alpha(c: char) -> bool {
    ('a' <= c && c <= 'z') || ('A' <= c && c <= 'Z')
}

pub open spec fn is_ident_start(c: char) -> bool {
    is_alpha(c) || c == '_'
}

pub open spec fn is_ident_char(c: char) -> bool {
    is_ident_start(c) || is_dec_digit(c)
}

/// The value of a decimal or hexadecimal digit.
pub open spec fn digit_value(c: char) -> int {
    if is_dec_digit(c) {
        c as int - '0' as int
    } else if 'a' <= c && c <= 'f' {
        c as int - 'a' as int + 10
    } else {
        c as int - 'A' as int + 10
    }
}

/// The number the digits of `s` write in base `radix`.
pub open spec fn digits_value(s: Seq<char>, radix: int) -> int
    decreases s.len(),
{
    if s.len() == 0 {
        0
    } else {
        digits_value(s.drop_last(), radix) * radix + digit_value(s.last())
    }
}

pub open spec fn all_dec_digits(s: Seq<char>) -> bool {
    forall|i: int| 0 <= i < s.len() ==> is_dec_digit(#[trigger] s[i])
}

pub open spec fn all_hex_digits(s: Seq<char>) -> bool {
    forall|i: int| 0 <= i < s.len() ==> is_hex_digit(#[trigger] s[i])
}

/// An identifier: a letter or underscore, then letters, digits and underscores.
pub open spec fn is_identifier(s: Seq<char>) -> bool {
    s.len() > 0 && is_ident_start(s[0]) && forall|i: int| 1 <= i < s.len() ==> is_ident_char(#[trigger] s[i])
}

pub fn is_space_char(c: char) -> (b: bool)
    ensures
        b == is_space(c),
{
    c == ' ' || c == '\t' || c == '\r'
}

pub fn is_dec_digit_char(c: char) -> (b: bool)
    ensures
        b == is_dec_digit(c),
{
    '0' <= c && c <= '9'
}

pub fn is_hex_digit_char(c: char) -> (b: bool)
    ensures
        b == is_hex_digit(c),
{
    ('0' <= c && c <= '9') || ('a' <= c && c <= 'f') || ('A' <= c && c <= 'F')
}

pub fn is_ident_start_char(c: char) -> (b: bool)
    ensures
        b == is_ident_start(c),
{
    ('a' <= c && c <= 'z') || ('A' <= c && c <= 'Z') || c == '_'
}

pub fn is_ident_char_char(c: char) -> (b: bool)
    ensures
        b == is_ident_char(c),
{
    ('a' <= c && c <= 'z') || ('A' <= c && c <= 'Z') || c == '_' || ('0' <= c && c <= '9')
}

fn digit_of(c: char) -> (d: u32)
    requires
        is_hex_digit(c),
    ensures
        d == digit_value(c),
        d < 16,
{
    if '0' <= c && c <= '9' {
        (c as u32) - ('0' as u32)
    } else if 'a' <= c && c <= 'f' {
        (c as u32) - ('a' as u32) + 10
    } else {
        (c as u32) - ('A' as u32) + 10
    }
}

proof fn lemma_digit_value_range(c: char)
    requires
        is_hex_digit(c),
    ensures
        0 <= digit_value(c) < 16,
        is_dec_digit(c) ==> digit_value(c) < 10,
{
}

/// Digits never get smaller as more follow.
proof fn lemma_digits_value_grows(s: Seq<char>, radix: int, j: int, k: int)
    requires
        radix >= 2,
        all_hex_digits(s),
        0 <= j <= k <= s.len(),
    ensures
        0 <= digits_value(s.subrange(0, j), radix) <= digits_value(s.subrange(0, k), radix),
    decreases k - j,
{
    lemma_digits_value_nonneg(s.subrange(0, k), radix);
    if j < k {
        lemma_digits_value_grows(s, radix, j, k - 1);
        let p = s.subrange(0, k - 1);
        assert(s.subrange(0, k).drop_last() == p);
        lemma_digit_value_range(s[k - 1]);
        lemma_digits_value_nonneg(p, radix);
        let v = digits_value(p, radix);
        assert(v * radix >= v) by (nonlinear_arith)
            requires
                v >= 0,
                radix >= 2,
        ;
    }
}

proof fn lemma_digits_value_nonneg(s: Seq<char>, radix: int)
    requires
        radix >= 2,
        forall|i: int| 0 <= i < s.len() ==> is_hex_digit(#[trigger] s[i]),
    ensures
        digits_value(s, radix) >= 0,
    decreases s.len(),
{
    if s.len() > 0 {
        assert forall|i: int| 0 <= i < s.drop_last().len() implies is_hex_digit(#[trigger] s.drop_last()[i]) by {
            assert(s.drop_last()[i] == s[i]);
        }
        lemma_digits_value_nonneg(s.drop_last(), radix);
        lemma_digit_value_range(s.last());
        let v = digits_value(s.drop_last(), radix);
        assert(v * radix >= 0) by (nonlinear_arith)
            requires
                v >= 0,
                radix >= 2,
        ;
    }
}

/// The value of a run of digits in base `radix`, when it is at most `bound`.
pub fn digits_to_value(s: &[char], radix: u32, bound: u64) -> (r: Option<u64>)
    requires
        radix == 10 || radix == 16,
        bound <= 0x1_0000_0000,
        radix == 10 ==> all_dec_digits(s@),
        radix == 16 ==> all_hex_digits(s@),
    ensures
        match r {
            Some(v) => v == digits_value(s@, radix as int) && v <= bound,
            None => digits_value(s@, radix as int) > bound,
        },
{
    proof {
        assert(all_hex_digits(s@)) by {
            if radix == 10 {
                assert forall|i: int| 0 <= i < s@.len() implies is_hex_digit(#[trigger] s@[i]) by {
                    assert(is_dec_digit(s@[i]));
                }
            }
        }
    }
    let mut v: u64 = 0;
    let mut i: usize = 0;
    assert(s@.subrange(0, 0) == Seq::<char>::empty());
    while i < s.len()
        invariant
            radix == 10 || radix == 16,
            bound <= 0x1_0000_0000,
            all_hex_digits(s@),
            i <= s@.len(),
            v == digits_value(s@.subrange(0, i as int), radix as int),
            v <= bound,
        decreases s@.len() - i,
    {
        let d = digit_of(s[i]);
        assert(s@.subrange(0, i + 1).drop_last() == s@.subrange(0, i as int));
        assert(s@.subrange(0, i + 1).last() == s@[i as int]);
        assert(v * radix <= 0x10_0000_0000) by (nonlinear_arith)
            requires
                v <= 0x1_0000_0000,
                radix <= 16,
        ;
        let next: u64 = v * (radix as u64) + (d as u64);
        if next > bound {
            proof {
                lemma_digits_value_grows(s@, radix as int, i + 1, s@.len() as int);
                assert(s@.subrange(0, s@.len() as int) == s@);
            }
            return None;
        }
        v = next;
        i = i + 1;
    }
    assert(s@.subrange(0, i as int) == s@);
    Some(v)
}

/// The characters of `v` from `a` up to `b`.
pub fn sub_chars(v: &[char], a: usize, b: usize) -> (r: Vec<char>)
    requires
        a <= b <= v@.len(),
    ensures
        r@ == v@.subrange(a as int, b as int),
{
    let mut r: Vec<char> = Vec::new();
    let mut i: usize = a;
    while i < b
        invariant
            a <= i <= b,
            b <= v@.len(),
            r@ == v@.subrange(a as int, i as int),
        decreases b - i,
    {
        r.push(v[i]);
        i = i + 1;
        assert(r@ =~= v@.subrange(a as int, i as int));
    }
    r
}

/// `s` without leading and trailing blanks.
pub open spec fn trimmed(s: Seq<char>) -> Seq<char>
    decreases s.len(),
{
    if s.len() > 0 && is_space(s[0]) {
        trimmed(s.drop_first())
    } else if s.len() > 0 && is_space(s.last()) {
        trimmed(s.drop_last())
    } else {
        s
    }
}

/// The position of the first character that is not blank, from `i` on.
fn skip_spaces(v: &[char], i: usize) -> (j: usize)
    requires
        i <= v@.len(),
    ensures
        i <= j <= v@.len(),
        forall|k: int| i <= k < j ==> is_space(#[trigger] v@[k]),
        j < v@.len() ==> !is_space(v@[j as int]),
{
    let mut j = i;
    while j < v.len() && is_space_char(v[j])
        invariant
            i <= j <= v@.len(),
            forall|k: int| i <= k < j ==> is_space(#[trigger] v@[k]),
        decreases v@.len() - j,
    {
        j = j + 1;
    }
    j
}

proof fn lemma_trimmed_drop_front(s: Seq<char>, n: int)
    requires
        0 <= n <= s.len(),
        forall|k: int| 0 <= k < n ==> is_space(#[trigger] s[k]),
    ensures
        trimmed(s) == trimmed(s.subrange(n, s.len() as int)),
    decreases n,
{
    if n > 0 {
        assert(s.drop_first().subrange(n - 1, s.drop_first().len() as int) == s.subrange(n, s.len() as int));
        assert forall|k: int| 0 <= k < n - 1 implies is_space(#[trigger] s.drop_first()[k]) by {
            assert(s.drop_first()[k] == s[k + 1]);
        }
        lemma_trimmed_drop_front(s.drop_first(), n - 1);
    } else {
        assert(s.subrange(0, s.len() as int) == s);
    }
}

proof fn lemma_trimmed_drop_back(s: Seq<char>, n: int)
    requires
        0 <= n <= s.len(),
        s.len() == 0 || !is_space(s[0]),
        forall|k: int| n <= k < s.len() ==> is_space(#[trigger] s[k]),
        n == 0 || !is_space(s[n - 1]) || n == s.len(),
    ensures
        trimmed(s) == trimmed(s.subrange(0, n)),
    decreases s.len() - n,
{
    if n < s.len() {
        if s.len() > 0 && is_space(s[0]) {
        } else {
            assert(s.drop_last().subrange(0, n) == s.subrange(0, n));
            if s.drop_last().len() > 0 {
                assert(s.drop_last()[0] == s[0]);
            }
            assert forall|k: int| n <= k < s.drop_last().len() implies is_space(#[trigger] s.drop_last()[k]) by {
                assert(s.drop_last()[k] == s[k]);
            }
            lemma_trimmed_drop_back(s.drop_last(), n);
        }
    } else {
        assert(s.subrange(0, n) == s);
    }
}

/// `v` without leading and trailing blanks.
pub fn trim_chars(v: &[char]) -> (r: Vec<char>)
    ensures
        r@ == trimmed(v@),
        r@.len() == 0 || (!is_space(r@[0]) && !is_space(r@.last())),
{
    let a = skip_spaces(v, 0);
    let mut b = v.len();
    while b > a && is_space_char(v[b - 1])
        invariant
            a <= b <= v@.len(),
            forall|k: int| b <= k < v@.len() ==> is_space(#[trigger] v@[k]),
        decreases b,
    {
        b = b - 1;
    }
    proof {
        lemma_trimmed_drop_front(v@, a as int);
        let t = v@.subrange(a as int, v@.len() as int);
        assert forall|k: int| (b - a) <= k < t.len() implies is_space(#[trigger] t[k]) by {
            assert(t[k] == v@[a + k]);
        }
        if t.len() > 0 {
            assert(t[0] == v@[a as int]);
        }
        if b > a {
            assert(t[b - a - 1] == v@[b - 1]);
        }
        lemma_trimmed_drop_back(t, (b - a) as int);
        assert(t.subrange(0, (b - a) as int) == v@.subrange(a as int, b as int));
    }
    sub_chars(v, a, b)
}

/// The sixteen hexadecimal digits in lower case, in order of value.
pub open spec fn hex_digit_chars() -> Seq<char> {
    seq!['0', '1', '2', '3', '4', '5', '6', '7', '8', '9', 'a', 'b', 'c', 'd', 'e', 'f']
}

/// A digit's value is its place among the sixteen hexadecimal digits,
/// whether a letter digit is written in lower or in upper case.
pub proof fn lemma_digit_value_is_its_place(c: char)
    requires
        is_hex_digit(c),
    ensures
        0 <= digit_value(c) < 16,
        !('A' <= c <= 'F') ==> hex_digit_chars()[digit_value(c)] == c,
        'A' <= c <= 'F' ==> hex_digit_chars()[digit_value(c)] as int == c as int + 32,
{
}

} // verus!
