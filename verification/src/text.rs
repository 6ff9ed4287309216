//! Character-level text helpers with exact specifications: comparison,
//! ASCII case folding, Unicode whitespace trimming, substring search,
//! decimal digits.
use vstd::prelude::*;
use vstd::string::*;

verus! {

broadcast use vstd::string::group_string_axioms;

/// Whether two string slices hold the same characters.
pub fn str_eq(a: &str, b: &str) -> (r: bool)
    ensures
        r == (a@ == b@),
{
    let x = a.to_string();
    let y = b.to_string();
    x == y
}

/// The characters of a string slice, in order.
pub fn chars_of(s: &str) -> (v: Vec<char>)
    ensures
        v@ == s@,
{
    let n = s.unicode_len();
    let mut v: Vec<char> = Vec::new();
    let mut i: usize = 0;
    while i < n
        invariant
            n == s@.len(),
            i <= n,
            v@ == s@.subrange(0, i as int),
        decreases n - i,
    {
        let c = s.get_char(i);
        v.push(c);
        i = i + 1;
    }
    v
}

/// Collects characters into a `String` (std's `FromIterator<&char>` for `String`).
#[verifier::external_body]
pub(crate) fn string_from_chars(v: &Vec<char>) -> (s: String)
    ensures
        s@ == v@,
{
    v.iter().collect()
}

pub open spec fn is_ascii_upper(c: char) -> bool {
    'A' <= c && c <= 'Z'
}

pub open spec fn is_ascii_digit(c: char) -> bool {
    '0' <= c && c <= '9'
}

/// ASCII lower-casing of one character; other characters are unchanged.
pub open spec fn ascii_lower(c: char) -> char {
    if is_ascii_upper(c) {
        ((c as u32) + 32) as char
    } else {
        c
    }
}

/// ASCII lower-casing of a text (`str::to_ascii_lowercase`).
pub open spec fn lower(s: Seq<char>) -> Seq<char> {
    s.map_values(|c: char| ascii_lower(c))
}

/// Unicode `White_Space`, the set that `char::is_whitespace` and `str::trim` use.
pub open spec fn is_ws(c: char) -> bool {
    ||| c == '\t'
    ||| c == '\n'
    ||| c == '\u{0B}'
    ||| c == '\u{0C}'
    ||| c == '\r'
    ||| c == ' '
    ||| c == '\u{85}'
    ||| c == '\u{A0}'
    ||| c == '\u{1680}'
    ||| ('\u{2000}' <= c && c <= '\u{200A}')
    ||| c == '\u{2028}'
    ||| c == '\u{2029}'
    ||| c == '\u{202F}'
    ||| c == '\u{205F}'
    ||| c == '\u{3000}'
}

/// A text without its leading whitespace.
pub open spec fn trim_start(s: Seq<char>) -> Seq<char>
    decreases s.len(),
{
    if s.len() > 0 && is_ws(s[0]) {
        trim_start(s.drop_first())
    } else {
        s
    }
}

/// A text without its trailing whitespace.
pub open spec fn trim_end(s: Seq<char>) -> Seq<char>
    decreases s.len(),
{
    if s.len() > 0 && is_ws(s.last()) {
        trim_end(s.drop_last())
    } else {
        s
    }
}

/// A text without leading and trailing whitespace (`str::trim`).
pub open spec fn trim(s: Seq<char>) -> Seq<char> {
    trim_end(trim_start(s))
}

/// Whether `needle` occurs in `hay` at index `i`.
pub open spec fn occurs_at(hay: Seq<char>, needle: Seq<char>, i: int) -> bool {
    0 <= i && i + needle.len() <= hay.len() && hay.subrange(i, i + needle.len()) == needle
}

/// Whether `needle` occurs in `hay` (`str::contains` with a string pattern).
pub open spec fn contains(hay: Seq<char>, needle: Seq<char>) -> bool {
    exists|i: int| occurs_at(hay, needle, i)
}

pub open spec fn starts_with(s: Seq<char>, prefix: Seq<char>) -> bool {
    prefix.len() <= s.len() && s.subrange(0, prefix.len() as int) == prefix
}

pub open spec fn ends_with(s: Seq<char>, suffix: Seq<char>) -> bool {
    suffix.len() <= s.len() && s.subrange(s.len() - suffix.len(), s.len() as int) == suffix
}

/// Whether two texts are equal up to ASCII case (`str::eq_ignore_ascii_case`).
pub open spec fn eq_ignore_case(a: Seq<char>, b: Seq<char>) -> bool {
    lower(a) == lower(b)
}

/// Whether every character is an ASCII digit.
pub open spec fn all_digits(s: Seq<char>) -> bool {
    forall|i: int| 0 <= i < s.len() ==> is_ascii_digit(#[trigger] s[i])
}

/// The number that a string of ASCII digits denotes.
pub open spec fn digits_value(s: Seq<char>) -> nat
    decreases s.len(),
{
    if s.len() == 0 {
        0
    } else {
        digits_value(s.drop_last()) * 10 + ((s.last() as u32) - ('0' as u32)) as nat
    }
}

/// The digit character of `d < 10`.
pub open spec fn digit_char(d: nat) -> char {
    ((d + ('0' as u32)) as u32) as char
}

/// The shortest decimal text of a natural number.
pub open spec fn nat_decimal(n: nat) -> Seq<char>
    decreases n,
{
    if n < 10 {
        seq![digit_char(n)]
    } else {
        nat_decimal(n / 10).push(digit_char(n % 10))
    }
}

/// The decimal text of an integer, as Rust's `Display` writes it.
pub open spec fn int_decimal(x: int) -> Seq<char> {
    if x < 0 {
        seq!['-'] + nat_decimal((-x) as nat)
    } else {
        nat_decimal(x as nat)
    }
}

pub fn ascii_lower_char(c: char) -> (r: char)
    ensures
        r == ascii_lower(c),
{
    if 'A' <= c && c <= 'Z' {
        let u: u32 = c as u32;
        let b: u8 = u as u8;
        (b + 32) as char
    } else {
        c
    }
}

/// ASCII lower-casing of a character vector.
pub fn lower_chars(v: &Vec<char>) -> (r: Vec<char>)
    ensures
        r@ == lower(v@),
{
    let mut r: Vec<char> = Vec::new();
    let mut i: usize = 0;
    while i < v.len()
        invariant
            i <= v.len(),
            r@ == lower(v@.subrange(0, i as int)),
        decreases v.len() - i,
    {
        let c = ascii_lower_char(v[i]);
        proof {
            assert(lower(v@.subrange(0, i + 1)) =~= lower(v@.subrange(0, i as int)).push(c));
        }
        r.push(c);
        i = i + 1;
    }
    assert(v@.subrange(0, v.len() as int) =~= v@);
    r
}

/// `str::to_ascii_lowercase`.
pub fn to_ascii_lowercase(s: &str) -> (r: String)
    ensures
        r@ == lower(s@),
{
    let v = chars_of(s);
    let l = lower_chars(&v);
    string_from_chars(&l)
}

pub fn is_ws_char(c: char) -> (r: bool)
    ensures
        r == is_ws(c),
{
    c == '\t' || c == '\n' || c == '\u{0B}' || c == '\u{0C}' || c == '\r' || c == ' '
        || c == '\u{85}' || c == '\u{A0}' || c == '\u{1680}' || ('\u{2000}' <= c && c
        <= '\u{200A}') || c == '\u{2028}' || c == '\u{2029}' || c == '\u{202F}' || c
        == '\u{205F}' || c == '\u{3000}'
}

/// Whitespace trimming of a character vector.
pub fn trim_chars(v: &Vec<char>) -> (r: Vec<char>)
    ensures
        r@ == trim(v@),
{
    let n = v.len();
    let mut start: usize = 0;
    proof {
        assert(v@.subrange(0, n as int) =~= v@);
    }
    while start < n && is_ws_char(v[start])
        invariant
            start <= n,
            n == v.len(),
            trim_start(v@) == trim_start(v@.subrange(start as int, n as int)),
        decreases n - start,
    {
        proof {
            let rest = v@.subrange(start as int, n as int);
            assert(rest[0] == v@[start as int]);
            assert(rest.drop_first() =~= v@.subrange(start + 1, n as int));
        }
        start = start + 1;
    }
    let ghost ts = v@.subrange(start as int, n as int);
    assert(trim_start(v@) == ts) by {
        if ts.len() > 0 {
            assert(ts[0] == v@[start as int]);
        }
    }
    let mut end: usize = n;
    assert(ts.subrange(0, (end - start) as int) =~= ts);
    while end > start && is_ws_char(v[end - 1])
        invariant
            start <= end <= n,
            n == v.len(),
            ts == v@.subrange(start as int, n as int),
            trim_end(ts) == trim_end(v@.subrange(start as int, end as int)),
        decreases end - start,
    {
        proof {
            let cur = v@.subrange(start as int, end as int);
            assert(cur.last() == v@[end - 1]);
            assert(cur.drop_last() =~= v@.subrange(start as int, end - 1));
        }
        end = end - 1;
    }
    proof {
        let cur = v@.subrange(start as int, end as int);
        if cur.len() > 0 {
            assert(cur.last() == v@[end - 1]);
        }
    }
    let mut r: Vec<char> = Vec::new();
    let mut i: usize = start;
    while i < end
        invariant
            start <= i <= end <= n,
            n == v.len(),
            r@ == v@.subrange(start as int, i as int),
        decreases end - i,
    {
        r.push(v[i]);
        proof {
            assert(v@.subrange(start as int, i + 1) =~= v@.subrange(start as int, i as int).push(v@[i as int]));
        }
        i = i + 1;
    }
    r
}

/// `str::trim`, as an owned string.
pub fn trimmed(s: &str) -> (r: String)
    ensures
        r@ == trim(s@),
{
    let v = chars_of(s);
    let t = trim_chars(&v);
    string_from_chars(&t)
}

/// The trimmed text when it is not empty (the frequent
/// `.map(str::trim).filter(|v| !v.is_empty()).map(str::to_string)`).
pub fn trimmed_non_empty(s: &str) -> (r: Option<String>)
    ensures
        match r {
            Some(t) => t@ == trim(s@) && t@.len() > 0,
            None => trim(s@).len() == 0,
        },
{
    let t = trimmed(s);
    if t.as_str().unicode_len() == 0 {
        None
    } else {
        Some(t)
    }
}

/// `str::trim().to_ascii_lowercase()`.
pub fn trimmed_lower(s: &str) -> (r: String)
    ensures
        r@ == lower(trim(s@)),
{
    let v = chars_of(s);
    let t = trim_chars(&v);
    let l = lower_chars(&t);
    string_from_chars(&l)
}

/// Whether `needle` occurs in `hay` at index `i`.
pub fn chars_occur_at(hay: &Vec<char>, needle: &Vec<char>, i: usize) -> (r: bool)
    requires
        i + needle.len() <= hay.len(),
    ensures
        r == occurs_at(hay@, needle@, i as int),
{
    let mut j: usize = 0;
    while j < needle.len()
        invariant
            j <= needle.len(),
            i + needle.len() <= hay.len(),
            forall|k: int| 0 <= k < j ==> hay@[i + k] == needle@[k],
        decreases needle.len() - j,
    {
        if hay[i + j] != needle[j] {
            assert(hay@.subrange(i as int, i + needle.len())[j as int] != needle@[j as int]);
            return false;
        }
        j = j + 1;
    }
    assert(hay@.subrange(i as int, i + needle.len()) =~= needle@);
    true
}

/// Substring search on character vectors.
pub fn contains_chars(hay: &Vec<char>, needle: &Vec<char>) -> (r: bool)
    ensures
        r == contains(hay@, needle@),
{
    if needle.len() > hay.len() {
        return false;
    }
    if needle.len() == 0 {
        assert(hay@.subrange(0, 0) =~= needle@);
        assert(occurs_at(hay@, needle@, 0));
        return true;
    }
    let last = hay.len() - needle.len();
    let mut i: usize = 0;
    while i <= last
        invariant
            last + needle.len() == hay.len(),
            needle.len() > 0,
            i <= last + 1,
            forall|k: int| 0 <= k < i ==> !occurs_at(hay@, needle@, k),
        decreases last + 1 - i,
    {
        if chars_occur_at(hay, needle, i) {
            return true;
        }
        i = i + 1;
    }
    false
}

/// `str::contains` with a string pattern.
pub fn str_contains(hay: &str, needle: &str) -> (r: bool)
    ensures
        r == contains(hay@, needle@),
{
    let h = chars_of(hay);
    let n = chars_of(needle);
    contains_chars(&h, &n)
}

/// `str::eq_ignore_ascii_case`.
pub fn eq_ignore_ascii_case(a: &str, b: &str) -> (r: bool)
    ensures
        r == eq_ignore_case(a@, b@),
{
    let x = to_ascii_lowercase(a);
    let y = to_ascii_lowercase(b);
    x == y
}

/// Whether a text is empty once trimmed.
pub fn is_blank(s: &str) -> (r: bool)
    ensures
        r == (trim(s@).len() == 0),
{
    let v = chars_of(s);
    let t = trim_chars(&v);
    t.len() == 0
}

/// The decimal text of a natural number below 2^64.
pub(crate) fn u64_decimal(n: u64) -> (r: Vec<char>)
    ensures
        r@ == nat_decimal(n as nat),
    decreases n,
{
    let d: u64 = n % 10;
    let c: char = ((d as u8) + 48u8) as char;
    assert(c == digit_char(d as nat));
    if n < 10 {
        let mut r: Vec<char> = Vec::new();
        r.push(c);
        assert(r@ =~= seq![digit_char(n as nat)]);
        r
    } else {
        let mut r = u64_decimal(n / 10);
        r.push(c);
        r
    }
}

/// The decimal text of a natural number below 2^128.
pub(crate) fn u128_decimal(n: u128) -> (r: Vec<char>)
    ensures
        r@ == nat_decimal(n as nat),
    decreases n,
{
    let d: u128 = n % 10;
    let c: char = ((d as u8) + 48u8) as char;
    assert(c == digit_char(d as nat));
    if n < 10 {
        let mut r: Vec<char> = Vec::new();
        r.push(c);
        assert(r@ =~= seq![digit_char(n as nat)]);
        r
    } else {
        let mut r = u128_decimal(n / 10);
        r.push(c);
        r
    }
}

/// The decimal text of an `i64`, as `format!("{}", x)` writes it.
pub fn i64_decimal(x: i64) -> (r: String)
    ensures
        r@ == int_decimal(x as int),
{
    if x < 0 {
        let m: u64 = (0i128 - (x as i128)) as u64;
        let d = u64_decimal(m);
        let mut v: Vec<char> = Vec::new();
        v.push('-');
        let mut i: usize = 0;
        while i < d.len()
            invariant
                i <= d.len(),
                v@ == seq!['-'] + d@.subrange(0, i as int),
            decreases d.len() - i,
        {
            v.push(d[i]);
            proof {
                assert(d@.subrange(0, i + 1) =~= d@.subrange(0, i as int).push(d@[i as int]));
                assert(seq!['-'] + d@.subrange(0, i + 1) =~= (seq!['-'] + d@.subrange(0, i as int)).push(d@[i as int]));
            }
            i = i + 1;
        }
        assert(d@.subrange(0, d.len() as int) =~= d@);
        string_from_chars(&v)
    } else {
        let d = u64_decimal(x as u64);
        string_from_chars(&d)
    }
}

/// Ten to the power `n`.
pub open spec fn pow10(n: nat) -> nat
    decreases n,
{
    if n == 0 { 1 } else { 10 * pow10((n - 1) as nat) }
}

/// The text after the last `sep` (the whole text when there is none): the
/// first item of `str::rsplit(sep)`.
pub open spec fn last_segment(s: Seq<char>, sep: char) -> Seq<char>
    decreases s.len(),
{
    if s.len() == 0 {
        s
    } else if s.last() == sep {
        Seq::empty()
    } else {
        last_segment(s.drop_last(), sep).push(s.last())
    }
}

/// The characters after the last `sep`.
pub fn last_segment_chars(v: &Vec<char>, sep: char) -> (r: Vec<char>)
    ensures
        r@ == last_segment(v@, sep),
{
    let mut start: usize = v.len();
    proof {
        assert(v@.subrange(0, v.len() as int) =~= v@);
        assert(v@ + v@.subrange(v.len() as int, v.len() as int) =~= v@);
    }
    while start > 0 && v[start - 1] != sep
        invariant
            start <= v.len(),
            last_segment(v@, sep) == last_segment(v@.subrange(0, start as int), sep) + v@.subrange(start as int, v.len() as int),
        decreases start,
    {
        proof {
            let p = v@.subrange(0, start as int);
            assert(p.drop_last() =~= v@.subrange(0, start - 1));
            assert(p.last() == v@[start - 1]);
            assert(last_segment(p, sep) == last_segment(p.drop_last(), sep).push(p.last()));
            assert(last_segment(p.drop_last(), sep).push(p.last()) + v@.subrange(start as int, v.len() as int)
                =~= last_segment(p.drop_last(), sep) + v@.subrange(start - 1, v.len() as int));
        }
        start = start - 1;
    }
    proof {
        let p = v@.subrange(0, start as int);
        if start > 0 {
            assert(p.last() == v@[start - 1]);
        }
        assert(last_segment(p, sep) =~= Seq::<char>::empty());
        assert(Seq::<char>::empty() + v@.subrange(start as int, v.len() as int) =~= v@.subrange(start as int, v.len() as int));
    }
    let mut r: Vec<char> = Vec::new();
    let mut i: usize = start;
    while i < v.len()
        invariant
            start <= i <= v.len(),
            r@ == v@.subrange(start as int, i as int),
        decreases v.len() - i,
    {
        r.push(v[i]);
        proof { assert(v@.subrange(start as int, i + 1) =~= v@.subrange(start as int, i as int).push(v@[i as int])); }
        i = i + 1;
    }
    r
}

pub fn all_ascii_digits(v: &Vec<char>) -> (r: bool)
    ensures
        r == all_digits(v@),
{
    let mut i: usize = 0;
    while i < v.len()
        invariant
            i <= v.len(),
            forall|k: int| 0 <= k < i ==> is_ascii_digit(#[trigger] v@[k]),
        decreases v.len() - i,
    {
        if !('0' <= v[i] && v[i] <= '9') {
            return false;
        }
        i = i + 1;
    }
    true
}

/// The value of at most 18 ASCII digits.
pub fn parse_digits(v: &Vec<char>) -> (r: u64)
    requires
        all_digits(v@),
        v.len() <= 18,
    ensures
        r as nat == digits_value(v@),
        (r as nat) < pow10(v.len() as nat),
{
    let mut value: u64 = 0;
    let mut i: usize = 0;
    proof { lemma_pow10_monotone(0, 18); }
    while i < v.len()
        invariant
            i <= v.len() <= 18,
            all_digits(v@),
            value as nat == digits_value(v@.subrange(0, i as int)),
            (value as nat) < pow10(i as nat),
            pow10(i as nat) <= pow10(18),
        decreases v.len() - i,
    {
        let c = v[i];
        assert(is_ascii_digit(v@[i as int]));
        let u: u32 = c as u32;
        let d: u64 = (u - 48) as u64;
        proof {
            let p = v@.subrange(0, i + 1);
            assert(p.drop_last() =~= v@.subrange(0, i as int));
            assert(p.last() == c);
            lemma_pow10_monotone((i + 1) as nat, 18);
            assert(pow10(18) == 1_000_000_000_000_000_000) by {
                reveal_with_fuel(pow10, 19);
            }
            let pv = pow10(i as nat);
            assert(pow10((i + 1) as nat) == 10 * pv);
            assert((value as nat) * 10 + (d as nat) < 10 * pv) by (nonlinear_arith)
                requires (value as nat) < pv, d < 10;
        }
        value = value * 10 + d;
        i = i + 1;
    }
    assert(v@.subrange(0, v.len() as int) =~= v@);
    value
}

/// Powers of ten grow with the exponent.
pub proof fn lemma_pow10_monotone(a: nat, b: nat)
    requires
        a <= b,
    ensures
        pow10(a) <= pow10(b),
    decreases b - a,
{
    if a < b {
        lemma_pow10_monotone(a, (b - 1) as nat);
    }
}

/// Concatenation of string slices.
pub fn concat3(a: &str, b: &str, c: &str) -> (r: String)
    ensures
        r@ == a@ + b@ + c@,
{
    let mut v = chars_of(a);
    let bv = chars_of(b);
    let cv = chars_of(c);
    let mut i: usize = 0;
    let ghost start = v@;
    while i < bv.len()
        invariant
            i <= bv.len(),
            bv@ == b@,
            v@ == start + bv@.subrange(0, i as int),
        decreases bv.len() - i,
    {
        v.push(bv[i]);
        proof { assert(bv@.subrange(0, i + 1) =~= bv@.subrange(0, i as int).push(bv@[i as int])); }
        i = i + 1;
    }
    assert(bv@.subrange(0, bv.len() as int) =~= bv@);
    let ghost mid = v@;
    let mut j: usize = 0;
    while j < cv.len()
        invariant
            j <= cv.len(),
            cv@ == c@,
            v@ == mid + cv@.subrange(0, j as int),
        decreases cv.len() - j,
    {
        v.push(cv[j]);
        proof { assert(cv@.subrange(0, j + 1) =~= cv@.subrange(0, j as int).push(cv@[j as int])); }
        j = j + 1;
    }
    assert(cv@.subrange(0, cv.len() as int) =~= cv@);
    string_from_chars(&v)
}

/// Concatenation of two string slices.
pub fn concat2(a: &str, b: &str) -> (r: String)
    ensures
        r@ == a@ + b@,
{
    let mut v = chars_of(a);
    let bv = chars_of(b);
    let mut i: usize = 0;
    let ghost start = v@;
    while i < bv.len()
        invariant
            i <= bv.len(),
            bv@ == b@,
            v@ == start + bv@.subrange(0, i as int),
        decreases bv.len() - i,
    {
        v.push(bv[i]);
        proof { assert(bv@.subrange(0, i + 1) =~= bv@.subrange(0, i as int).push(bv@[i as int])); }
        i = i + 1;
    }
    assert(bv@.subrange(0, bv.len() as int) =~= bv@);
    string_from_chars(&v)
}

pub open spec fn is_ascii_lower(c: char) -> bool {
    'a' <= c && c <= 'z'
}

/// ASCII upper-casing of one character; other characters are unchanged.
pub open spec fn ascii_upper(c: char) -> char {
    if is_ascii_lower(c) {
        ((c as u32) - 32) as char
    } else {
        c
    }
}

/// ASCII upper-casing of a text (`str::to_ascii_uppercase`).
pub open spec fn upper(s: Seq<char>) -> Seq<char> {
    s.map_values(|c: char| ascii_upper(c))
}

pub fn ascii_upper_char(c: char) -> (r: char)
    ensures
        r == ascii_upper(c),
{
    if 'a' <= c && c <= 'z' {
        let u: u32 = c as u32;
        let b: u8 = u as u8;
        (b - 32) as char
    } else {
        c
    }
}

/// `str::to_ascii_uppercase`.
pub fn to_ascii_uppercase(s: &str) -> (r: String)
    ensures
        r@ == upper(s@),
{
    let v = chars_of(s);
    let mut u: Vec<char> = Vec::new();
    let mut i: usize = 0;
    while i < v.len()
        invariant
            i <= v.len(),
            v@ == s@,
            u@ == upper(v@.subrange(0, i as int)),
        decreases v.len() - i,
    {
        let c = ascii_upper_char(v[i]);
        proof {
            assert(upper(v@.subrange(0, i + 1)) =~= upper(v@.subrange(0, i as int)).push(c));
        }
        u.push(c);
        i = i + 1;
    }
    assert(v@.subrange(0, v.len() as int) =~= v@);
    string_from_chars(&u)
}

/// The index of the first `sep` in `s`, or its length when there is none.
pub open spec fn first_sep_index(s: Seq<char>, sep: char) -> nat
    decreases s.len(),
{
    if s.len() == 0 {
        0
    } else if s[0] == sep {
        0
    } else {
        1 + first_sep_index(s.drop_first(), sep)
    }
}

/// The text before the first `sep` (the whole text when there is none): the
/// first item of `str::split(sep)`.
pub open spec fn first_segment(s: Seq<char>, sep: char) -> Seq<char> {
    s.take(first_sep_index(s, sep) as int)
}

/// The first `sep` stands at `i`, or there is none and `i` is the length.
pub proof fn lemma_first_sep_index(s: Seq<char>, sep: char, i: int)
    requires
        0 <= i <= s.len(),
        forall|j: int| 0 <= j < i ==> s[j] != sep,
        i == s.len() || s[i] == sep,
    ensures
        first_sep_index(s, sep) == i,
    decreases s.len(),
{
    if s.len() > 0 && i > 0 {
        assert forall|j: int| 0 <= j < i - 1 implies s.drop_first()[j] != sep by {
            assert(s.drop_first()[j] == s[j + 1]);
        }
        if i < s.len() {
            assert(s.drop_first()[i - 1] == s[i]);
        }
        lemma_first_sep_index(s.drop_first(), sep, i - 1);
    }
}

/// The characters before the first `sep`.
pub fn first_segment_chars(v: &Vec<char>, sep: char) -> (r: Vec<char>)
    ensures
        r@ == first_segment(v@, sep),
        r.len() == first_sep_index(v@, sep),
        first_sep_index(v@, sep) <= v.len(),
        first_sep_index(v@, sep) < v.len() ==> v@[first_sep_index(v@, sep) as int] == sep,
{
    let mut r: Vec<char> = Vec::new();
    let mut i: usize = 0;
    while i < v.len() && v[i] != sep
        invariant
            i <= v.len(),
            forall|j: int| 0 <= j < i ==> v@[j] != sep,
            r@ == v@.take(i as int),
        decreases v.len() - i,
    {
        r.push(v[i]);
        assert(v@.take(i + 1) =~= v@.take(i as int).push(v@[i as int]));
        i = i + 1;
    }
    proof { lemma_first_sep_index(v@, sep, i as int); }
    r
}

/// A needle found in a text without its leading whitespace is in the text.
pub proof fn lemma_contains_trim_start(s: Seq<char>, needle: Seq<char>)
    requires
        contains(trim_start(s), needle),
    ensures
        contains(s, needle),
    decreases s.len(),
{
    if s.len() > 0 && is_ws(s[0]) {
        lemma_contains_trim_start(s.drop_first(), needle);
        let i = choose|i: int| occurs_at(s.drop_first(), needle, i);
        assert(s.subrange(i + 1, i + 1 + needle.len()) =~= s.drop_first().subrange(i, i + needle.len()));
        assert(occurs_at(s, needle, i + 1));
    }
}

/// A needle found in a text without its trailing whitespace is in the text.
pub proof fn lemma_contains_trim_end(s: Seq<char>, needle: Seq<char>)
    requires
        contains(trim_end(s), needle),
    ensures
        contains(s, needle),
    decreases s.len(),
{
    if s.len() > 0 && is_ws(s.last()) {
        lemma_contains_trim_end(s.drop_last(), needle);
        let i = choose|i: int| occurs_at(s.drop_last(), needle, i);
        assert(s.subrange(i, i + needle.len()) =~= s.drop_last().subrange(i, i + needle.len()));
        assert(occurs_at(s, needle, i));
    }
}

/// A needle found in a trimmed text is in the text.
pub proof fn lemma_contains_trim(s: Seq<char>, needle: Seq<char>)
    requires
        contains(trim(s), needle),
    ensures
        contains(s, needle),
{
    lemma_contains_trim_end(trim_start(s), needle);
    lemma_contains_trim_start(s, needle);
}

} // verus!
