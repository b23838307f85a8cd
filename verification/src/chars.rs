//! Conversions between strings and character vectors, and decimal rendering.

use vstd::prelude::*;

verus! {

/// The characters of `s`, in order (std `str::chars` collected).
#[verifier::external_body]
pub fn chars_of(s: &str) -> (result: Vec<char>)
    ensures
        result@ == s@,
{
    s.chars().collect()
}

/// A string made of the characters of `v`, in order (std `FromIterator<char>`).
#[verifier::external_body]
pub fn string_of(v: &[char]) -> (result: String)
    ensures
        result@ == v@,
{
    v.iter().collect()
}

/// Appends all characters of `s` to `out`.
pub fn push_str(out: &mut Vec<char>, s: &str)
    ensures
        final(out)@ == old(out)@ + s@,
{
    let cs = chars_of(s);
    let mut i: usize = 0;
    while i < cs.len()
        invariant
            0 <= i <= cs.len(),
            cs@ == s@,
            out@ == old(out)@ + s@.take(i as int),
        decreases cs.len() - i,
    {
        out.push(cs[i]);
        i += 1;
        assert(s@.take(i as int) == s@.take(i - 1).push(cs@[i - 1]));
    }
    assert(s@.take(cs.len() as int) == s@);
}

} // verus!

verus! {

/// The digit character for `d` (`d < 10`).
pub open spec fn digit_char(d: nat) -> char {
    ((48 + d) as u8) as char
}

/// Decimal rendering of a natural number, as `format!("{}", n)` prints it.
pub open spec fn decimal(n: nat) -> Seq<char>
    decreases n,
{
    if n < 10 {
        seq![digit_char(n)]
    } else {
        decimal(n / 10).push(digit_char(n % 10))
    }
}

/// Appends the decimal rendering of `n` to `out`.
pub fn push_decimal(out: &mut Vec<char>, n: u64)
    ensures
        final(out)@ == old(out)@ + decimal(n as nat),
    decreases n,
{
    if n >= 10 {
        push_decimal(out, n / 10);
    }
    let d: u64 = n % 10;
    let c: char = ((48 + d) as u8) as char;
    out.push(c);
    assert(decimal(n as nat) == if n < 10 { seq![digit_char(n as nat)] } else { decimal((n / 10) as nat).push(digit_char((n % 10) as nat)) });
}

} // verus!

verus! {

/// Unicode `White_Space`, the set that `char::is_whitespace` and `str::trim` use.
pub open spec fn is_whitespace(c: char) -> bool {
    let v = c as u32;
    ||| (0x09 <= v && v <= 0x0D)
    ||| v == 0x20
    ||| v == 0x85
    ||| v == 0xA0
    ||| v == 0x1680
    ||| (0x2000 <= v && v <= 0x200A)
    ||| v == 0x2028
    ||| v == 0x2029
    ||| v == 0x202F
    ||| v == 0x205F
    ||| v == 0x3000
}

/// `char::is_whitespace`.
pub fn char_is_whitespace(c: char) -> (result: bool)
    ensures
        result == is_whitespace(c),
{
    let v = c as u32;
    (0x09 <= v && v <= 0x0D) || v == 0x20 || v == 0x85 || v == 0xA0 || v == 0x1680 || (0x2000
        <= v && v <= 0x200A) || v == 0x2028 || v == 0x2029 || v == 0x202F || v == 0x205F || v
        == 0x3000
}

/// Number of whitespace characters at the start of `s`.
pub open spec fn leading_ws(s: Seq<char>) -> nat
    decreases s.len(),
{
    if s.len() > 0 && is_whitespace(s[0]) {
        1 + leading_ws(s.skip(1))
    } else {
        0
    }
}

/// Number of whitespace characters at the end of `s`.
pub open spec fn trailing_ws(s: Seq<char>) -> nat
    decreases s.len(),
{
    if s.len() > 0 && is_whitespace(s.last()) {
        1 + trailing_ws(s.drop_last())
    } else {
        0
    }
}

/// `str::trim_start`.
pub open spec fn trim_start(s: Seq<char>) -> Seq<char> {
    s.skip(leading_ws(s) as int)
}

/// `str::trim_end`.
pub open spec fn trim_end(s: Seq<char>) -> Seq<char> {
    s.take(s.len() - trailing_ws(s))
}

/// `str::trim`.
pub open spec fn trim(s: Seq<char>) -> Seq<char> {
    trim_end(trim_start(s))
}

/// `leading_ws` never exceeds the length.
pub proof fn lemma_leading_ws_bound(s: Seq<char>)
    ensures
        leading_ws(s) <= s.len(),
    decreases s.len(),
{
    if s.len() > 0 && is_whitespace(s[0]) {
        lemma_leading_ws_bound(s.skip(1));
    }
}

/// `trailing_ws` never exceeds the length.
pub proof fn lemma_trailing_ws_bound(s: Seq<char>)
    ensures
        trailing_ws(s) <= s.len(),
    decreases s.len(),
{
    if s.len() > 0 && is_whitespace(s.last()) {
        lemma_trailing_ws_bound(s.drop_last());
    }
}

/// The character after the leading whitespace is not whitespace.
pub proof fn lemma_leading_ws_stops(s: Seq<char>)
    ensures
        leading_ws(s) <= s.len(),
        leading_ws(s) < s.len() ==> !is_whitespace(s[leading_ws(s) as int]),
    decreases s.len(),
{
    if s.len() > 0 && is_whitespace(s[0]) {
        lemma_leading_ws_stops(s.skip(1));
    }
}

/// The character before the trailing whitespace is not whitespace.
pub proof fn lemma_trailing_ws_stops(s: Seq<char>)
    ensures
        trailing_ws(s) <= s.len(),
        trailing_ws(s) < s.len() ==> !is_whitespace(s[s.len() - 1 - trailing_ws(s)]),
    decreases s.len(),
{
    if s.len() > 0 && is_whitespace(s.last()) {
        lemma_trailing_ws_stops(s.drop_last());
    }
}

/// A text that neither starts nor ends with whitespace is its own trim.
pub proof fn lemma_trim_fixed(s: Seq<char>)
    requires
        s.len() == 0 || (!is_whitespace(s[0]) && !is_whitespace(s.last())),
    ensures
        trim(s) == s,
{
    assert(leading_ws(s) == 0);
    assert(s.skip(0) =~= s);
    assert(trailing_ws(s) == 0);
    assert(s.take(s.len() as int) =~= s);
}

/// A trimmed text neither starts nor ends with whitespace.
pub proof fn lemma_trim_ends(s: Seq<char>)
    ensures
        trim(s).len() > 0 ==> !is_whitespace(trim(s)[0]) && !is_whitespace(trim(s).last()),
{
    lemma_leading_ws_stops(s);
    let t = trim_start(s);
    lemma_trailing_ws_stops(t);
    if trim(s).len() > 0 {
        assert(trim(s)[0] == t[0]);
        assert(t[0] == s[leading_ws(s) as int]);
        assert(trim(s).last() == t[t.len() - 1 - trailing_ws(t)]);
    }
}

/// Index of the first character at or after `from` that is not whitespace.
pub fn skip_ws(s: &Vec<char>, from: usize) -> (result: usize)
    requires
        from <= s.len(),
    ensures
        from <= result <= s.len(),
        s@.skip(result as int) == trim_start(s@.skip(from as int)),
        result - from == leading_ws(s@.skip(from as int)),
{
    let mut i = from;
    while i < s.len() && char_is_whitespace(s[i])
        invariant
            from <= i <= s.len(),
            leading_ws(s@.skip(from as int)) == (i - from) + leading_ws(s@.skip(i as int)),
        decreases s.len() - i,
    {
        assert(s@.skip(i as int).skip(1) == s@.skip(i + 1));
        i += 1;
    }
    assert(leading_ws(s@.skip(i as int)) == 0);
    assert(s@.skip(from as int).skip((i - from) as int) == s@.skip(i as int));
    i
}

/// Index just past the last character before `to` that is not whitespace.
pub fn skip_ws_back(s: &Vec<char>, to: usize) -> (result: usize)
    requires
        to <= s.len(),
    ensures
        result <= to,
        s@.take(result as int) == trim_end(s@.take(to as int)),
        to - result == trailing_ws(s@.take(to as int)),
{
    let mut j = to;
    while j > 0 && char_is_whitespace(s[j - 1])
        invariant
            j <= to <= s.len(),
            trailing_ws(s@.take(to as int)) == (to - j) + trailing_ws(s@.take(j as int)),
        decreases j,
    {
        assert(s@.take(j as int).drop_last() == s@.take(j - 1));
        j -= 1;
    }
    assert(trailing_ws(s@.take(j as int)) == 0);
    assert(s@.take(to as int).take(j as int) == s@.take(j as int));
    j
}

/// Whether `pat` occurs in `s` at index `i`.
pub open spec fn occurs_at(s: Seq<char>, pat: Seq<char>, i: int) -> bool {
    0 <= i && i + pat.len() <= s.len() && s.subrange(i, i + pat.len()) == pat
}

/// Whether `pat` occurs in `s` at index `i`.
pub fn matches_at(s: &Vec<char>, pat: &Vec<char>, i: usize) -> (result: bool)
    ensures
        result == occurs_at(s@, pat@, i as int),
{
    if i > s.len() || pat.len() > s.len() - i {
        return false;
    }
    let mut k: usize = 0;
    while k < pat.len()
        invariant
            i + pat.len() <= s.len(),
            0 <= k <= pat.len(),
            forall|m: int| 0 <= m < k ==> s@[i + m] == pat@[m],
        decreases pat.len() - k,
    {
        if s[i + k] != pat[k] {
            assert(s@.subrange(i as int, i + pat.len())[k as int] != pat@[k as int]);
            return false;
        }
        k += 1;
    }
    assert(s@.subrange(i as int, i + pat.len()) =~= pat@);
    true
}

/// `str::contains` for a string pattern.
pub open spec fn contains_seq(s: Seq<char>, pat: Seq<char>) -> bool {
    exists|i: int| occurs_at(s, pat, i)
}

/// `str::contains` for a string pattern.
pub fn contains_chars(s: &Vec<char>, pat: &Vec<char>) -> (result: bool)
    ensures
        result == contains_seq(s@, pat@),
{
    let mut i: usize = 0;
    while i < s.len()
        invariant
            0 <= i <= s.len(),
            forall|k: int| 0 <= k < i ==> !occurs_at(s@, pat@, k),
        decreases s.len() - i,
    {
        if matches_at(s, pat, i) {
            return true;
        }
        i += 1;
    }
    if matches_at(s, pat, i) {
        return true;
    }
    assert forall|k: int| !occurs_at(s@, pat@, k) by {
        if 0 <= k < i {
        }
    }
    false
}

/// `char::to_ascii_lowercase`.
pub open spec fn ascii_lower(c: char) -> char {
    if 'A' <= c && c <= 'Z' {
        ((c as u32) + 32) as char
    } else {
        c
    }
}

/// `str::to_ascii_lowercase`.
pub open spec fn ascii_lower_seq(s: Seq<char>) -> Seq<char> {
    s.map_values(|c: char| ascii_lower(c))
}

/// `str::to_ascii_lowercase`, on characters.
pub fn to_ascii_lowercase(s: &Vec<char>) -> (result: Vec<char>)
    ensures
        result@ == ascii_lower_seq(s@),
{
    let mut out: Vec<char> = Vec::new();
    let mut i: usize = 0;
    while i < s.len()
        invariant
            0 <= i <= s.len(),
            out@ == ascii_lower_seq(s@.take(i as int)),
        decreases s.len() - i,
    {
        let c = s[i];
        let lc = if 'A' <= c && c <= 'Z' {
            ((c as u8) + 32) as char
        } else {
            c
        };
        out.push(lc);
        i += 1;
        assert(ascii_lower_seq(s@.take(i as int)) =~= ascii_lower_seq(s@.take(i - 1)).push(
            ascii_lower(s@[i - 1]),
        ));
    }
    assert(s@.take(s.len() as int) == s@);
    out
}

/// `char::to_ascii_uppercase`.
pub open spec fn ascii_upper(c: char) -> char {
    if 'a' <= c && c <= 'z' {
        ((c as u32) - 32) as char
    } else {
        c
    }
}

/// `str::to_ascii_uppercase`.
pub open spec fn ascii_upper_seq(s: Seq<char>) -> Seq<char> {
    s.map_values(|c: char| ascii_upper(c))
}

/// `str::to_ascii_uppercase`, on characters.
pub fn to_ascii_uppercase(s: &Vec<char>) -> (result: Vec<char>)
    ensures
        result@ == ascii_upper_seq(s@),
{
    let mut out: Vec<char> = Vec::new();
    let mut i: usize = 0;
    while i < s.len()
        invariant
            0 <= i <= s.len(),
            out@ == ascii_upper_seq(s@.take(i as int)),
        decreases s.len() - i,
    {
        let c = s[i];
        let uc = if 'a' <= c && c <= 'z' {
            ((c as u8) - 32) as char
        } else {
            c
        };
        out.push(uc);
        i += 1;
        assert(ascii_upper_seq(s@.take(i as int)) =~= ascii_upper_seq(s@.take(i - 1)).push(
            ascii_upper(s@[i - 1]),
        ));
    }
    assert(s@.take(s.len() as int) == s@);
    out
}

} // verus!

verus! {

/// `char::from_u32`: the character with scalar value `v`, if there is one.
#[verifier::external_body]
pub fn char_from_u32(v: u32) -> (result: Option<char>)
    ensures
        result == (if vstd::utf8::is_scalar(v) {
            Some(v as char)
        } else {
            None::<char>
        }),
{
    char::from_u32(v)
}

/// `char::is_ascii_hexdigit`.
pub open spec fn is_hex_digit(c: char) -> bool {
    ('0' <= c && c <= '9') || ('a' <= c && c <= 'f') || ('A' <= c && c <= 'F')
}

/// Value of a hexadecimal digit.
pub open spec fn hex_value(c: char) -> nat {
    if '0' <= c && c <= '9' {
        ((c as int) - 48) as nat
    } else if 'a' <= c && c <= 'f' {
        ((c as int) - 97 + 10) as nat
    } else {
        ((c as int) - 65 + 10) as nat
    }
}

/// Value of a hexadecimal digit.
pub fn hex_digit_value(c: char) -> (result: u32)
    requires
        is_hex_digit(c),
    ensures
        result == hex_value(c),
        result < 16,
{
    let v = c as u32;
    if '0' <= c && c <= '9' {
        v - 48
    } else if 'a' <= c && c <= 'f' {
        v - 97 + 10
    } else {
        v - 65 + 10
    }
}

} // verus!

verus! {

/// Whether two strings hold the same characters.
pub fn str_eq(a: &str, b: &str) -> (result: bool)
    ensures
        result == (a@ == b@),
{
    let x = chars_of(a);
    let y = chars_of(b);
    if x.len() != y.len() {
        return false;
    }
    let mut i: usize = 0;
    while i < x.len()
        invariant
            0 <= i <= x.len(),
            x.len() == y.len(),
            x@ == a@,
            y@ == b@,
            forall|k: int| 0 <= k < i ==> x@[k] == y@[k],
        decreases x.len() - i,
    {
        if x[i] != y[i] {
            assert(x@[i as int] != y@[i as int]);
            return false;
        }
        i += 1;
    }
    assert(x@ =~= y@);
    true
}

} // verus!

verus! {

/// The characters of `s` from index `from` up to `to`.
pub fn slice_chars(s: &Vec<char>, from: usize, to: usize) -> (result: Vec<char>)
    requires
        from <= to <= s.len(),
    ensures
        result@ == s@.subrange(from as int, to as int),
{
    let mut out: Vec<char> = Vec::new();
    let mut k = from;
    while k < to
        invariant
            from <= k <= to <= s.len(),
            out@ == s@.subrange(from as int, k as int),
        decreases to - k,
    {
        out.push(s[k]);
        k += 1;
        assert(s@.subrange(from as int, k as int) == s@.subrange(from as int, k - 1).push(
            s@[k - 1],
        ));
    }
    out
}

/// `str::trim`, on characters.
pub fn trim_chars(s: &Vec<char>) -> (result: Vec<char>)
    ensures
        result@ == trim(s@),
{
    let start = skip_ws(s, 0);
    assert(s@.skip(0) == s@);
    let rest = slice_chars(s, start, s.len());
    assert(rest@ == s@.skip(start as int));
    let end = skip_ws_back(&rest, rest.len());
    assert(rest@.take(rest.len() as int) == rest@);
    let out = slice_chars(&rest, 0, end);
    assert(out@ == rest@.take(end as int));
    out
}

} // verus!

verus! {

/// Whether the characters in `v` are those of `s`.
pub fn chars_eq(v: &Vec<char>, s: &str) -> (result: bool)
    ensures
        result == (v@ == s@),
{
    let w = chars_of(s);
    if v.len() != w.len() {
        return false;
    }
    let mut i: usize = 0;
    while i < v.len()
        invariant
            0 <= i <= v.len(),
            v.len() == w.len(),
            w@ == s@,
            forall|k: int| 0 <= k < i ==> v@[k] == w@[k],
        decreases v.len() - i,
    {
        if v[i] != w[i] {
            assert(v@[i as int] != w@[i as int]);
            return false;
        }
        i += 1;
    }
    assert(v@ =~= w@);
    true
}

/// Value of a run of decimal digits.
pub open spec fn digits_value(s: Seq<char>) -> nat
    decreases s.len(),
{
    if s.len() == 0 {
        0
    } else {
        digits_value(s.drop_last()) * 10 + (((s.last() as int) - 48) as nat)
    }
}

/// All characters are ASCII decimal digits.
pub open spec fn all_digits(s: Seq<char>) -> bool {
    forall|i: int| 0 <= i < s.len() ==> '0' <= #[trigger] s[i] && s[i] <= '9'
}

/// What `str::parse::<u64>` accepts and returns: an optional `+` followed by
/// at least one decimal digit, with a value that fits in a `u64`.
pub open spec fn parsed_u64(s: Seq<char>) -> Option<u64> {
    let digits = if s.len() > 0 && s[0] == '+' {
        s.skip(1)
    } else {
        s
    };
    if digits.len() > 0 && all_digits(digits) && digits_value(digits) <= u64::MAX {
        Some(digits_value(digits) as u64)
    } else {
        None
    }
}

/// `str::parse::<u64>` on characters.
pub fn parse_u64(s: &Vec<char>) -> (result: Option<u64>)
    ensures
        result == parsed_u64(s@),
{
    let start: usize = if s.len() > 0 && s[0] == '+' {
        1
    } else {
        0
    };
    let ghost digits = s@.skip(start as int);
    assert(s@.skip(0) == s@);
    assert(digits == (if s@.len() > 0 && s@[0] == '+' {
        s@.skip(1)
    } else {
        s@
    }));
    if s.len() <= start {
        return None;
    }
    let mut value: u64 = 0;
    let mut i = start;
    while i < s.len()
        invariant
            start <= i <= s.len(),
            digits == s@.skip(start as int),
            digits.len() > 0,
            parsed_u64(s@) == (if all_digits(digits) && digits_value(digits) <= u64::MAX {
                Some(digits_value(digits) as u64)
            } else {
                None
            }),
            all_digits(s@.subrange(start as int, i as int)),
            value as nat == digits_value(s@.subrange(start as int, i as int)),
        decreases s.len() - i,
    {
        let c = s[i];
        if c < '0' || c > '9' {
            assert(digits[i - start] == c);
            assert(!all_digits(digits));
            return None;
        }
        let d: u64 = (c as u32 - 48) as u64;
        assert(s@.subrange(start as int, i + 1).drop_last() == s@.subrange(start as int, i as int));
        if value > (u64::MAX - d) / 10 {
            proof {
                if all_digits(digits) {
                    lemma_digits_monotone(digits, (i - start + 1) as int);
                    assert(digits.take((i - start + 1) as int) == s@.subrange(start as int, i + 1));
                    assert(digits_value(s@.subrange(start as int, i + 1)) == value * 10 + d);
                }
            }
            return None;
        }
        value = value * 10 + d;
        i += 1;
        assert(all_digits(s@.subrange(start as int, i as int))) by {
            assert forall|k: int| 0 <= k < i - start implies '0' <= #[trigger] s@.subrange(
                start as int,
                i as int,
            )[k] && s@.subrange(start as int, i as int)[k] <= '9' by {
                if k < i - 1 - start {
                    assert(s@.subrange(start as int, i as int)[k] == s@.subrange(
                        start as int,
                        i - 1,
                    )[k]);
                }
            }
        }
    }
    assert(s@.subrange(start as int, s.len() as int) == digits);
    Some(value)
}

/// The value of a digit run never decreases when digits are appended.
pub proof fn lemma_digits_monotone(s: Seq<char>, k: int)
    requires
        0 <= k <= s.len(),
        all_digits(s),
    ensures
        digits_value(s.take(k)) <= digits_value(s),
    decreases s.len() - k,
{
    if k < s.len() {
        lemma_digits_monotone(s, k + 1);
        assert(s.take(k + 1).drop_last() == s.take(k));
    } else {
        assert(s.take(k) == s);
    }
}

} // verus!

verus! {

/// Index of the first newline in `s`, if any.
pub open spec fn first_newline_from(s: Seq<char>, i: int) -> Option<int>
    decreases s.len() - i,
{
    if i < 0 || i >= s.len() {
        None
    } else if s[i] == '\n' {
        Some(i)
    } else {
        first_newline_from(s, i + 1)
    }
}

/// Index of the first newline in `s`, if any.
pub open spec fn first_newline(s: Seq<char>) -> Option<int> {
    first_newline_from(s, 0)
}

/// `first_newline_from` finds a newline and skips none.
pub proof fn lemma_first_newline_from(s: Seq<char>, i: int)
    requires
        0 <= i,
    ensures
        first_newline_from(s, i) matches Some(j) ==> i <= j < s.len() && s[j] == '\n' && forall|
            k: int,
        | i <= k < j ==> s[k] != '\n',
        first_newline_from(s, i) is None ==> forall|k: int| i <= k < s.len() ==> s[k] != '\n',
    decreases s.len() - i,
{
    if i < s.len() && s[i] != '\n' {
        lemma_first_newline_from(s, i + 1);
    }
}

/// Index of the first newline at or after `from`.
pub fn find_newline(s: &Vec<char>, from: usize) -> (result: Option<usize>)
    requires
        from <= s.len(),
    ensures
        match result {
            Some(p) => first_newline_from(s@, from as int) == Some(p as int),
            None => first_newline_from(s@, from as int) is None,
        },
{
    let mut i = from;
    while i < s.len()
        invariant
            from <= i <= s.len(),
            first_newline_from(s@, from as int) == first_newline_from(s@, i as int),
        decreases s.len() - i,
    {
        if s[i] == '\n' {
            return Some(i);
        }
        i += 1;
    }
    None
}

/// Searching a suffix for a newline is searching the whole text from the
/// suffix's start.
pub proof fn lemma_newline_shift(s: Seq<char>, a: int, i: int)
    requires
        0 <= a <= s.len(),
        0 <= i,
    ensures
        first_newline_from(s.skip(a), i) == (match first_newline_from(s, a + i) {
            Some(p) => Some(p - a),
            None => None::<int>,
        }),
    decreases s.len() - a - i,
{
    if a + i < s.len() && s[a + i] != '\n' {
        lemma_newline_shift(s, a, i + 1);
    }
}

} // verus!

verus! {

/// Number of non-whitespace characters at the start of `s`.
pub open spec fn token_len(s: Seq<char>) -> nat
    decreases s.len(),
{
    if s.len() > 0 && !is_whitespace(s[0]) {
        1 + token_len(s.skip(1))
    } else {
        0
    }
}

/// The first whitespace-separated token of `s`
/// (`str::split_whitespace().next()`).
pub open spec fn first_token(s: Seq<char>) -> Option<Seq<char>> {
    let t = trim_start(s);
    if t.len() == 0 {
        None
    } else {
        Some(t.take(token_len(t) as int))
    }
}

/// The first whitespace-separated token of `s[from..]`.
pub fn first_token_chars(s: &Vec<char>, from: usize) -> (result: Option<Vec<char>>)
    requires
        from <= s.len(),
    ensures
        match result {
            Some(t) => first_token(s@.skip(from as int)) == Some(t@),
            None => first_token(s@.skip(from as int)) is None,
        },
{
    let start = skip_ws(s, from);
    if start >= s.len() {
        return None;
    }
    let mut end = start;
    let ghost t = s@.skip(start as int);
    assert(t == trim_start(s@.skip(from as int)));
    while end < s.len() && !char_is_whitespace(s[end])
        invariant
            start <= end <= s.len(),
            t == s@.skip(start as int),
            token_len(t) == (end - start) + token_len(s@.skip(end as int)),
        decreases s.len() - end,
    {
        assert(s@.skip(end as int).skip(1) == s@.skip(end + 1));
        end += 1;
    }
    assert(token_len(s@.skip(end as int)) == 0);
    let tok = slice_chars(s, start, end);
    assert(tok@ == t.take((end - start) as int));
    Some(tok)
}

} // verus!

verus! {

/// A line without one trailing carriage return.
pub open spec fn without_cr(line: Seq<char>) -> Seq<char> {
    if line.len() > 0 && line.last() == '\r' {
        line.drop_last()
    } else {
        line
    }
}

/// `str::lines`: the text split at each `\n` (a `\r` before it dropped),
/// with no empty line after a final `\n`.
pub open spec fn lines_of(s: Seq<char>) -> Seq<Seq<char>>
    decreases s.len(),
{
    if s.len() == 0 {
        Seq::empty()
    } else {
        match first_newline(s) {
            None => seq![s],
            Some(i) => if 0 <= i < s.len() {
                seq![without_cr(s.take(i))] + lines_of(s.skip(i + 1))
            } else {
                Seq::empty()
            },
        }
    }
}

/// `str::lines`, collected.
pub fn split_lines(text: &str) -> (result: Vec<String>)
    ensures
        result@.map_values(|l: String| l@) == lines_of(text@),
{
    let c = chars_of(text);
    let mut out: Vec<String> = Vec::new();
    let mut pos: usize = 0;
    assert(c@.skip(0) =~= c@);
    while pos < c.len()
        invariant
            c@ == text@,
            0 <= pos <= c.len(),
            lines_of(text@) == out@.map_values(|l: String| l@) + lines_of(c@.skip(pos as int)),
        decreases c.len() - pos,
    {
        let ghost rest = c@.skip(pos as int);
        proof {
            lemma_newline_shift(c@, pos as int, 0);
            lemma_first_newline_from(c@, pos as int);
        }
        let ghost before = out@;
        match find_newline(&c, pos) {
            Some(e) => {
                let mut l = slice_chars(&c, pos, e);
                if l.len() > 0 && l[l.len() - 1] == '\r' {
                    l.pop();
                }
                assert(rest.take(e - pos) =~= c@.subrange(pos as int, e as int));
                assert(rest.skip(e - pos + 1) =~= c@.skip(e + 1));
                out.push(string_of(l.as_slice()));
                assert(out@.map_values(|l: String| l@) =~= before.map_values(|l: String| l@).push(
                    without_cr(rest.take(e - pos)),
                ));
                pos = e + 1;
            },
            None => {
                let l = slice_chars(&c, pos, c.len());
                assert(rest =~= c@.subrange(pos as int, c.len() as int));
                out.push(string_of(l.as_slice()));
                assert(out@.map_values(|l: String| l@) =~= before.map_values(|l: String| l@).push(
                    rest,
                ));
                assert(c@.skip(c.len() as int) =~= Seq::<char>::empty());
                pos = c.len();
            },
        }
    }
    assert(c@.skip(pos as int) =~= Seq::<char>::empty());
    out
}

} // verus!
