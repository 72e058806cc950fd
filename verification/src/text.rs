//! Character-level text helpers with exact specifications.
use vstd::prelude::*;

verus! {

/// Appends one character to a string (`String::push`).
#[verifier::external_body]
fn push_char(s: &mut String, c: char)
    ensures
        final(s)@ == old(s)@.push(c),
{
    s.push(c);
}

/// The characters of `s`, in order.
pub fn chars_of(s: &str) -> (r: Vec<char>)
    ensures
        r@ == s@,
{
    let mut out: Vec<char> = Vec::new();
    for c in it: s.chars()
        invariant
            out@ == it.seq().take(it.index() as int),
            it.seq() == s@,
    {
        out.push(c);
    }
    out
}

/// The string made of the characters `cs`.
pub fn string_of(cs: &Vec<char>) -> (r: String)
    ensures
        r@ == cs@,
{
    let mut s = String::new();
    let n = cs.len();
    for i in 0..n
        invariant
            n == cs@.len(),
            s@ == cs@.take(i as int),
    {
        push_char(&mut s, cs[i]);
        assert(cs@.take(i as int).push(cs@[i as int]) =~= cs@.take(i + 1));
    }
    assert(cs@.take(n as int) =~= cs@);
    s
}

/// A copy of `s`.
pub fn copy_str(s: &str) -> (r: String)
    ensures
        r@ == s@,
{
    let cs = chars_of(s);
    string_of(&cs)
}

/// Appends all of `extra` to `out`.
pub fn append_chars(out: &mut Vec<char>, extra: &Vec<char>)
    ensures
        final(out)@ == old(out)@ + extra@,
{
    let n = extra.len();
    for i in 0..n
        invariant
            n == extra@.len(),
            out@ == old(out)@ + extra@.take(i as int),
    {
        out.push(extra[i]);
        assert(extra@.take(i as int).push(extra@[i as int]) =~= extra@.take(i + 1));
    }
    assert(extra@.take(n as int) =~= extra@);
}

/// Appends the characters of `s` to `out`.
pub fn append_str(out: &mut Vec<char>, s: &str)
    ensures
        final(out)@ == old(out)@ + s@,
{
    let cs = chars_of(s);
    append_chars(out, &cs);
}

/// Whether two character sequences are equal.
pub fn chars_eq(a: &Vec<char>, b: &Vec<char>) -> (r: bool)
    ensures
        r == (a@ == b@),
{
    if a.len() != b.len() {
        return false;
    }
    let n = a.len();
    for i in 0..n
        invariant
            n == a@.len(),
            n == b@.len(),
            forall|j: int| 0 <= j < i ==> a@[j] == b@[j],
    {
        if a[i] != b[i] {
            return false;
        }
    }
    assert(a@ =~= b@);
    true
}

/// Whether the string `s` equals the string `t`.
pub fn str_eq(s: &str, t: &str) -> (r: bool)
    ensures
        r == (s@ == t@),
{
    let a = chars_of(s);
    let b = chars_of(t);
    chars_eq(&a, &b)
}

/// `p` is a prefix of `s`.
pub open spec fn has_prefix(s: Seq<char>, p: Seq<char>) -> bool {
    p.len() <= s.len() && s.take(p.len() as int) == p
}

/// `p` occurs in `s` at position `i`.
pub open spec fn occurs_at(s: Seq<char>, p: Seq<char>, i: int) -> bool {
    0 <= i && i + p.len() <= s.len() && s.subrange(i, i + p.len()) == p
}

/// `p` occurs somewhere in `s` (the empty pattern occurs everywhere).
pub open spec fn contains_seq(s: Seq<char>, p: Seq<char>) -> bool {
    exists|i: int| occurs_at(s, p, i)
}

/// Whether `p` occurs in `s` at position `i`.
pub fn matches_at(s: &Vec<char>, p: &Vec<char>, i: usize) -> (r: bool)
    ensures
        r == occurs_at(s@, p@, i as int),
{
    if i > s.len() || p.len() > s.len() - i {
        return false;
    }
    let n = p.len();
    for k in 0..n
        invariant
            n == p@.len(),
            i + n <= s.len(),
            forall|j: int| 0 <= j < k ==> s@[i + j] == p@[j],
    {
        if s[i + k] != p[k] {
            assert(s@.subrange(i as int, i + n)[k as int] != p@[k as int]);
            return false;
        }
    }
    assert(s@.subrange(i as int, i + n) =~= p@);
    true
}

/// Whether `s` starts with `p`.
pub fn starts_with(s: &Vec<char>, p: &Vec<char>) -> (r: bool)
    ensures
        r == has_prefix(s@, p@),
{
    let r = matches_at(s, p, 0);
    assert(s@.subrange(0, p@.len() as int) =~= s@.take(p@.len() as int));
    r
}

/// Whether `p` occurs anywhere in `s` (`str::contains`).
pub fn contains(s: &Vec<char>, p: &Vec<char>) -> (r: bool)
    ensures
        r == contains_seq(s@, p@),
{
    if p.len() > s.len() {
        assert forall|i: int| !occurs_at(s@, p@, i) by {}
        return false;
    }
    let last = s.len() - p.len();
    let mut i: usize = 0;
    loop
        invariant
            last == s@.len() - p@.len(),
            i <= last,
            forall|j: int| 0 <= j < i ==> !occurs_at(s@, p@, j),
        ensures
            forall|j: int| 0 <= j <= last ==> !occurs_at(s@, p@, j),
        decreases last - i,
    {
        if matches_at(s, p, i) {
            return true;
        }
        if i == last {
            break;
        }
        i = i + 1;
    }
    assert forall|j: int| !occurs_at(s@, p@, j) by {
        if 0 <= j && j <= last {
        }
    }
    false
}

/// The part of `s` after the prefix `p`, when `s` starts with `p` (`str::strip_prefix`).
pub fn strip_prefix(s: &Vec<char>, p: &Vec<char>) -> (r: Option<Vec<char>>)
    ensures
        r is Some <==> has_prefix(s@, p@),
        r matches Some(rest) ==> rest@ == s@.skip(p@.len() as int),
{
    if !starts_with(s, p) {
        return None;
    }
    let mut rest: Vec<char> = Vec::new();
    let start = p.len();
    let n = s.len();
    for i in start..n
        invariant
            start == p@.len(),
            n == s@.len(),
            start <= n,
            rest@ == s@.subrange(start as int, i as int),
    {
        rest.push(s[i]);
        assert(s@.subrange(start as int, i as int).push(s@[i as int]) =~= s@.subrange(
            start as int,
            i + 1,
        ));
    }
    assert(s@.subrange(start as int, n as int) =~= s@.skip(start as int));
    Some(rest)
}

/// `char::is_whitespace`: the Unicode `White_Space` characters.
pub open spec fn is_space(c: char) -> bool {
    ||| c == ' '
    ||| ('\u{9}' <= c && c <= '\u{d}')
    ||| c == '\u{85}'
    ||| c == '\u{a0}'
    ||| c == '\u{1680}'
    ||| ('\u{2000}' <= c && c <= '\u{200a}')
    ||| c == '\u{2028}'
    ||| c == '\u{2029}'
    ||| c == '\u{202f}'
    ||| c == '\u{205f}'
    ||| c == '\u{3000}'
}

/// `s` without its leading white space.
pub open spec fn trim_start(s: Seq<char>) -> Seq<char>
    decreases s.len(),
{
    if s.len() > 0 && is_space(s[0]) {
        trim_start(s.drop_first())
    } else {
        s
    }
}

/// `s` without its trailing white space.
pub open spec fn trim_end(s: Seq<char>) -> Seq<char>
    decreases s.len(),
{
    if s.len() > 0 && is_space(s.last()) {
        trim_end(s.drop_last())
    } else {
        s
    }
}

/// `str::trim`: `s` without leading and trailing white space.
pub open spec fn trim(s: Seq<char>) -> Seq<char> {
    trim_end(trim_start(s))
}

/// Whether `c` is white space (`char::is_whitespace`).
pub fn is_space_char(c: char) -> (r: bool)
    ensures
        r == is_space(c),
{
    c == ' ' || ('\u{9}' <= c && c <= '\u{d}') || c == '\u{85}' || c == '\u{a0}' || c
        == '\u{1680}' || ('\u{2000}' <= c && c <= '\u{200a}') || c == '\u{2028}' || c
        == '\u{2029}' || c == '\u{202f}' || c == '\u{205f}' || c == '\u{3000}'
}

/// `s` without leading and trailing white space (`str::trim`).
pub fn trim_chars(s: &Vec<char>) -> (r: Vec<char>)
    ensures
        r@ == trim(s@),
{
    let n = s.len();
    let mut lo: usize = 0;
    assert(s@.skip(0) =~= s@);
    while lo < n && is_space_char(s[lo])
        invariant
            n == s@.len(),
            lo <= n,
            trim_start(s@) == trim_start(s@.skip(lo as int)),
        decreases n - lo,
    {
        assert(s@.skip(lo as int).drop_first() =~= s@.skip(lo + 1));
        lo = lo + 1;
    }
    assert(trim_start(s@) == s@.skip(lo as int));
    let mut hi: usize = n;
    while hi > lo && is_space_char(s[hi - 1])
        invariant
            n == s@.len(),
            lo <= hi <= n,
            trim(s@) == trim_end(s@.subrange(lo as int, hi as int)),
        decreases hi,
    {
        assert(s@.subrange(lo as int, hi as int).drop_last() =~= s@.subrange(
            lo as int,
            hi - 1,
        ));
        hi = hi - 1;
    }
    let mut out: Vec<char> = Vec::new();
    for i in lo..hi
        invariant
            lo <= hi <= n,
            n == s@.len(),
            out@ == s@.subrange(lo as int, i as int),
    {
        out.push(s[i]);
        assert(s@.subrange(lo as int, i as int).push(s@[i as int]) =~= s@.subrange(
            lo as int,
            i + 1,
        ));
    }
    out
}

/// `str::trim` on a string.
pub fn trim_str(s: &str) -> (r: String)
    ensures
        r@ == trim(s@),
{
    let cs = chars_of(s);
    let t = trim_chars(&cs);
    string_of(&t)
}

/// `char::to_ascii_uppercase`.
pub open spec fn ascii_upper(c: char) -> char {
    if 'a' <= c && c <= 'z' {
        ((c as int) - 32) as char
    } else {
        c
    }
}

/// `str::to_ascii_uppercase`.
pub open spec fn ascii_upper_seq(s: Seq<char>) -> Seq<char> {
    s.map_values(|c: char| ascii_upper(c))
}

/// `char::to_ascii_lowercase`.
pub open spec fn ascii_lower(c: char) -> char {
    if 'A' <= c && c <= 'Z' {
        ((c as int) + 32) as char
    } else {
        c
    }
}

/// `str::to_ascii_lowercase`.
pub open spec fn ascii_lower_seq(s: Seq<char>) -> Seq<char> {
    s.map_values(|c: char| ascii_lower(c))
}

/// Every character of `s` is ASCII.
pub open spec fn ascii_text(s: Seq<char>) -> bool {
    forall|i: int| 0 <= i < s.len() ==> (#[trigger] s[i] as u32) < 128
}

/// Upper-casing ASCII letters neither makes nor removes white space, so it
/// commutes with trimming.
pub proof fn lemma_trim_ascii_upper(s: Seq<char>)
    ensures
        trim_start(ascii_upper_seq(s)) == ascii_upper_seq(trim_start(s)),
        trim_end(ascii_upper_seq(s)) == ascii_upper_seq(trim_end(s)),
    decreases s.len(),
{
    if s.len() > 0 {
        let u = ascii_upper_seq(s);
        assert(is_space(ascii_upper(s[0])) == is_space(s[0]));
        assert(is_space(ascii_upper(s.last())) == is_space(s.last()));
        assert(u.drop_first() =~= ascii_upper_seq(s.drop_first()));
        assert(u.drop_last() =~= ascii_upper_seq(s.drop_last()));
        lemma_trim_ascii_upper(s.drop_first());
        lemma_trim_ascii_upper(s.drop_last());
    }
}

/// Trimming keeps a text ASCII.
pub proof fn lemma_trim_keeps_ascii(s: Seq<char>)
    requires
        ascii_text(s),
    ensures
        ascii_text(trim_start(s)),
        ascii_text(trim_end(s)),
        ascii_text(trim(s)),
    decreases s.len(),
{
    if s.len() > 0 {
        assert(ascii_text(s.drop_first())) by {
            assert forall|i: int| 0 <= i < s.len() - 1 implies (#[trigger] s.drop_first()[i] as u32) < 128 by {
                assert(s.drop_first()[i] == s[i + 1]);
            }
        }
        assert(ascii_text(s.drop_last())) by {
            assert forall|i: int| 0 <= i < s.len() - 1 implies (#[trigger] s.drop_last()[i] as u32) < 128 by {
                assert(s.drop_last()[i] == s[i]);
            }
        }
        lemma_trim_keeps_ascii(s.drop_first());
        lemma_trim_keeps_ascii(s.drop_last());
    }
    if ascii_text(trim_start(s)) {
        lemma_trim_keeps_ascii_end(trim_start(s));
    }
}

/// Trimming the end keeps a text ASCII.
proof fn lemma_trim_keeps_ascii_end(s: Seq<char>)
    requires
        ascii_text(s),
    ensures
        ascii_text(trim_end(s)),
    decreases s.len(),
{
    if s.len() > 0 {
        assert(ascii_text(s.drop_last())) by {
            assert forall|i: int| 0 <= i < s.len() - 1 implies (#[trigger] s.drop_last()[i] as u32) < 128 by {
                assert(s.drop_last()[i] == s[i]);
            }
        }
        lemma_trim_keeps_ascii_end(s.drop_last());
    }
}

/// A trailing space goes when a text is trimmed.
pub proof fn lemma_trim_trailing_space(s: Seq<char>)
    ensures
        trim(s + seq![' ']) == trim(s),
    decreases s.len(),
{
    let t = s + seq![' '];
    if s.len() == 0 {
        assert(t.drop_first() =~= seq![]);
        assert(trim_start(t) == trim_start(t.drop_first()));
    } else if is_space(s[0]) {
        assert(t.drop_first() =~= s.drop_first() + seq![' ']);
        lemma_trim_trailing_space(s.drop_first());
    } else {
        assert(trim_start(t) == t);
        assert(trim_start(s) == s);
        assert(t.drop_last() =~= s);
    }
}

/// The ASCII upper-case form of `s` (`str::to_ascii_uppercase`).
pub fn ascii_uppercase(s: &Vec<char>) -> (r: Vec<char>)
    ensures
        r@ == ascii_upper_seq(s@),
{
    let mut out: Vec<char> = Vec::new();
    let n = s.len();
    for i in 0..n
        invariant
            n == s@.len(),
            out@ == ascii_upper_seq(s@.take(i as int)),
    {
        let c = s[i];
        let u = if 'a' <= c && c <= 'z' {
            ((c as u8) - 32) as char
        } else {
            c
        };
        out.push(u);
        assert(ascii_upper_seq(s@.take(i as int)).push(ascii_upper(c)) =~= ascii_upper_seq(
            s@.take(i + 1),
        ));
    }
    assert(s@.take(n as int) =~= s@);
    out
}

/// The decimal digit character for `d < 10`.
pub open spec fn digit_char(d: nat) -> char {
    ((d as int) + 48) as char
}

/// The decimal text of `n`, without sign or leading zeros (`"0"` for zero).
pub open spec fn dec_text(n: nat) -> Seq<char>
    decreases n,
{
    if n < 10 {
        seq![digit_char(n)]
    } else {
        dec_text(n / 10).push(digit_char(n % 10))
    }
}

/// The decimal text of a signed integer, with `-` before negative ones.
pub open spec fn int_text(i: int) -> Seq<char> {
    if i < 0 {
        seq!['-'] + dec_text((-i) as nat)
    } else {
        dec_text(i as nat)
    }
}

/// Appends the decimal digits of `n` to `out`.
pub fn push_digits(out: &mut Vec<char>, n: u64)
    ensures
        final(out)@ == old(out)@ + dec_text(n as nat),
    decreases n,
{
    if n >= 10 {
        push_digits(out, n / 10);
    }
    let d = (n % 10) as u8;
    out.push((d + 48) as char);
    assert(((d + 48) as u8) as char == digit_char((n % 10) as nat));
}

/// The decimal text of `n` (`u64::to_string`).
pub fn u64_text(n: u64) -> (r: Vec<char>)
    ensures
        r@ == dec_text(n as nat),
{
    let mut out: Vec<char> = Vec::new();
    push_digits(&mut out, n);
    assert(out@ =~= dec_text(n as nat));
    out
}

/// The decimal text of `n` (`i64::to_string`).
pub fn i64_text(n: i64) -> (r: Vec<char>)
    ensures
        r@ == int_text(n as int),
{
    let mut out: Vec<char> = Vec::new();
    if n < 0 {
        out.push('-');
        let m: u64 = if n == i64::MIN {
            9223372036854775808u64
        } else {
            (-n) as u64
        };
        push_digits(&mut out, m);
    } else {
        push_digits(&mut out, n as u64);
        assert(out@ =~= dec_text(n as nat));
    }
    out
}

/// The value of a sequence of decimal digits.
pub open spec fn digits_value(s: Seq<char>) -> nat
    decreases s.len(),
{
    if s.len() == 0 {
        0
    } else {
        digits_value(s.drop_last()) * 10 + ((s.last() as int) - 48) as nat
    }
}

/// All characters of `s` are ASCII digits.
pub open spec fn all_digits(s: Seq<char>) -> bool {
    forall|i: int| 0 <= i < s.len() ==> '0' <= #[trigger] s[i] && s[i] <= '9'
}

/// The decimal text of `n` is one or more digits whose value is `n`, so
/// parsing it gives `n` back.
pub proof fn lemma_dec_text_value(n: nat)
    ensures
        dec_text(n).len() >= 1,
        all_digits(dec_text(n)),
        digits_value(dec_text(n)) == n,
    decreases n,
{
    if n < 10 {
        let t = dec_text(n);
        assert((t.last() as int) == n + 48);
        assert(t.drop_last() =~= seq![]);
        assert(digits_value(t.drop_last()) == 0);
        assert(digits_value(t) == digits_value(t.drop_last()) * 10 + ((t.last() as int) - 48) as nat);
    } else {
        lemma_dec_text_value(n / 10);
        let t = dec_text(n);
        assert(t.drop_last() =~= dec_text(n / 10));
        assert((digit_char(n % 10) as int) == n % 10 + 48);
        assert((t.last() as int) == n % 10 + 48);
        assert(digits_value(t) == digits_value(t.drop_last()) * 10 + ((t.last() as int) - 48) as nat);
        assert((n / 10) * 10 + n % 10 == n) by (nonlinear_arith);
        assert forall|i: int| 0 <= i < t.len() implies '0' <= #[trigger] t[i] && t[i] <= '9' by {
            if i < t.len() - 1 {
                assert(t[i] == dec_text(n / 10)[i]);
            }
        }
    }
}

/// `usize::from_str`: an optional `+`, then one or more digits, with a value
/// that fits in `usize`.
pub open spec fn parse_usize_spec(s: Seq<char>) -> Option<nat> {
    let d = if s.len() > 1 && s[0] == '+' {
        s.drop_first()
    } else {
        s
    };
    if d.len() == 0 || !all_digits(d) || digits_value(d) > usize::MAX {
        None
    } else {
        Some(digits_value(d))
    }
}

/// Parses an unsigned integer the way `str::parse::<usize>` does.
pub fn parse_usize(s: &Vec<char>) -> (r: Option<usize>)
    ensures
        r is Some <==> parse_usize_spec(s@) is Some,
        r matches Some(v) ==> v as nat == parse_usize_spec(s@).unwrap(),
{
    let start: usize = if s.len() > 1 && s[0] == '+' {
        1
    } else {
        0
    };
    let ghost d = if s@.len() > 1 && s@[0] == '+' {
        s@.drop_first()
    } else {
        s@
    };
    assert(d =~= s@.skip(start as int));
    if start == s.len() {
        assert(d.len() == 0);
        return None;
    }
    let n = s.len();
    let mut value: usize = 0;
    let mut overflow = false;
    for i in start..n
        invariant
            n == s@.len(),
            start <= n,
            d == s@.skip(start as int),
            parse_usize_spec(s@) == (if d.len() == 0 || !all_digits(d) || digits_value(d)
                > usize::MAX {
                None::<nat>
            } else {
                Some(digits_value(d))
            }),
            all_digits(s@.subrange(start as int, i as int)),
            !overflow ==> value as nat == digits_value(s@.subrange(start as int, i as int)),
            overflow ==> digits_value(s@.subrange(start as int, i as int)) > usize::MAX,
    {
        let c = s[i];
        if !('0' <= c && c <= '9') {
            assert(!all_digits(d)) by {
                assert(d[i - start] == c);
            }
            assert(parse_usize_spec(s@) is None);
            return None;
        }
        let ghost prev = s@.subrange(start as int, i as int);
        let ghost next = s@.subrange(start as int, i + 1);
        assert(next.drop_last() =~= prev);
        assert(all_digits(next));
        let dv = (c as u8 - 48) as usize;
        assert(dv as int == (c as int) - 48);
        if !overflow {
            if value > (usize::MAX - dv) / 10 {
                overflow = true;
                assert(digits_value(next) > usize::MAX) by (nonlinear_arith)
                    requires
                        digits_value(next) == value * 10 + dv,
                        value > (usize::MAX - dv) / 10,
                        0 <= dv <= 9,
                {
                }
            } else {
                assert(value * 10 + dv <= usize::MAX) by (nonlinear_arith)
                    requires
                        value <= (usize::MAX - dv) / 10,
                        0 <= dv <= 9,
                {
                }
                value = value * 10 + dv;
            }
        } else {
            assert(digits_value(next) >= digits_value(prev) * 10) by (nonlinear_arith)
                requires
                    digits_value(next) == digits_value(prev) * 10 + ((c as int) - 48),
                    '0' <= c,
            {
            }
            assert(digits_value(next) > usize::MAX) by (nonlinear_arith)
                requires
                    digits_value(next) >= digits_value(prev) * 10,
                    digits_value(prev) > usize::MAX,
            {
            }
        }
    }
    assert(s@.subrange(start as int, n as int) =~= d);
    if overflow {
        None
    } else {
        Some(value)
    }
}

/// The elements of `parts` joined by `sep`.
pub open spec fn join_seq(parts: Seq<Seq<char>>, sep: Seq<char>) -> Seq<char>
    decreases parts.len(),
{
    if parts.len() == 0 {
        seq![]
    } else if parts.len() == 1 {
        parts[0]
    } else {
        join_seq(parts.drop_last(), sep) + sep + parts.last()
    }
}

/// The views of a sequence of strings.
pub open spec fn views(v: Seq<String>) -> Seq<Seq<char>> {
    v.map_values(|s: String| s@)
}

/// The strings in `parts`, joined by `sep` (`[String]::join`).
pub fn join(parts: &Vec<String>, sep: &str) -> (r: String)
    ensures
        r@ == join_seq(views(parts@), sep@),
{
    let mut out: Vec<char> = Vec::new();
    let n = parts.len();
    let sep_cs = chars_of(sep);
    for i in 0..n
        invariant
            n == parts@.len(),
            sep_cs@ == sep@,
            out@ == join_seq(views(parts@.take(i as int)), sep@),
    {
        let ghost before = views(parts@.take(i as int));
        let ghost after = views(parts@.take(i + 1));
        assert(after.drop_last() =~= before);
        assert(after.last() == parts@[i as int]@);
        if i > 0 {
            append_chars(&mut out, &sep_cs);
        } else {
            assert(before.len() == 0);
        }
        append_str(&mut out, parts[i].as_str());
    }
    assert(parts@.take(n as int) =~= parts@);
    string_of(&out)
}

/// `str::replace`: every non-overlapping occurrence of `pat`, left to right,
/// replaced by `rep` (`pat` non-empty).
pub open spec fn replace_all(s: Seq<char>, pat: Seq<char>, rep: Seq<char>) -> Seq<char>
    decreases s.len(),
{
    if pat.len() == 0 || s.len() < pat.len() {
        s
    } else if s.take(pat.len() as int) == pat {
        rep + replace_all(s.skip(pat.len() as int), pat, rep)
    } else {
        seq![s[0]] + replace_all(s.drop_first(), pat, rep)
    }
}

/// `s` with every occurrence of `pat` replaced by `rep` (`str::replace`).
pub fn replace(s: &Vec<char>, pat: &Vec<char>, rep: &Vec<char>) -> (r: Vec<char>)
    ensures
        r@ == replace_all(s@, pat@, rep@),
{
    let n = s.len();
    let m = pat.len();
    let mut out: Vec<char> = Vec::new();
    if m == 0 {
        append_chars(&mut out, s);
        return out;
    }
    let mut i: usize = 0;
    assert(s@.skip(0) =~= s@);
    while i < n
        invariant
            n == s@.len(),
            m == pat@.len(),
            m > 0,
            i <= n,
            out@ + replace_all(s@.skip(i as int), pat@, rep@) == replace_all(s@, pat@, rep@),
        decreases n - i,
    {
        let ghost rest = s@.skip(i as int);
        if m <= n - i && matches_at(s, pat, i) {
            assert(rest.take(m as int) =~= s@.subrange(i as int, i + m));
            assert(rest.skip(m as int) =~= s@.skip(i + m));
            append_chars(&mut out, rep);
            assert(out@ + replace_all(s@.skip(i + m), pat@, rep@) =~= replace_all(s@, pat@, rep@));
            i = i + m;
        } else {
            if m <= n - i {
                assert(rest.take(m as int) =~= s@.subrange(i as int, i + m));
                assert(rest.drop_first() =~= s@.skip(i + 1));
                out.push(s[i]);
                assert(out@ + replace_all(s@.skip(i + 1), pat@, rep@) =~= replace_all(s@, pat@, rep@));
                i = i + 1;
            } else {
                let ghost before = out@;
                let mut t = i;
                while t < n
                    invariant
                        n == s@.len(),
                        i <= t <= n,
                        out@ == before + s@.subrange(i as int, t as int),
                    decreases n - t,
                {
                    out.push(s[t]);
                    assert(s@.subrange(i as int, t as int).push(s@[t as int]) =~= s@.subrange(i as int, t + 1));
                    t = t + 1;
                }
                assert(s@.subrange(i as int, n as int) =~= rest);
                assert(s@.skip(n as int).len() == 0);
                assert(out@ + replace_all(s@.skip(n as int), pat@, rep@) =~= replace_all(s@, pat@, rep@));
                i = n;
            }
        }
    }
    assert(out@ =~= replace_all(s@, pat@, rep@));
    out
}

/// `i64::from_str`: an optional sign, then one or more digits, with a value in
/// range.
pub open spec fn parse_i64_spec(s: Seq<char>) -> Option<int> {
    let neg = s.len() > 1 && s[0] == '-';
    let d = if s.len() > 1 && (s[0] == '+' || s[0] == '-') {
        s.drop_first()
    } else {
        s
    };
    if d.len() == 0 || !all_digits(d) {
        None
    } else {
        let v: int = if neg {
            -(digits_value(d) as int)
        } else {
            digits_value(d) as int
        };
        if i64::MIN <= v <= i64::MAX {
            Some(v)
        } else {
            None
        }
    }
}

/// Parses a signed integer the way `str::parse::<i64>` does.
pub fn parse_i64(s: &Vec<char>) -> (r: Option<i64>)
    ensures
        r is Some <==> parse_i64_spec(s@) is Some,
        r matches Some(v) ==> v as int == parse_i64_spec(s@).unwrap(),
{
    let n = s.len();
    let signed = n > 1 && (s[0] == '+' || s[0] == '-');
    let neg = n > 1 && s[0] == '-';
    let start: usize = if signed {
        1
    } else {
        0
    };
    let ghost d = if s@.len() > 1 && (s@[0] == '+' || s@[0] == '-') {
        s@.drop_first()
    } else {
        s@
    };
    assert(d =~= s@.skip(start as int));
    if start == n {
        assert(d.len() == 0);
        return None;
    }
    let limit: u64 = if neg {
        9223372036854775808u64
    } else {
        9223372036854775807u64
    };
    let mut value: u64 = 0;
    let mut over = false;
    for i in start..n
        invariant
            n == s@.len(),
            start <= n,
            d == s@.skip(start as int),
            limit == (if neg { 9223372036854775808int } else { 9223372036854775807int }),
            neg == (s@.len() > 1 && s@[0] == '-'),
            parse_i64_spec(s@) == (if d.len() == 0 || !all_digits(d) {
                None::<int>
            } else {
                let v: int = if neg {
                    -(digits_value(d) as int)
                } else {
                    digits_value(d) as int
                };
                if i64::MIN <= v <= i64::MAX {
                    Some(v)
                } else {
                    None
                }
            }),
            all_digits(s@.subrange(start as int, i as int)),
            !over ==> value as nat == digits_value(s@.subrange(start as int, i as int)),
            !over ==> value <= limit,
            over ==> digits_value(s@.subrange(start as int, i as int)) > limit,
    {
        let c = s[i];
        if !('0' <= c && c <= '9') {
            assert(!all_digits(d)) by {
                assert(d[i - start] == c);
            }
            return None;
        }
        let ghost prev = s@.subrange(start as int, i as int);
        let ghost next = s@.subrange(start as int, i + 1);
        assert(next.drop_last() =~= prev);
        assert(all_digits(next));
        let dv = (c as u8 - 48) as u64;
        assert(dv as int == (c as int) - 48);
        if !over {
            if value > (limit - dv) / 10 {
                over = true;
                assert(digits_value(next) > limit) by (nonlinear_arith)
                    requires
                        digits_value(next) == value * 10 + dv,
                        value > (limit - dv) / 10,
                        0 <= dv <= 9,
                        limit >= 9,
                {
                }
            } else {
                assert(value * 10 + dv <= limit) by (nonlinear_arith)
                    requires
                        value <= (limit - dv) / 10,
                        0 <= dv <= 9,
                        limit >= 9,
                {
                }
                value = value * 10 + dv;
            }
        } else {
            assert(digits_value(next) >= digits_value(prev) * 10) by (nonlinear_arith)
                requires
                    digits_value(next) == digits_value(prev) * 10 + ((c as int) - 48),
                    '0' <= c,
            {
            }
            assert(digits_value(next) > limit) by (nonlinear_arith)
                requires
                    digits_value(next) >= digits_value(prev) * 10,
                    digits_value(prev) > limit,
                    limit >= 0,
            {
            }
        }
    }
    assert(s@.subrange(start as int, n as int) =~= d);
    if over {
        return None;
    }
    if neg {
        if value == 9223372036854775808u64 {
            Some(i64::MIN)
        } else {
            Some(-(value as i64))
        }
    } else {
        Some(value as i64)
    }
}

} // verus!
