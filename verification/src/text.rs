//! Text operations on strings, stated over their characters.
use vstd::prelude::*;
use vstd::string::StrSliceExecFns;

verus! {

/// Whether `needle` stands somewhere in `s`.
pub open spec fn has_text(s: Seq<char>, needle: Seq<char>) -> bool {
    exists|i: int|
        0 <= i <= s.len() - needle.len() && #[trigger] s.subrange(i, i + needle.len()) == needle
}

/// The characters with the Unicode property `White_Space`.
pub open spec fn is_white_space(c: char) -> bool {
    let u = c as u32;
    ||| 0x9 <= u <= 0xD
    ||| u == 0x20
    ||| u == 0x85
    ||| u == 0xA0
    ||| u == 0x1680
    ||| 0x2000 <= u <= 0x200A
    ||| u == 0x2028
    ||| u == 0x2029
    ||| u == 0x202F
    ||| u == 0x205F
    ||| u == 0x3000
}

/// `s` without the white space that it begins with.
pub open spec fn trim_start_of(s: Seq<char>) -> Seq<char>
    decreases s.len(),
{
    if s.len() > 0 && is_white_space(s[0]) {
        trim_start_of(s.drop_first())
    } else {
        s
    }
}

/// `s` without the white space that it ends with.
pub open spec fn trim_end_of(s: Seq<char>) -> Seq<char>
    decreases s.len(),
{
    if s.len() > 0 && is_white_space(s.last()) {
        trim_end_of(s.drop_last())
    } else {
        s
    }
}

/// `s` without the white space around it.
pub open spec fn trimmed(s: Seq<char>) -> Seq<char> {
    trim_end_of(trim_start_of(s))
}

/// `s` without any of the copies of `p` that it begins with.
pub open spec fn without_prefixes(s: Seq<char>, p: Seq<char>) -> Seq<char>
    decreases s.len(),
{
    if p.len() > 0 && p.is_prefix_of(s) {
        without_prefixes(s.skip(p.len() as int), p)
    } else {
        s
    }
}

/// `s` without any of the characters `c` that it ends with.
pub open spec fn without_trailing(s: Seq<char>, c: char) -> Seq<char>
    decreases s.len(),
{
    if s.len() > 0 && s.last() == c {
        without_trailing(s.drop_last(), c)
    } else {
        s
    }
}

/// `s` without `suffix`, where it ends with it.
pub open spec fn without_suffix(s: Seq<char>, suffix: Seq<char>) -> Seq<char> {
    if suffix.is_suffix_of(s) {
        s.take(s.len() - suffix.len())
    } else {
        s
    }
}

/// The characters of `s`.
pub fn chars_of(s: &str) -> (v: Vec<char>)
    ensures
        v@ == s@,
{
    let mut v: Vec<char> = Vec::new();
    for c in it: s.chars()
        invariant
            it.seq() == s@,
            v@ == s@.take(it.index()),
    {
        v.push(c);
        assert(s@.take(it.index() + 1) =~= s@.take(it.index()).push(c));
    }
    assert(s@.take(s@.len() as int) =~= s@);
    v
}

/// Whether the characters of `p` stand in `s` from position `at` on.
fn stands_at(s: &Vec<char>, p: &Vec<char>, at: usize) -> (r: bool)
    requires
        at + p@.len() <= s@.len(),
    ensures
        r == (s@.subrange(at as int, at + p@.len()) == p@),
{
    let mut i: usize = 0;
    while i < p.len()
        invariant
            i <= p@.len(),
            at + p@.len() <= s.len(),
            forall|j: int| 0 <= j < i ==> s@[at + j] == p@[j],
        decreases p@.len() - i,
    {
        if s[at + i] != p[i] {
            assert(s@.subrange(at as int, at + p@.len())[i as int] != p@[i as int]);
            return false;
        }
        i += 1;
    }
    assert(s@.subrange(at as int, at + p@.len()) =~= p@);
    true
}

/// Whether `needle` stands somewhere in `s`.
pub fn contains(s: &str, needle: &str) -> (r: bool)
    ensures
        r == has_text(s@, needle@),
{
    let v = chars_of(s);
    let n = chars_of(needle);
    if n.len() > v.len() {
        return false;
    }
    let last: usize = v.len() - n.len();
    let mut i: usize = 0;
    while i <= last
        invariant
            v@ == s@,
            n@ == needle@,
            last == v@.len() - n@.len(),
            i <= last + 1,
            forall|j: int| 0 <= j < i ==> #[trigger] s@.subrange(j, j + n@.len()) != n@,
        decreases last + 1 - i,
    {
        if stands_at(&v, &n, i) {
            return true;
        }
        if i == last {
            return false;
        }
        i += 1;
    }
    false
}

/// Whether `s` begins with `p`.
pub fn starts_with(s: &str, p: &str) -> (r: bool)
    ensures
        r == p@.is_prefix_of(s@),
{
    let v = chars_of(s);
    let n = chars_of(p);
    n.len() <= v.len() && stands_at(&v, &n, 0)
}

/// Whether `s` ends with `p`.
pub fn ends_with(s: &str, p: &str) -> (r: bool)
    ensures
        r == p@.is_suffix_of(s@),
{
    let v = chars_of(s);
    let n = chars_of(p);
    n.len() <= v.len() && stands_at(&v, &n, v.len() - n.len())
}

/// What follows `p` in `s`, where `s` begins with it.
pub fn strip_prefix<'a>(s: &'a str, p: &str) -> (r: Option<&'a str>)
    ensures
        r is Some <==> p@.is_prefix_of(s@),
        r matches Some(rest) ==> rest@ == s@.skip(p@.len() as int),
{
    if starts_with(s, p) {
        Some(s.substring_char(p.unicode_len(), s.unicode_len()))
    } else {
        None
    }
}

/// `s` without `suffix`, where it ends with it.
pub fn strip_suffix<'a>(s: &'a str, suffix: &str) -> (r: &'a str)
    ensures
        r@ == without_suffix(s@, suffix@),
{
    if ends_with(s, suffix) {
        let n: usize = s.unicode_len();
        let k: usize = suffix.unicode_len();
        s.substring_char(0, n - k)
    } else {
        s
    }
}

/// Whether `c` has the Unicode property `White_Space`.
pub fn white_space(c: char) -> (r: bool)
    ensures
        r == is_white_space(c),
{
    let u: u32 = c as u32;
    (0x9 <= u && u <= 0xD) || u == 0x20 || u == 0x85 || u == 0xA0 || u == 0x1680 || (0x2000 <= u
        && u <= 0x200A) || u == 0x2028 || u == 0x2029 || u == 0x202F || u == 0x205F || u == 0x3000
}

/// `s` without the white space that it begins with.
pub fn trim_start<'a>(s: &'a str) -> (r: &'a str)
    ensures
        r@ == trim_start_of(s@),
{
    let v = chars_of(s);
    let mut i: usize = 0;
    assert(s@.skip(0) =~= s@);
    while i < v.len() && white_space(v[i])
        invariant
            v@ == s@,
            i <= v@.len(),
            trim_start_of(s@.skip(i as int)) == trim_start_of(s@),
        decreases v@.len() - i,
    {
        assert(s@.skip(i as int).drop_first() =~= s@.skip(i + 1));
        i += 1;
    }
    let r = s.substring_char(i, v.len());
    assert(r@ =~= s@.skip(i as int));
    r
}

/// `s` without the white space around it.
pub fn trim<'a>(s: &'a str) -> (r: &'a str)
    ensures
        r@ == trimmed(s@),
{
    let s = trim_start(s);
    let v = chars_of(s);
    let mut n: usize = v.len();
    assert(s@.take(n as int) =~= s@);
    while n > 0 && white_space(v[n - 1])
        invariant
            v@ == s@,
            n <= v@.len(),
            trim_end_of(s@.take(n as int)) == trim_end_of(s@),
        decreases n,
    {
        assert(s@.take(n as int).drop_last() =~= s@.take(n - 1));
        n -= 1;
    }
    let r = s.substring_char(0, n);
    assert(r@ =~= s@.take(n as int));
    r
}

/// `s` without any of the copies of `p` that it begins with.
pub fn trim_start_matches<'a>(s: &'a str, p: &str) -> (r: &'a str)
    requires
        p@.len() > 0,
    ensures
        r@ == without_prefixes(s@, p@),
{
    let mut rest: &'a str = s;
    loop
        invariant
            p@.len() > 0,
            without_prefixes(rest@, p@) == without_prefixes(s@, p@),
        decreases rest@.len(),
    {
        match strip_prefix(rest, p) {
            Some(r) => {
                rest = r;
            },
            None => {
                return rest;
            },
        }
    }
}

/// `s` without any of the characters `c` that it ends with.
pub fn trim_end_matches<'a>(s: &'a str, c: char) -> (r: &'a str)
    ensures
        r@ == without_trailing(s@, c),
{
    let v = chars_of(s);
    let mut n: usize = v.len();
    assert(s@.take(n as int) =~= s@);
    while n > 0 && v[n - 1] == c
        invariant
            v@ == s@,
            n <= v@.len(),
            without_trailing(s@.take(n as int), c) == without_trailing(s@, c),
        decreases n,
    {
        assert(s@.take(n as int).drop_last() =~= s@.take(n - 1));
        n -= 1;
    }
    let r = s.substring_char(0, n);
    assert(r@ =~= s@.take(n as int));
    r
}

/// The value of decimal digits.
pub open spec fn digits_value(s: Seq<char>) -> nat
    decreases s.len(),
{
    if s.len() == 0 {
        0
    } else {
        digits_value(s.drop_last()) * 10 + (s.last() as u32 - '0' as u32) as nat
    }
}

/// Whether `c` is one of the ten ASCII digits.
pub open spec fn is_digit(c: char) -> bool {
    '0' <= c <= '9'
}

/// The number that the digits `d` write, where there are any and a `u32` can hold it.
pub open spec fn u32_of_digits(d: Seq<char>) -> Option<u32> {
    if d.len() > 0 && (forall|i: int| 0 <= i < d.len() ==> is_digit(#[trigger] d[i]))
        && digits_value(d) <= u32::MAX {
        Some(digits_value(d) as u32)
    } else {
        None
    }
}

/// The number that `s` writes in decimal: digits, with or without a plus sign
/// before them, whose value a `u32` can hold.
pub open spec fn u32_of(s: Seq<char>) -> Option<u32> {
    if s.len() > 0 && s[0] == '+' {
        u32_of_digits(s.drop_first())
    } else {
        u32_of_digits(s)
    }
}

/// A prefix of digits has no larger value than the whole.
proof fn lemma_digits_value_grows(s: Seq<char>, n: int)
    requires
        0 <= n <= s.len(),
    ensures
        digits_value(s.take(n)) <= digits_value(s),
    decreases s.len() - n,
{
    if n < s.len() {
        assert(s.take(n + 1).drop_last() =~= s.take(n));
        lemma_digits_value_grows(s, n + 1);
    } else {
        assert(s.take(n) =~= s);
    }
}

/// The number that `s` writes in decimal, where a `u32` can hold it.
pub fn parse_u32(s: &str) -> (r: Option<u32>)
    ensures
        r == u32_of(s@),
{
    let v = chars_of(s);
    let start: usize = if v.len() > 0 && v[0] == '+' {
        1
    } else {
        0
    };
    let ghost d = s@.skip(start as int);
    assert(start == 1 ==> d =~= s@.drop_first());
    assert(start == 0 ==> d =~= s@);
    if v.len() == start {
        return None;
    }
    let mut value: u64 = 0;
    let mut i: usize = start;
    assert(d.take(0) =~= Seq::<char>::empty());
    while i < v.len()
        invariant
            v@ == s@,
            start <= i <= v@.len(),
            d == s@.skip(start as int),
            d.len() == v@.len() - start,
            d.len() > 0,
            u32_of(s@) == u32_of_digits(d),
            forall|j: int| 0 <= j < i - start ==> is_digit(#[trigger] d[j]),
            value == digits_value(d.take(i - start)),
            value <= u32::MAX,
        decreases v@.len() - i,
    {
        let c: char = v[i];
        assert(d[i - start] == c);
        if !('0' <= c && c <= '9') {
            return None;
        }
        value = value * 10 + (c as u32 - '0' as u32) as u64;
        proof {
            assert(d.take(i + 1 - start).drop_last() =~= d.take(i - start));
            lemma_digits_value_grows(d, i + 1 - start);
        }
        if value > 0xFFFF_FFFF {
            return None;
        }
        i += 1;
    }
    assert(d.take(d.len() as int) =~= d);
    Some(value as u32)
}

/// The part of `s` after its last line feed, all of `s` if there is none.
pub open spec fn after_last_line_feed(s: Seq<char>) -> Seq<char>
    decreases s.len(),
{
    if s.len() == 0 || s.last() == '\n' {
        Seq::empty()
    } else {
        after_last_line_feed(s.drop_last()).push(s.last())
    }
}

/// The last line of `s`. A line ends with a line feed, which a carriage return
/// may precede; the last one may lack the line feed, and keeps a carriage return then.
pub open spec fn last_line_of(s: Seq<char>) -> Option<Seq<char>> {
    if s.len() == 0 {
        None
    } else if s.last() == '\n' {
        Some(without_suffix(after_last_line_feed(s.drop_last()), seq!['\r']))
    } else {
        Some(after_last_line_feed(s))
    }
}

/// The last line of `s`, without what ends it.
pub fn last_line<'a>(s: &'a str) -> (r: Option<&'a str>)
    ensures
        r.deep_view() == last_line_of(s@),
{
    let v = chars_of(s);
    if v.len() == 0 {
        return None;
    }
    let ended: bool = v[v.len() - 1] == '\n';
    let end: usize = if ended {
        v.len() - 1
    } else {
        v.len()
    };
    let ghost body = s@.take(end as int);
    assert(ended ==> body =~= s@.drop_last());
    assert(!ended ==> body =~= s@);
    let mut start: usize = end;
    assert(body.take(end as int) =~= body);
    assert(body.skip(end as int) =~= Seq::<char>::empty());
    while start > 0 && v[start - 1] != '\n'
        invariant
            v@ == s@,
            start <= end <= v@.len(),
            body == s@.take(end as int),
            after_last_line_feed(body) =~= after_last_line_feed(body.take(start as int))
                + body.skip(start as int),
        decreases start,
    {
        assert(body.take(start as int).drop_last() =~= body.take(start - 1));
        assert(body.skip(start - 1) =~= seq![body[start - 1]] + body.skip(start as int));
        start -= 1;
    }
    let line = s.substring_char(start, end);
    assert(line@ =~= body.skip(start as int));
    assert(after_last_line_feed(body) =~= line@);
    if ended {
        proof {
            reveal_strlit("\r");
            assert("\r"@ =~= seq!['\r']);
        }
        Some(strip_suffix(line, "\r"))
    } else {
        Some(line)
    }
}

/// A text stands in another exactly where that can be cut into what is before it, the text
/// itself, and what is after it.
pub proof fn law_has_text(s: Seq<char>, needle: Seq<char>)
    ensures
        has_text(s, needle) <==> exists|before: Seq<char>, after: Seq<char>|
            s == #[trigger] (before + needle + after),
{
    if has_text(s, needle) {
        let i = choose|i: int|
            0 <= i <= s.len() - needle.len() && #[trigger] s.subrange(i, i + needle.len())
                == needle;
        let before = s.take(i);
        let after = s.skip(i + needle.len());
        assert(s =~= before + s.subrange(i, i + needle.len()) + after);
        assert(s == before + needle + after);
    }
    if exists|before: Seq<char>, after: Seq<char>| s == #[trigger] (before + needle + after) {
        let (before, after) = choose|before: Seq<char>, after: Seq<char>|
            s == #[trigger] (before + needle + after);
        let i = before.len() as int;
        assert(s.subrange(i, i + needle.len()) =~= needle);
    }
}

/// White space is the space, the tab, the line feed and their like, the next line, the
/// spaces that do not break, the spaces of typography, and the two separators.
pub proof fn law_white_space(c: char)
    ensures
        is_white_space(c) <==> (('\t' <= c <= '\r') || c == ' ' || c == '\u{85}' || c == '\u{A0}' || c
            == '\u{1680}' || ('\u{2000}' <= c <= '\u{200A}') || c == '\u{2028}' || c == '\u{2029}'
            || c == '\u{202F}' || c == '\u{205F}' || c == '\u{3000}'),
{
}

/// Whether all of `s` is white space.
pub open spec fn is_blank(s: Seq<char>) -> bool {
    forall|i: int| 0 <= i < s.len() ==> is_white_space(#[trigger] s[i])
}

/// White space before a text that does not begin with any is taken off, and nothing else.
pub proof fn law_trim_start(before: Seq<char>, rest: Seq<char>)
    requires
        is_blank(before),
        rest.len() == 0 || !is_white_space(rest[0]),
    ensures
        trim_start_of(before + rest) == rest,
    decreases before.len(),
{
    let all = before + rest;
    if before.len() > 0 {
        assert(is_white_space(before[0]));
        assert(all[0] == before[0]);
        let less = before.drop_first();
        assert forall|i: int| 0 <= i < less.len() implies is_white_space(#[trigger] less[i]) by {
            assert(less[i] == before[i + 1]);
        }
        assert(all.drop_first() =~= less + rest);
        law_trim_start(less, rest);
    } else {
        assert(all =~= rest);
    }
}

/// White space after a text that does not end with any is taken off, and nothing else.
pub proof fn law_trim_end(rest: Seq<char>, after: Seq<char>)
    requires
        is_blank(after),
        rest.len() == 0 || !is_white_space(rest.last()),
    ensures
        trim_end_of(rest + after) == rest,
    decreases after.len(),
{
    let all = rest + after;
    if after.len() > 0 {
        assert(is_white_space(after[after.len() - 1]));
        assert(all.last() == after.last());
        let less = after.drop_last();
        assert forall|i: int| 0 <= i < less.len() implies is_white_space(#[trigger] less[i]) by {
            assert(less[i] == after[i]);
        }
        assert(all.drop_last() =~= rest + less);
        law_trim_end(rest, less);
    } else {
        assert(all =~= rest);
    }
}

/// A text comes back from amid white space as it was put there, where it neither begins nor
/// ends with any itself; of white space alone nothing is left.
pub proof fn law_trimmed(before: Seq<char>, core: Seq<char>, after: Seq<char>)
    requires
        is_blank(before),
        is_blank(after),
        core.len() > 0 ==> !is_white_space(core[0]) && !is_white_space(core.last()),
    ensures
        trimmed(before + core + after) == core,
{
    if core.len() > 0 {
        let rest = core + after;
        assert(before + core + after =~= before + rest);
        law_trim_start(before, rest);
        law_trim_end(core, after);
    } else {
        let all = before + core + after;
        assert forall|i: int| 0 <= i < all.len() implies is_white_space(#[trigger] all[i]) by {
            if i < before.len() {
                assert(all[i] == before[i]);
            } else {
                assert(all[i] == after[i - before.len()]);
            }
        }
        assert(all + core =~= all);
        law_trim_start(all, core);
    }
}

/// Copies of a text at the beginning make no difference, and without any all stays.
pub proof fn law_without_prefixes(s: Seq<char>, p: Seq<char>)
    requires
        p.len() > 0,
    ensures
        without_prefixes(p + s, p) == without_prefixes(s, p),
        !p.is_prefix_of(s) ==> without_prefixes(s, p) == s,
        !p.is_prefix_of(without_prefixes(s, p)),
    decreases s.len(),
{
    assert(p.is_prefix_of(p + s));
    assert((p + s).skip(p.len() as int) =~= s);
    if p.is_prefix_of(s) {
        law_without_prefixes(s.skip(p.len() as int), p);
    }
}

/// Copies of a character at the end make no difference, and without any all stays.
pub proof fn law_without_trailing(s: Seq<char>, c: char)
    ensures
        without_trailing(s.push(c), c) == without_trailing(s, c),
        s.len() == 0 || s.last() != c ==> without_trailing(s, c) == s,
{
    assert(s.push(c).drop_last() =~= s);
}

/// A suffix is taken off once, and without it all stays.
pub proof fn law_without_suffix(s: Seq<char>, suffix: Seq<char>)
    ensures
        without_suffix(s + suffix, suffix) == s,
        !suffix.is_suffix_of(s) ==> without_suffix(s, suffix) == s,
{
    let all = s + suffix;
    assert(all.subrange(s.len() as int, all.len() as int) =~= suffix);
    assert(all.take(s.len() as int) =~= s);
}

/// The digit of a number below ten.
pub open spec fn digit_of(n: nat) -> char {
    (48 + n) as char
}

/// The decimal digits of a number, without leading zeros.
pub open spec fn decimal(n: nat) -> Seq<char>
    decreases n,
{
    if n < 10 {
        seq![digit_of(n)]
    } else {
        decimal(n / 10).push(digit_of(n % 10))
    }
}

/// Whether all of `s` is the digit zero.
pub open spec fn is_zeros(s: Seq<char>) -> bool {
    forall|i: int| 0 <= i < s.len() ==> #[trigger] s[i] == '0'
}

/// Decimal digits, with any zeros before them, have the value of the number they write.
proof fn lemma_decimal_value(zeros: Seq<char>, n: nat)
    requires
        is_zeros(zeros),
    ensures
        digits_value(zeros + decimal(n)) == n,
        forall|i: int|
            0 <= i < (zeros + decimal(n)).len() ==> is_digit(#[trigger] (zeros + decimal(n))[i]),
        decimal(n).len() > 0,
    decreases n,
{
    let all = zeros + decimal(n);
    if n < 10 {
        assert(all.drop_last() =~= zeros);
        lemma_zeros_value(zeros);
    } else {
        let shorter = zeros + decimal(n / 10);
        lemma_decimal_value(zeros, n / 10);
        assert(all.drop_last() =~= shorter);
        assert forall|i: int| 0 <= i < all.len() implies is_digit(#[trigger] all[i]) by {
            if i < shorter.len() {
                assert(all[i] == shorter[i]);
            }
        }
    }
}

/// Zeros are worth nothing.
proof fn lemma_zeros_value(zeros: Seq<char>)
    requires
        is_zeros(zeros),
    ensures
        digits_value(zeros) == 0,
    decreases zeros.len(),
{
    if zeros.len() > 0 {
        lemma_zeros_value(zeros.drop_last());
        assert(zeros[zeros.len() - 1] == '0');
    }
}

/// A number that is written in decimal, with any zeros and with or without a plus sign before
/// it, is read as that number where a `u32` can hold it, and not at all where none can.
pub proof fn law_written_number_is_read(zeros: Seq<char>, n: nat)
    requires
        is_zeros(zeros),
    ensures
        u32_of(zeros + decimal(n)) == (if n <= u32::MAX {
            Some(n as u32)
        } else {
            None
        }),
        u32_of(seq!['+'] + (zeros + decimal(n))) == u32_of(zeros + decimal(n)),
{
    let d = zeros + decimal(n);
    lemma_decimal_value(zeros, n);
    assert(is_digit(d[0]));
    assert((seq!['+'] + d).drop_first() =~= d);
}

/// No number is read where there is no digit, or anything but digits after the sign.
pub proof fn law_other_text_is_no_number(s: Seq<char>, i: int)
    requires
        0 <= i < s.len(),
        !('0' <= s[i] <= '9'),
        i > 0 || s[0] != '+' || s.len() == 1,
    ensures
        u32_of(s) is None,
        u32_of(Seq::empty()) is None,
{
    if s[0] == '+' && s.len() > 1 {
        assert(s.drop_first()[i - 1] == s[i]);
        assert(!is_digit(s.drop_first()[i - 1]));
    } else if s[0] != '+' {
        assert(!is_digit(s[i]));
    }
}

/// Whether `s` holds no line feed.
pub open spec fn is_one_line(s: Seq<char>) -> bool {
    forall|i: int| 0 <= i < s.len() ==> #[trigger] s[i] != '\n'
}

/// What follows the last line feed is what follows it.
proof fn lemma_after_last_line_feed(before: Seq<char>, line: Seq<char>)
    requires
        is_one_line(line),
        before.len() == 0 || before.last() == '\n',
    ensures
        after_last_line_feed(before + line) == line,
    decreases line.len(),
{
    let all = before + line;
    if line.len() > 0 {
        let less = line.drop_last();
        assert forall|i: int| 0 <= i < less.len() implies #[trigger] less[i] != '\n' by {
            assert(less[i] == line[i]);
        }
        assert(line[line.len() - 1] != '\n');
        assert(all.drop_last() =~= before + less);
        lemma_after_last_line_feed(before, less);
        assert(less.push(line.last()) =~= line);
    } else {
        assert(all =~= before);
    }
}

/// The last line is the one that was written last, whatever lines came before it: as it is
/// where nothing ends it, and without a line feed, or a carriage return and a line feed,
/// where one of these ends it. A text without any characters has no line.
pub proof fn law_last_line(before: Seq<char>, line: Seq<char>)
    requires
        is_one_line(line),
        before.len() == 0 || before.last() == '\n',
    ensures
        line.len() > 0 ==> last_line_of(before + line) == Some(line),
        line.len() == 0 || line.last() != '\r' ==> last_line_of((before + line).push('\n')) == Some(
            line,
        ),
        last_line_of((before + line).push('\r').push('\n')) == Some(line),
        last_line_of(Seq::empty()) is None,
{
    let all = before + line;
    lemma_after_last_line_feed(before, line);
    if line.len() > 0 {
        assert(all.last() == line[line.len() - 1]);
    }
    assert(all.push('\n').drop_last() =~= all);
    let r = seq!['\r'];
    if r.is_suffix_of(line) {
        assert(line.subrange(line.len() - 1, line.len() as int)[0] == r[0]);
    }
    let returned = line.push('\r');
    assert forall|i: int| 0 <= i < returned.len() implies #[trigger] returned[i] != '\n' by {
        if i < line.len() {
            assert(returned[i] == line[i]);
        }
    }
    assert(all.push('\r') =~= before + returned);
    lemma_after_last_line_feed(before, returned);
    assert(all.push('\r').push('\n').drop_last() =~= all.push('\r'));
    assert(returned =~= line + r);
    law_without_suffix(line, r);
}

/// Nothing is left of a text without the white space around it exactly where the text is
/// white space alone.
pub proof fn lemma_trimmed_empty(s: Seq<char>)
    ensures
        trimmed(s).len() == 0 <==> forall|i: int|
            0 <= i < s.len() ==> is_white_space(#[trigger] s[i]),
{
    lemma_trim_start_empty(s);
    lemma_trim_end_empty(trim_start_of(s));
}

/// What is left begins with no white space, and nothing is left of white space alone.
proof fn lemma_trim_start_empty(s: Seq<char>)
    ensures
        trim_start_of(s).len() == 0 <==> forall|i: int|
            0 <= i < s.len() ==> is_white_space(#[trigger] s[i]),
        trim_start_of(s).len() > 0 ==> !is_white_space(trim_start_of(s)[0]),
    decreases s.len(),
{
    if s.len() > 0 && is_white_space(s[0]) {
        let rest = s.drop_first();
        lemma_trim_start_empty(rest);
        assert forall|i: int| 0 <= i < rest.len() implies rest[i] == #[trigger] s[i + 1] by {
        }
        if forall|i: int| 0 <= i < rest.len() ==> is_white_space(#[trigger] rest[i]) {
            assert forall|i: int| 0 <= i < s.len() implies is_white_space(#[trigger] s[i]) by {
                if i > 0 {
                    assert(rest[i - 1] == s[i]);
                }
            }
        }
        if forall|i: int| 0 <= i < s.len() ==> is_white_space(#[trigger] s[i]) {
            assert forall|i: int| 0 <= i < rest.len() implies is_white_space(#[trigger] rest[i]) by {
                assert(rest[i] == s[i + 1]);
            }
        }
    }
}

/// What does not begin with white space keeps its beginning.
proof fn lemma_trim_end_empty(s: Seq<char>)
    requires
        s.len() > 0 ==> !is_white_space(s[0]),
    ensures
        trim_end_of(s).len() == 0 <==> s.len() == 0,
    decreases s.len(),
{
    if s.len() > 0 && is_white_space(s.last()) {
        lemma_trim_end_empty(s.drop_last());
    }
}

} // verus!
