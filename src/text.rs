//! Character-level helpers: truncation, title derivation and decimal numbers.
use vstd::prelude::*;

verus! {

/// Placeholder title of a post whose content carries no title marker.
pub const DEFAULT_TITLE: &'static str = "Uusi tarjous";

/// The origin of the thread's pages.
pub const THREAD_URL_PREFIX: &'static str = "https://bbs.io-tech.fi/threads/151/page-";

/// The first `n` characters of `s`, or all of `s` when it is shorter.
pub open spec fn prefix_chars(s: Seq<char>, n: nat) -> Seq<char> {
    if n < s.len() {
        s.take(n as int)
    } else {
        s
    }
}

/// Cuts `s` after `max_chars` Unicode scalar values; a shorter `s` is returned whole.
pub fn truncate(s: &str, max_chars: usize) -> (r: &str)
    ensures
        r@ == prefix_chars(s@, max_chars as nat),
        r@.len() == if s@.len() > max_chars { max_chars as nat } else { s@.len() },
{
    let len = s.unicode_len();
    if len <= max_chars {
        s
    } else {
        s.substring_char(0, max_chars)
    }
}

/// The literal that opens a post carrying a product title.
pub open spec fn title_marker() -> Seq<char> {
    seq!['T', 'u', 'o', 't', 'e', ':']
}

/// Number of characters before the first line break of `s`.
pub open spec fn line_len(s: Seq<char>) -> nat
    decreases s.len(),
{
    if s.len() == 0 {
        0
    } else if s[0] == '\n' {
        0
    } else {
        1 + line_len(s.drop_first())
    }
}

/// The title of a post with content `content`: the text after the marker up to
/// the first line break, or `default` when there is no marker or that text is empty.
pub open spec fn title_of(content: Seq<char>, default: Seq<char>) -> Seq<char> {
    if starts_with(content, title_marker()) {
        let rest = content.skip(title_marker().len() as int);
        let line = rest.take(line_len(rest) as int);
        if line.len() == 0 {
            default
        } else {
            line
        }
    } else {
        default
    }
}

proof fn lemma_line_len(s: Seq<char>, i: int)
    requires
        0 <= i <= s.len(),
        i == s.len() || s[i] == '\n',
        forall|j: int| 0 <= j < i ==> s[j] != '\n',
    ensures
        line_len(s) == i,
    decreases s.len(),
{
    if s.len() > 0 && i > 0 {
        assert(s[0] != '\n');
        let t = s.drop_first();
        assert forall|j: int| 0 <= j < i - 1 implies t[j] != '\n' by {
            assert(t[j] == s[j + 1]);
        }
        if i < s.len() {
            assert(t[i - 1] == s[i]);
        }
        lemma_line_len(t, i - 1);
    }
}

/// `s` begins with `prefix`.
pub open spec fn starts_with(s: Seq<char>, prefix: Seq<char>) -> bool {
    s.len() >= prefix.len() && s.take(prefix.len() as int) == prefix
}

/// Tells whether `s` begins with `prefix`.
pub fn has_prefix(s: &str, prefix: &str) -> (r: bool)
    ensures
        r == starts_with(s@, prefix@),
{
    let m = prefix.unicode_len();
    let n = s.unicode_len();
    if n < m {
        return false;
    }
    let mut i: usize = 0;
    while i < m
        invariant
            m == prefix@.len(),
            m <= n,
            n == s@.len(),
            0 <= i <= m,
            forall|j: int| 0 <= j < i ==> s@[j] == prefix@[j],
        decreases m - i,
    {
        if s.get_char(i) != prefix.get_char(i) {
            assert(s@.take(m as int)[i as int] != prefix@[i as int]);
            return false;
        }
        i = i + 1;
    }
    assert(s@.take(m as int) =~= prefix@);
    true
}

/// Derives a post's title from its plain-text content.
pub fn get_title<'a>(content: &'a str, default_title: &'a str) -> (r: &'a str)
    ensures
        r@ == title_of(content@, default_title@),
{
    proof {
        reveal_strlit("Tuote:");
    }
    let marker = "Tuote:";
    assert(marker@ =~= title_marker());
    if !has_prefix(content, marker) {
        return default_title;
    }
    let m = marker.unicode_len();
    let n = content.unicode_len();
    assert(content@.take(m as int) =~= title_marker());
    let ghost rest = content@.skip(m as int);
    let mut k: usize = m;
    while k < n && content.get_char(k) != '\n'
        invariant
            m <= k <= n,
            n == content@.len(),
            m == title_marker().len(),
            rest == content@.skip(m as int),
            forall|j: int| 0 <= j < k - m ==> rest[j] != '\n',
        decreases n - k,
    {
        assert(rest[k - m] == content@[k as int]);
        k = k + 1;
    }
    proof {
        if k < n {
            assert(rest[k - m] == content@[k as int]);
        }
        lemma_line_len(rest, k - m);
    }
    if k == m {
        default_title
    } else {
        let r = content.substring_char(m, k);
        assert(r@ =~= rest.take(line_len(rest) as int));
        r
    }
}

/// Numeric value of a decimal digit.
pub open spec fn digit_value(c: char) -> nat {
    (c as u32 - '0' as u32) as nat
}

pub open spec fn is_digit(c: char) -> bool {
    '0' <= c && c <= '9'
}

/// Value of a string of decimal digits, most significant first.
pub open spec fn digits_value(s: Seq<char>) -> nat
    decreases s.len(),
{
    if s.len() == 0 {
        0
    } else {
        digits_value(s.drop_last()) * 10 + digit_value(s.last())
    }
}

/// `s` without one leading `+`, if it has one.
pub open spec fn strip_plus(s: Seq<char>) -> Seq<char> {
    if s.len() > 0 && s[0] == '+' {
        s.drop_first()
    } else {
        s
    }
}

/// What parsing `s` as an unsigned 32-bit decimal gives: an optional `+`, then
/// at least one digit, with a value that fits.
pub open spec fn u32_of(s: Seq<char>) -> Option<u32> {
    digits_u32(strip_plus(s))
}

/// The value of a non-empty string of decimal digits that fits in 32 bits.
pub open spec fn digits_u32(d: Seq<char>) -> Option<u32> {
    if d.len() > 0 && (forall|j: int| 0 <= j < d.len() ==> is_digit(#[trigger] d[j]))
        && digits_value(d) <= u32::MAX {
        Some(digits_value(d) as u32)
    } else {
        None
    }
}

/// Parses an unsigned 32-bit decimal number.
pub fn parse_u32(s: &str) -> (r: Option<u32>)
    ensures
        r == u32_of(s@),
{
    let n = s.unicode_len();
    let mut start: usize = 0;
    if n > 0 && s.get_char(0) == '+' {
        start = 1;
    }
    let ghost d = strip_plus(s@);
    assert(d =~= s@.skip(start as int));
    if start == n {
        return None;
    }
    let mut value: u64 = 0;
    let mut overflow = false;
    let mut i: usize = start;
    while i < n
        invariant
            start <= i <= n,
            n == s@.len(),
            d =~= s@.skip(start as int),
            d == strip_plus(s@),
            forall|j: int| 0 <= j < i - start ==> is_digit(#[trigger] d[j]),
            !overflow ==> value == digits_value(d.take(i - start)),
            overflow ==> digits_value(d.take(i - start)) > u32::MAX,
            value <= u32::MAX,
        decreases n - i,
    {
        let c = s.get_char(i);
        if !('0' <= c && c <= '9') {
            assert(d[i - start] == s@[i as int]);
            assert(!is_digit(d[i - start]));
            assert(!(forall|j: int| 0 <= j < d.len() ==> is_digit(#[trigger] d[j])));
            return None;
        }
        let ghost prev = d.take(i - start);
        let ghost next = d.take(i - start + 1);
        assert(next.drop_last() =~= prev);
        assert(next.last() == c);
        assert(digits_value(next) == digits_value(prev) * 10 + digit_value(c));
        if !overflow {
            let v = value * 10 + (c as u64 - '0' as u64);
            if v > u32::MAX as u64 {
                overflow = true;
            } else {
                value = v;
            }
        } else {
            assert(digits_value(prev) * 10 + digit_value(c) > u32::MAX) by (nonlinear_arith)
                requires
                    digits_value(prev) > u32::MAX,
            ;
        }
        i = i + 1;
    }
    assert(d.take(n - start) =~= d);
    if overflow {
        None
    } else {
        Some(value as u32)
    }
}

/// The number that follows `prefix` in `s`, if `s` is `prefix` and then
/// only decimal digits, at least one, with a value that fits in 32 bits.
pub open spec fn number_after(s: Seq<char>, prefix: Seq<char>) -> Option<u32> {
    if starts_with(s, prefix) {
        digits_u32(s.skip(prefix.len() as int))
    } else {
        None
    }
}

/// Reads the number that follows `prefix` in `s`, as in `post-17` or `page-3`.
pub fn parse_prefixed_u32(s: &str, prefix: &str) -> (r: Option<u32>)
    ensures
        r == number_after(s@, prefix@),
{
    if !has_prefix(s, prefix) {
        return None;
    }
    let rest = s.substring_char(prefix.unicode_len(), s.unicode_len());
    assert(rest@ =~= s@.skip(prefix@.len() as int));
    if rest.unicode_len() > 0 && rest.get_char(0) == '+' {
        assert(!is_digit(rest@[0]));
        return None;
    }
    parse_u32(rest)
}

/// Decimal digits of `n`, most significant first, without leading zeros.
pub open spec fn decimal(n: nat) -> Seq<char>
    decreases n,
{
    if n < 10 {
        seq![digit_char(n)]
    } else {
        decimal(n / 10).push(digit_char(n % 10))
    }
}

pub open spec fn digit_char(d: nat) -> char {
    ((d + '0' as u32) as u32) as char
}

/// Relies on `String::push`: appends one character.
#[verifier::external_body]
fn push_char(s: &mut String, c: char)
    ensures
        final(s)@ == old(s)@.push(c),
{
    s.push(c)
}

/// Appends the decimal digits of `n` to `out`.
fn push_decimal(out: &mut String, n: u32)
    ensures
        final(out)@ == old(out)@ + decimal(n as nat),
    decreases n,
{
    if n >= 10 {
        push_decimal(out, n / 10);
    }
    let d = n % 10;
    let c = (d + '0' as u32) as u8 as char;
    assert(c == digit_char((n % 10) as nat));
    push_char(out, c);
    proof {
        if n >= 10 {
            assert(decimal(n as nat) == decimal((n / 10) as nat).push(c));
        } else {
            assert(decimal(n as nat) =~= seq![c]);
        }
    }
}

/// Address of the thread's page `page`.
pub open spec fn page_url(page: u32) -> Seq<char> {
    THREAD_URL_PREFIX@ + decimal(page as nat)
}

/// Address of page `page` of the watched thread.
pub fn get_page_url(page: u32) -> (r: String)
    ensures
        r@ == page_url(page),
{
    let mut url = String::from_str(THREAD_URL_PREFIX);
    push_decimal(&mut url, page);
    url
}

} // verus!
