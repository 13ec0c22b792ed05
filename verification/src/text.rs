//! Character-level text utilities shared by the scanners: searching,
//! trimming, decimal and hexadecimal rendering, integer parsing.
use vstd::prelude::*;

verus! {

/// The characters of a string slice, in order.
pub fn chars_of(s: &str) -> (v: Vec<char>)
    ensures
        v@ == s@,
{
    let mut v: Vec<char> = Vec::new();
    for c in it: s.chars()
        invariant
            v@ == it.seq().take(it.index() as int),
            it.seq() == s@,
    {
        v.push(c);
    }
    v
}

/// `String::push`: appends one character.
#[verifier::external_body]
pub(crate) fn push_char(s: &mut String, c: char)
    ensures
        final(s)@ == old(s)@.push(c),
{
    s.push(c);
}

/// A string holding the given characters.
pub fn string_from_chars(v: &[char]) -> (s: String)
    ensures
        s@ == v@,
{
    let mut s = String::new();
    let n = v.len();
    for i in 0..n
        invariant
            n == v@.len(),
            s@ == v@.take(i as int),
    {
        push_char(&mut s, v[i]);
        assert(v@.take(i + 1) == v@.take(i as int).push(v@[i as int]));
    }
    assert(v@.take(n as int) == v@);
    s
}

/// A copy of a string slice as an owned string.
pub fn owned(s: &str) -> (r: String)
    ensures
        r@ == s@,
{
    s.to_owned()
}

/// What `str::to_lowercase` gives for a string: its Unicode lowercase mapping.
pub uninterp spec fn lowercase(s: Seq<char>) -> Seq<char>;

/// `str::to_lowercase`. Its result is taken as the named mapping `lowercase`
/// of the argument; nothing else is claimed of it.
#[verifier::external_body]
pub(crate) fn to_lowercase(s: &str) -> (r: String)
    ensures
        r@ == lowercase(s@),
{
    s.to_lowercase()
}

/// `needle` occurs in `hay` starting at position `i`.
pub open spec fn occurs_at(hay: Seq<char>, needle: Seq<char>, i: int) -> bool {
    0 <= i && i + needle.len() <= hay.len() && hay.subrange(i, i + needle.len()) == needle
}

/// `needle` occurs somewhere in `hay` (the empty needle occurs everywhere).
pub open spec fn seq_contains(hay: Seq<char>, needle: Seq<char>) -> bool {
    exists|i: int| occurs_at(hay, needle, i)
}

/// `hay` begins with `prefix`.
pub open spec fn seq_starts_with(hay: Seq<char>, prefix: Seq<char>) -> bool {
    prefix.len() <= hay.len() && hay.take(prefix.len() as int) == prefix
}

/// `hay` ends with `suffix`.
pub open spec fn seq_ends_with(hay: Seq<char>, suffix: Seq<char>) -> bool {
    suffix.len() <= hay.len() && hay.skip(hay.len() - suffix.len()) == suffix
}

/// Whether `needle` occurs in `hay` at position `i` (character comparison).
fn matches_at(hay: &[char], needle: &[char], i: usize) -> (r: bool)
    requires
        i + needle@.len() <= hay@.len(),
    ensures
        r == occurs_at(hay@, needle@, i as int),
{
    let n = needle.len();
    let hl = hay.len();
    let mut j: usize = 0;
    while j < n
        invariant
            n == needle@.len(),
            hl == hay@.len(),
            i + n <= hay@.len(),
            j <= n,
            forall|k: int| 0 <= k < j ==> hay@[i + k] == needle@[k],
        decreases n - j,
    {
        assert(i + j < hay@.len());
        if hay[i + j] != needle[j] {
            assert(hay@.subrange(i as int, i + n)[j as int] != needle@[j as int]);
            return false;
        }
        j = j + 1;
    }
    assert(hay@.subrange(i as int, i + n) =~= needle@);
    true
}

/// First position at which `needle` occurs in `hay`.
pub fn find_chars(hay: &[char], needle: &[char]) -> (r: Option<usize>)
    ensures
        r matches Some(i) ==> occurs_at(hay@, needle@, i as int) && forall|k: int|
            0 <= k < i ==> !occurs_at(hay@, needle@, k),
        r is None ==> !seq_contains(hay@, needle@),
{
    if needle.len() > hay.len() {
        assert forall|k: int| !occurs_at(hay@, needle@, k) by {}
        return None;
    }
    let last = hay.len() - needle.len();
    let mut i: usize = 0;
    while i <= last
        invariant
            last == hay@.len() - needle@.len(),
            i <= last,
            forall|k: int| 0 <= k < i ==> !occurs_at(hay@, needle@, k),
        ensures
            forall|k: int| 0 <= k <= last ==> !occurs_at(hay@, needle@, k),
        decreases last - i,
    {
        if matches_at(hay, needle, i) {
            return Some(i);
        }
        if i == last {
            break;
        }
        i = i + 1;
    }
    None
}

/// `str::contains` on character sequences.
pub fn contains_chars(hay: &[char], needle: &[char]) -> (r: bool)
    ensures
        r == seq_contains(hay@, needle@),
{
    match find_chars(hay, needle) {
        Some(_) => true,
        None => false,
    }
}

/// `str::contains`.
pub fn str_contains(hay: &str, needle: &str) -> (r: bool)
    ensures
        r == seq_contains(hay@, needle@),
{
    let h = chars_of(hay);
    let n = chars_of(needle);
    contains_chars(h.as_slice(), n.as_slice())
}

/// `str::starts_with`.
pub fn str_starts_with(hay: &str, prefix: &str) -> (r: bool)
    ensures
        r == seq_starts_with(hay@, prefix@),
{
    let h = chars_of(hay);
    let p = chars_of(prefix);
    if p.len() > h.len() {
        return false;
    }
    let r = matches_at(h.as_slice(), p.as_slice(), 0);
    assert(h@.subrange(0, p@.len() as int) == h@.take(p@.len() as int));
    r
}

/// `str::ends_with`.
pub fn str_ends_with(hay: &str, suffix: &str) -> (r: bool)
    ensures
        r == seq_ends_with(hay@, suffix@),
{
    let h = chars_of(hay);
    let p = chars_of(suffix);
    if p.len() > h.len() {
        return false;
    }
    let start = h.len() - p.len();
    let r = matches_at(h.as_slice(), p.as_slice(), start);
    assert(h@.subrange(start as int, start + p@.len()) == h@.skip(start as int));
    r
}

/// Equality of two string slices by their characters.
pub fn str_eq(a: &str, b: &str) -> (r: bool)
    ensures
        r == (a@ == b@),
{
    let x = chars_of(a);
    let y = chars_of(b);
    if x.len() != y.len() {
        return false;
    }
    let r = matches_at(x.as_slice(), y.as_slice(), 0);
    assert(x@.subrange(0, y@.len() as int) == x@);
    r
}

/// The ASCII decimal digit for `d` (`d < 10`).
pub open spec fn digit_char(d: nat) -> char {
    (d + 48) as char
}

/// Decimal rendering of a natural number, as `to_string` writes it.
pub open spec fn decimal(n: nat) -> Seq<char>
    decreases n,
{
    if n < 10 {
        seq![digit_char(n)]
    } else {
        decimal(n / 10).push(digit_char(n % 10))
    }
}

/// Appends the decimal rendering of `n`.
pub fn push_decimal(s: &mut String, n: u64)
    ensures
        final(s)@ == old(s)@ + decimal(n as nat),
    decreases n,
{
    if n >= 10 {
        push_decimal(s, n / 10);
    }
    let d = (n % 10) as u32;
    let c = char_from_digit(d);
    push_char(s, c);
    assert(old(s)@ + decimal(n as nat) == (if n >= 10 { old(s)@ + decimal((n / 10) as nat) } else { old(s)@ }).push(digit_char((n % 10) as nat)));
}

/// The ASCII digit character for `d < 10`.
fn char_from_digit(d: u32) -> (c: char)
    requires
        d < 10,
    ensures
        c == digit_char(d as nat),
{
    match d {
        0 => '0',
        1 => '1',
        2 => '2',
        3 => '3',
        4 => '4',
        5 => '5',
        6 => '6',
        7 => '7',
        8 => '8',
        _ => '9',
    }
}

/// `u64::to_string`.
pub fn u64_to_string(n: u64) -> (s: String)
    ensures
        s@ == decimal(n as nat),
{
    let mut s = String::new();
    push_decimal(&mut s, n);
    s
}


/// Unicode `White_Space`, the set that `char::is_whitespace` and `str::trim` use.
pub open spec fn is_ws(c: char) -> bool {
    c == '\t' || c == '\n' || c == '\x0B' || c == '\x0C' || c == '\r' || c == ' '
        || c == '\u{85}' || c == '\u{A0}' || c == '\u{1680}' || ('\u{2000}' <= c
        && c <= '\u{200A}') || c == '\u{2028}' || c == '\u{2029}' || c == '\u{202F}'
        || c == '\u{205F}' || c == '\u{3000}'
}

/// `char::is_whitespace`.
pub fn char_is_ws(c: char) -> (r: bool)
    ensures
        r == is_ws(c),
{
    c == '\t' || c == '\n' || c == '\x0B' || c == '\x0C' || c == '\r' || c == ' '
        || c == '\u{85}' || c == '\u{A0}' || c == '\u{1680}' || ('\u{2000}' <= c
        && c <= '\u{200A}') || c == '\u{2028}' || c == '\u{2029}' || c == '\u{202F}'
        || c == '\u{205F}' || c == '\u{3000}'
}

/// `s` without its leading whitespace.
pub open spec fn trim_start(s: Seq<char>) -> Seq<char>
    decreases s.len(),
{
    if s.len() > 0 && is_ws(s[0]) {
        trim_start(s.drop_first())
    } else {
        s
    }
}

/// `s` without its trailing whitespace.
pub open spec fn trim_end(s: Seq<char>) -> Seq<char>
    decreases s.len(),
{
    if s.len() > 0 && is_ws(s.last()) {
        trim_end(s.drop_last())
    } else {
        s
    }
}

/// `str::trim`: `s` without leading and trailing whitespace.
pub open spec fn trim(s: Seq<char>) -> Seq<char> {
    trim_end(trim_start(s))
}

/// Bounds `(a, b)` of the trimmed part of `v`.
pub fn trim_bounds(v: &[char]) -> (r: (usize, usize))
    ensures
        r.0 <= r.1 <= v@.len(),
        v@.subrange(r.0 as int, r.1 as int) == trim(v@),
{
    let n = v.len();
    let mut a: usize = 0;
    assert(v@.skip(0) =~= v@);
    while a < n && char_is_ws(v[a])
        invariant
            n == v@.len(),
            a <= n,
            trim_start(v@) == trim_start(v@.skip(a as int)),
        decreases n - a,
    {
        assert(v@.skip(a as int).drop_first() =~= v@.skip(a + 1));
        a = a + 1;
    }
    let ghost t = v@.skip(a as int);
    assert(trim_start(t) == t);
    let mut b: usize = n;
    while b > a && char_is_ws(v[b - 1])
        invariant
            n == v@.len(),
            a <= b <= n,
            t == v@.skip(a as int),
            trim_end(t) == trim_end(v@.subrange(a as int, b as int)),
        decreases b - a,
    {
        assert(v@.subrange(a as int, b as int).drop_last() =~= v@.subrange(a as int, b - 1));
        b = b - 1;
    }
    assert(v@.subrange(a as int, n as int) =~= t);
    (a, b)
}

/// `str::trim`, as an owned string.
pub fn trim_str(s: &str) -> (r: String)
    ensures
        r@ == trim(s@),
{
    let v = chars_of(s);
    let (a, b) = trim_bounds(v.as_slice());
    let mut r = String::new();
    for i in a..b
        invariant
            a <= b <= v@.len(),
            r@ == v@.subrange(a as int, i as int),
    {
        push_char(&mut r, v[i]);
        assert(v@.subrange(a as int, i + 1) == v@.subrange(a as int, i as int).push(v@[i as int]));
    }
    r
}

/// `char::is_ascii_hexdigit`.
pub open spec fn is_hex_digit(c: char) -> bool {
    ('0' <= c && c <= '9') || ('a' <= c && c <= 'f') || ('A' <= c && c <= 'F')
}

/// The value of a string of decimal digits.
pub open spec fn digits_value(s: Seq<char>) -> int
    decreases s.len(),
{
    if s.len() == 0 {
        0
    } else {
        digits_value(s.drop_last()) * 10 + (s.last() as int - '0' as int)
    }
}

/// Every character is an ASCII decimal digit.
pub open spec fn all_digits(s: Seq<char>) -> bool {
    forall|i: int| 0 <= i < s.len() ==> '0' <= #[trigger] s[i] <= '9'
}

/// The value that `str::parse` reads from an unsigned integer text: an
/// optional `+`, then at least one decimal digit and nothing else.
pub open spec fn unsigned_text(s: Seq<char>) -> Option<int> {
    let body = if s.len() > 0 && s[0] == '+' { s.drop_first() } else { s };
    if body.len() > 0 && all_digits(body) {
        Some(digits_value(body))
    } else {
        None
    }
}

proof fn lemma_digits_prefix(s: Seq<char>, i: int)
    requires
        all_digits(s),
        0 <= i <= s.len(),
    ensures
        0 <= digits_value(s.take(i)) <= digits_value(s),
    decreases s.len(),
{
    if s.len() > 0 {
        if i == s.len() {
            assert(s.take(i) =~= s);
            lemma_digits_prefix(s.drop_last(), i - 1);
            assert(s.drop_last().take(i - 1) =~= s.drop_last());
        } else {
            lemma_digits_prefix(s.drop_last(), i);
            assert(s.drop_last().take(i) =~= s.take(i));
            lemma_digits_prefix(s.drop_last(), s.len() - 1);
            assert(s.drop_last().take(s.len() - 1) =~= s.drop_last());
        }
    } else {
        assert(s.take(i) =~= s);
    }
}

proof fn lemma_unsigned_text(s: Seq<char>, body: Seq<char>)
    requires
        body == (if s.len() > 0 && s[0] == '+' { s.drop_first() } else { s }),
    ensures
        unsigned_text(s) == (if body.len() > 0 && all_digits(body) {
            Some(digits_value(body))
        } else {
            None
        }),
{
}

/// `str::parse::<u64>`.
pub fn parse_u64(s: &str) -> (r: Option<u64>)
    ensures
        match r {
            Some(x) => unsigned_text(s@) == Some(x as int),
            None => unsigned_text(s@) is None || unsigned_text(s@)->0 > u64::MAX,
        },
{
    let v = chars_of(s);
    let start: usize = if v.len() > 0 && v[0] == '+' { 1 } else { 0 };
    let ghost body = if s@.len() > 0 && s@[0] == '+' { s@.drop_first() } else { s@ };
    assert(body =~= v@.skip(start as int));
    proof {
        lemma_unsigned_text(s@, body);
    }
    if start >= v.len() {
        assert(body.len() == 0);
        assert(unsigned_text(s@) is None);
        return None;
    }
    let mut acc: u64 = 0;
    let mut i: usize = start;
    while i < v.len()
        invariant
            start <= i <= v@.len(),
            start < v@.len(),
            body == v@.skip(start as int),
            unsigned_text(s@) == (if body.len() > 0 && all_digits(body) {
                Some(digits_value(body))
            } else {
                None
            }),
            forall|j: int| start <= j < i ==> '0' <= #[trigger] v@[j] <= '9',
            acc == digits_value(body.take(i - start)),
        decreases v@.len() - i,
    {
        let c = v[i];
        if !('0' <= c && c <= '9') {
            assert(!all_digits(body)) by {
                assert(body[i - start] == c);
            }
            return None;
        }
        let d: u64 = (c as u32 - '0' as u32) as u64;
        assert(body.take(i + 1 - start).drop_last() =~= body.take(i - start));
        assert(body.take(i + 1 - start).last() == c);
        let next = match acc.checked_mul(10) {
            Some(m) => m.checked_add(d),
            None => None,
        };
        match next {
            Some(n) => {
                acc = n;
            },
            None => {
                proof {
                    assert(digits_value(body.take(i + 1 - start)) == acc * 10 + d);
                    assert(acc * 10 + d > u64::MAX);
                    if all_digits(body) {
                        lemma_digits_prefix(body, i + 1 - start);
                        assert(digits_value(body) > u64::MAX);
                        assert(body.len() > 0);
                        assert(unsigned_text(s@) == Some(digits_value(body)));
                    }
                }
                return None;
            },
        }
        i = i + 1;
    }
    assert(body.take(i - start) =~= body);
    Some(acc)
}

/// `str::parse::<u16>`.
pub fn parse_u16(s: &str) -> (r: Option<u16>)
    ensures
        match r {
            Some(x) => unsigned_text(s@) == Some(x as int),
            None => unsigned_text(s@) is None || unsigned_text(s@)->0 > u16::MAX,
        },
{
    let r = parse_u64(s);
    match r {
        Some(v) => {
            assert(unsigned_text(s@) == Some(v as int));
            if v <= 65535 {
                Some(v as u16)
            } else {
                None
            }
        },
        None => {
            assert(unsigned_text(s@) is None || unsigned_text(s@)->0 > u16::MAX);
            None
        },
    }
}

/// `str::parse::<bool>`: exactly `true` or `false`.
pub fn parse_bool(s: &str) -> (r: Option<bool>)
    ensures
        r == (if s@ == "true"@ { Some(true) } else if s@ == "false"@ { Some(false) } else { None::<bool> }),
{
    if str_eq(s, "true") {
        Some(true)
    } else if str_eq(s, "false") {
        Some(false)
    } else {
        None
    }
}

/// The pieces of `s` between the occurrences of `sep`, in order: one more
/// than there are separators.
pub open spec fn split_on(s: Seq<char>, sep: char) -> Seq<Seq<char>>
    decreases s.len(),
{
    if s.len() == 0 {
        seq![Seq::empty()]
    } else {
        let p = split_on(s.drop_last(), sep);
        if s.last() == sep {
            p.push(Seq::empty())
        } else {
            p.update(p.len() - 1, p.last().push(s.last()))
        }
    }
}

proof fn lemma_split_on_nonempty(s: Seq<char>, sep: char)
    ensures
        split_on(s, sep).len() >= 1,
    decreases s.len(),
{
    if s.len() > 0 {
        lemma_split_on_nonempty(s.drop_last(), sep);
    }
}

/// A line that ended with a line feed, without a carriage return before it.
pub open spec fn strip_cr(l: Seq<char>) -> Seq<char> {
    if l.len() > 0 && l.last() == '\r' {
        l.drop_last()
    } else {
        l
    }
}

/// `str::lines`: the pieces between line feeds, those that ended with a
/// line feed without a carriage return before it; no last line when the
/// text ends with a line feed or is empty.
pub open spec fn text_lines(s: Seq<char>) -> Seq<Seq<char>> {
    let p = split_on(s, '\n');
    let ended = p.drop_last();
    let body = Seq::new(ended.len(), |i: int| strip_cr(ended[i]));
    if p.last().len() == 0 {
        body
    } else {
        body.push(p.last())
    }
}

/// The views of a sequence of strings.
pub open spec fn text_views(v: Seq<String>) -> Seq<Seq<char>> {
    Seq::new(v.len(), |i: int| v[i]@)
}

/// `str::lines`, as owned strings.
pub fn lines_of(s: &str) -> (r: Vec<String>)
    ensures
        text_views(r@) == text_lines(s@),
{
    let v = chars_of(s);
    let n = v.len();
    let mut done: Vec<String> = Vec::new();
    let mut cur: Vec<char> = Vec::new();
    proof {
        assert(v@.take(0) =~= Seq::<char>::empty());
    }
    for i in 0..n
        invariant
            n == v@.len(),
            v@ == s@,
            split_on(v@.take(i as int), '\n').len() == done@.len() + 1,
            forall|k: int| 0 <= k < done@.len() ==> #[trigger] done@[k]@ == strip_cr(split_on(v@.take(i as int), '\n')[k]),
            cur@ == split_on(v@.take(i as int), '\n').last(),
    {
        let c = v[i];
        assert(v@.take(i + 1).drop_last() =~= v@.take(i as int));
        proof {
            lemma_split_on_nonempty(v@.take(i as int), '\n');
        }
        if c == '\n' {
            let piece = string_from_chars(cur.as_slice());
            let line = if piece_ends_cr(&cur) {
                string_from_chars(&cur.as_slice()[0..cur.len() - 1])
            } else {
                piece
            };
            done.push(line);
            cur = Vec::new();
        } else {
            cur.push(c);
        }
    }
    assert(v@.take(n as int) =~= v@);
    proof {
        lemma_split_on_nonempty(v@, '\n');
    }
    if cur.len() > 0 {
        done.push(string_from_chars(cur.as_slice()));
    }
    assert(text_views(done@) =~= text_lines(s@));
    done
}

fn piece_ends_cr(cur: &Vec<char>) -> (r: bool)
    ensures
        r == (cur@.len() > 0 && cur@.last() == '\r'),
{
    cur.len() > 0 && cur[cur.len() - 1] == '\r'
}

/// The words found so far in `s` and the word under way.
pub open spec fn words_state(s: Seq<char>) -> (Seq<Seq<char>>, Seq<char>)
    decreases s.len(),
{
    if s.len() == 0 {
        (Seq::empty(), Seq::empty())
    } else {
        let (w, cur) = words_state(s.drop_last());
        if is_ws(s.last()) {
            if cur.len() > 0 {
                (w.push(cur), Seq::empty())
            } else {
                (w, Seq::empty())
            }
        } else {
            (w, cur.push(s.last()))
        }
    }
}

/// `str::split_whitespace`: the maximal runs of non-whitespace characters,
/// in order.
pub open spec fn words(s: Seq<char>) -> Seq<Seq<char>> {
    let (w, cur) = words_state(s);
    if cur.len() > 0 {
        w.push(cur)
    } else {
        w
    }
}

/// `str::split_whitespace`, as owned strings.
pub fn words_of(s: &str) -> (r: Vec<String>)
    ensures
        text_views(r@) == words(s@),
{
    let v = chars_of(s);
    let n = v.len();
    let mut done: Vec<String> = Vec::new();
    let mut cur: Vec<char> = Vec::new();
    for i in 0..n
        invariant
            n == v@.len(),
            v@ == s@,
            text_views(done@) == words_state(v@.take(i as int)).0,
            cur@ == words_state(v@.take(i as int)).1,
    {
        let c = v[i];
        assert(v@.take(i + 1).drop_last() =~= v@.take(i as int));
        if char_is_ws(c) {
            if cur.len() > 0 {
                let w = string_from_chars(cur.as_slice());
                let ghost before = text_views(done@);
                done.push(w);
                assert(text_views(done@) =~= before.push(cur@));
                cur = Vec::new();
            } else {
                cur = Vec::new();
            }
        } else {
            cur.push(c);
        }
    }
    assert(v@.take(n as int) =~= v@);
    if cur.len() > 0 {
        let w = string_from_chars(cur.as_slice());
        let ghost before = text_views(done@);
        done.push(w);
        assert(text_views(done@) =~= before.push(cur@));
    }
    done
}

/// `s.split(':').nth(1)`: the text between the first colon and the next one
/// (or the end), when `s` has a colon.
pub open spec fn after_first_colon(s: Seq<char>) -> Option<Seq<char>> {
    if split_on(s, ':').len() >= 2 {
        Some(split_on(s, ':')[1])
    } else {
        None
    }
}

/// `s.split(':').nth(1)`, as an owned string.
pub fn field_after_colon(s: &str) -> (r: Option<String>)
    ensures
        match r {
            Some(f) => after_first_colon(s@) == Some(f@),
            None => after_first_colon(s@) is None,
        },
{
    let v = chars_of(s);
    let n = v.len();
    let mut seen: usize = 0;
    let mut field: Vec<char> = Vec::new();
    for i in 0..n
        invariant
            n == v@.len(),
            v@ == s@,
            seen <= 2,
            seen == (if split_on(v@.take(i as int), ':').len() >= 3 { 2 } else { split_on(v@.take(i as int), ':').len() - 1 }),
            seen >= 1 ==> field@ == split_on(v@.take(i as int), ':')[1],
            seen == 0 ==> field@.len() == 0,
    {
        let c = v[i];
        assert(v@.take(i + 1).drop_last() =~= v@.take(i as int));
        proof {
            lemma_split_on_nonempty(v@.take(i as int), ':');
        }
        if c == ':' {
            if seen < 2 {
                seen = seen + 1;
            }
        } else if seen == 1 {
            field.push(c);
        }
    }
    assert(v@.take(n as int) =~= v@);
    proof {
        lemma_split_on_nonempty(v@, ':');
    }
    if seen >= 1 {
        Some(string_from_chars(field.as_slice()))
    } else {
        None
    }
}

/// `str::split` on one character, as owned strings.
pub fn pieces_of(s: &str, sep: char) -> (r: Vec<String>)
    ensures
        text_views(r@) == split_on(s@, sep),
{
    let v = chars_of(s);
    let n = v.len();
    let mut done: Vec<String> = Vec::new();
    let mut cur: Vec<char> = Vec::new();
    for i in 0..n
        invariant
            n == v@.len(),
            v@ == s@,
            split_on(v@.take(i as int), sep).len() == done@.len() + 1,
            forall|k: int| 0 <= k < done@.len() ==> #[trigger] done@[k]@ == split_on(v@.take(i as int), sep)[k],
            cur@ == split_on(v@.take(i as int), sep).last(),
    {
        let c = v[i];
        assert(v@.take(i + 1).drop_last() =~= v@.take(i as int));
        proof {
            lemma_split_on_nonempty(v@.take(i as int), sep);
        }
        if c == sep {
            done.push(string_from_chars(cur.as_slice()));
            cur = Vec::new();
        } else {
            cur.push(c);
        }
    }
    assert(v@.take(n as int) =~= v@);
    proof {
        lemma_split_on_nonempty(v@, sep);
    }
    done.push(string_from_chars(cur.as_slice()));
    assert(text_views(done@) =~= split_on(s@, sep));
    done
}

/// The pieces of `s` between occurrences of `sep`, each trimmed.
pub open spec fn trimmed_pieces(s: Seq<char>, sep: char) -> Seq<Seq<char>> {
    Seq::new(split_on(s, sep).len(), |i: int| trim(split_on(s, sep)[i]))
}

/// `s.split(sep).map(str::trim)`, as owned strings.
pub fn split_trimmed(s: &str, sep: char) -> (r: Vec<String>)
    ensures
        text_views(r@) == trimmed_pieces(s@, sep),
{
    let ps = pieces_of(s, sep);
    let mut out: Vec<String> = Vec::new();
    let n = ps.len();
    for i in 0..n
        invariant
            n == ps@.len(),
            text_views(ps@) == split_on(s@, sep),
            out@.len() == i,
            forall|k: int| 0 <= k < i ==> #[trigger] out@[k]@ == trim(split_on(s@, sep)[k]),
    {
        assert(text_views(ps@)[i as int] == ps@[i as int]@);
        out.push(trim_str(ps[i].as_str()));
    }
    assert(text_views(out@) =~= trimmed_pieces(s@, sep));
    out
}

/// `str::find`: the first position from `k` on at which `needle` occurs.
pub open spec fn find_from(hay: Seq<char>, needle: Seq<char>, k: int) -> Option<int>
    decreases hay.len() + 1 - k,
{
    if k < 0 || k + needle.len() > hay.len() {
        None
    } else if occurs_at(hay, needle, k) {
        Some(k)
    } else {
        find_from(hay, needle, k + 1)
    }
}

/// `str::find`: the first position at which `needle` occurs in `hay`.
pub open spec fn find_in(hay: Seq<char>, needle: Seq<char>) -> Option<int> {
    find_from(hay, needle, 0)
}

/// A position that `find_in` gives is an occurrence, the first one.
pub proof fn lemma_find_in(hay: Seq<char>, needle: Seq<char>)
    ensures
        match find_in(hay, needle) {
            Some(i) => occurs_at(hay, needle, i) && forall|j: int| 0 <= j < i ==> !occurs_at(hay, needle, j),
            None => forall|j: int| 0 <= j ==> !occurs_at(hay, needle, j),
        },
{
    lemma_find_from(hay, needle, 0);
}

proof fn lemma_find_from(hay: Seq<char>, needle: Seq<char>, k: int)
    requires
        0 <= k,
        forall|j: int| 0 <= j < k ==> !occurs_at(hay, needle, j),
    ensures
        match find_from(hay, needle, k) {
            Some(i) => occurs_at(hay, needle, i) && forall|j: int| 0 <= j < i ==> !occurs_at(hay, needle, j),
            None => forall|j: int| 0 <= j ==> !occurs_at(hay, needle, j),
        },
    decreases hay.len() + 1 - k,
{
    if k + needle.len() > hay.len() {
    } else if occurs_at(hay, needle, k) {
    } else {
        lemma_find_from(hay, needle, k + 1);
    }
}

/// `str::find` on strings, as a position among the characters.
pub fn find_str(hay: &str, needle: &str) -> (r: Option<usize>)
    ensures
        match r {
            Some(i) => find_in(hay@, needle@) == Some(i as int) && occurs_at(hay@, needle@, i as int),
            None => find_in(hay@, needle@) is None,
        },
{
    let h = chars_of(hay);
    let n = chars_of(needle);
    let r = find_chars(h.as_slice(), n.as_slice());
    proof {
        lemma_find_from(hay@, needle@, 0);
        match find_in(hay@, needle@) {
            Some(i) => {
                match r {
                    Some(j) => {
                        if i < j {
                            assert(!occurs_at(hay@, needle@, i));
                        } else if j < i {
                            assert(!occurs_at(hay@, needle@, j as int));
                        }
                    },
                    None => {
                        assert(occurs_at(hay@, needle@, i));
                    },
                }
            },
            None => {
                match r {
                    Some(j) => {
                        assert(!occurs_at(hay@, needle@, j as int));
                    },
                    None => {},
                }
            },
        }
    }
    r
}

} // verus!
