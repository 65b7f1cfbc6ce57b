//! Text as sequences of characters: the small vocabulary in which the other modules state
//! what they read and what they print.
use vstd::prelude::*;

verus! {

/// Appends one character to the end of a string.
pub assume_specification[ String::push ](s: &mut String, c: char)
    ensures
        final(s)@ == old(s)@.push(c),
;

/// The characters with the Unicode property White_Space.
pub open spec fn white_space(c: char) -> bool {
    ||| '\u{9}' <= c <= '\u{d}'
    ||| c == ' '
    ||| c == '\u{85}'
    ||| c == '\u{a0}'
    ||| c == '\u{1680}'
    ||| '\u{2000}' <= c <= '\u{200a}'
    ||| c == '\u{2028}'
    ||| c == '\u{2029}'
    ||| c == '\u{202f}'
    ||| c == '\u{205f}'
    ||| c == '\u{3000}'
}

/// The characters of the Unicode category Cc.
pub open spec fn control_char(c: char) -> bool {
    c <= '\u{1f}' || '\u{7f}' <= c <= '\u{9f}'
}

pub open spec fn ascii_lower(c: char) -> bool {
    'a' <= c <= 'z'
}

pub open spec fn ascii_upper(c: char) -> bool {
    'A' <= c <= 'Z'
}

pub open spec fn ascii_digit(c: char) -> bool {
    '0' <= c <= '9'
}

pub open spec fn lower(c: char) -> char {
    if ascii_upper(c) {
        (c as u32 + 32) as char
    } else {
        c
    }
}

/// The text with every ASCII capital replaced by its small letter.
pub open spec fn lowercase(s: Seq<char>) -> Seq<char> {
    s.map_values(|c: char| lower(c))
}

/// The views of a sequence of strings.
pub open spec fn views(v: Seq<String>) -> Seq<Seq<char>> {
    v.map_values(|s: String| s@)
}

/// The view of an optional string.
pub open spec fn opt_view(o: Option<String>) -> Option<Seq<char>> {
    match o {
        Some(s) => Some(s@),
        None => None,
    }
}

pub open spec fn trim_start_of(s: Seq<char>) -> Seq<char>
    decreases s.len(),
{
    if s.len() > 0 && white_space(s[0]) {
        trim_start_of(s.skip(1))
    } else {
        s
    }
}

pub open spec fn trim_end_of(s: Seq<char>) -> Seq<char>
    decreases s.len(),
{
    if s.len() > 0 && white_space(s.last()) {
        trim_end_of(s.drop_last())
    } else {
        s
    }
}

/// The text without the white space around it.
pub open spec fn trimmed(s: Seq<char>) -> Seq<char> {
    trim_end_of(trim_start_of(s))
}

/// The pieces of a text between the occurrences of a separator; one more piece than there
/// are separators.
pub open spec fn split_on(s: Seq<char>, sep: char) -> Seq<Seq<char>>
    decreases s.len(),
{
    if s.len() == 0 {
        seq![Seq::<char>::empty()]
    } else {
        let before = split_on(s.drop_last(), sep);
        if s.last() == sep {
            before.push(Seq::<char>::empty())
        } else {
            before.drop_last().push(before.last().push(s.last()))
        }
    }
}

/// The pieces put together with a separator between neighbours.
pub open spec fn join_with(pieces: Seq<Seq<char>>, sep: Seq<char>) -> Seq<char>
    decreases pieces.len(),
{
    if pieces.len() == 0 {
        Seq::<char>::empty()
    } else if pieces.len() == 1 {
        pieces[0]
    } else {
        join_with(pieces.drop_last(), sep) + sep + pieces.last()
    }
}

/// A line without the carriage return that stood before its line feed.
pub open spec fn without_cr(s: Seq<char>) -> Seq<char> {
    if s.len() > 0 && s.last() == '\r' {
        s.drop_last()
    } else {
        s
    }
}

/// The lines of a text: the pieces that end in a line feed, without it and without a carriage
/// return before it, and what follows the last line feed where that is not empty.
pub open spec fn lines_of(s: Seq<char>) -> Seq<Seq<char>> {
    let pieces = split_on(s, '\n');
    let ended = pieces.drop_last().map_values(|p: Seq<char>| without_cr(p));
    if pieces.last().len() == 0 {
        ended
    } else {
        ended.push(pieces.last())
    }
}

pub open spec fn starts_with(s: Seq<char>, prefix: Seq<char>) -> bool {
    s.len() >= prefix.len() && s.take(prefix.len() as int) == prefix
}

pub open spec fn ends_with(s: Seq<char>, suffix: Seq<char>) -> bool {
    s.len() >= suffix.len() && s.skip(s.len() - suffix.len()) == suffix
}

/// Whether `needle` stands in `s` at position `i`.
pub open spec fn occurs_at(s: Seq<char>, needle: Seq<char>, i: int) -> bool {
    0 <= i && i + needle.len() <= s.len() && s.subrange(i, i + needle.len()) == needle
}

pub open spec fn contains_text(s: Seq<char>, needle: Seq<char>) -> bool {
    exists|i: int| occurs_at(s, needle, i)
}

/// The decimal digits of a natural number.
pub open spec fn decimal_of(n: nat) -> Seq<char>
    decreases n,
{
    if n < 10 {
        seq![('0' as u32 + n) as char]
    } else {
        decimal_of(n / 10).push(('0' as u32 + n % 10) as char)
    }
}

/// The decimal notation of an integer, with a minus sign where it is negative.
pub open spec fn decimal_int(n: int) -> Seq<char> {
    if n < 0 {
        seq!['-'] + decimal_of((-n) as nat)
    } else {
        decimal_of(n as nat)
    }
}

/// A number below a hundred, written with two digits.
pub open spec fn two_digits(n: nat) -> Seq<char> {
    if n < 10 {
        "0"@ + decimal_of(n)
    } else {
        decimal_of(n)
    }
}

/// The index of the first `c`, or the length where there is none.
pub open spec fn first_index(s: Seq<char>, c: char) -> int
    decreases s.len(),
{
    if s.len() == 0 || s[0] == c {
        0
    } else {
        1 + first_index(s.skip(1), c)
    }
}

/// Character by character order; the order of the UTF-8 encodings is the same.
pub open spec fn text_less(a: Seq<char>, b: Seq<char>) -> bool
    decreases a.len(),
{
    if b.len() == 0 {
        false
    } else if a.len() == 0 {
        true
    } else if a[0] == b[0] {
        text_less(a.skip(1), b.skip(1))
    } else {
        a[0] < b[0]
    }
}

/// The number of bytes of a character in UTF-8.
pub open spec fn utf8_width(c: char) -> nat {
    if c <= '\u{7f}' {
        1
    } else if c <= '\u{7ff}' {
        2
    } else if c <= '\u{ffff}' {
        3
    } else {
        4
    }
}

/// The number of bytes of a text in UTF-8.
pub open spec fn utf8_size(s: Seq<char>) -> nat
    decreases s.len(),
{
    if s.len() == 0 {
        0
    } else {
        utf8_size(s.drop_last()) + utf8_width(s.last())
    }
}

pub fn is_white_space(c: char) -> (r: bool)
    ensures
        r == white_space(c),
{
    ('\u{9}' <= c && c <= '\u{d}') || c == ' ' || c == '\u{85}' || c == '\u{a0}' || c == '\u{1680}'
        || ('\u{2000}' <= c && c <= '\u{200a}') || c == '\u{2028}' || c == '\u{2029}' || c
        == '\u{202f}' || c == '\u{205f}' || c == '\u{3000}'
}

pub fn is_control_char(c: char) -> (r: bool)
    ensures
        r == control_char(c),
{
    c <= '\u{1f}' || ('\u{7f}' <= c && c <= '\u{9f}')
}

/// The characters of a string, one by one.
pub fn chars_of(s: &str) -> (r: Vec<char>)
    ensures
        r@ == s@,
{
    let mut r: Vec<char> = Vec::new();
    for c in it: s.chars()
        invariant
            it.seq() == s@,
            r@ == it.seq().take(it.index() as int),
    {
        r.push(c);
    }
    proof {
        assert(s@.take(s@.len() as int) == s@);
    }
    r
}

/// The string made of the characters from `from` up to `to`.
pub fn string_between(chars: &Vec<char>, from: usize, to: usize) -> (r: String)
    requires
        from <= to <= chars@.len(),
    ensures
        r@ == chars@.subrange(from as int, to as int),
{
    let mut r = String::new();
    let mut i: usize = from;
    while i < to
        invariant
            from <= i <= to <= chars@.len(),
            r@ == chars@.subrange(from as int, i as int),
        decreases to - i,
    {
        r.push(chars[i]);
        i += 1;
        assert(chars@.subrange(from as int, i as int) == chars@.subrange(
            from as int,
            i - 1,
        ).push(chars@[i - 1]));
    }
    r
}

/// Whether two texts are the same.
pub fn same(a: &str, b: &str) -> (r: bool)
    ensures
        r == (a@ == b@),
{
    a.to_owned() == b.to_owned()
}

pub fn copy_opt(o: &Option<String>) -> (r: Option<String>)
    ensures
        r == *o,
{
    match o {
        Some(s) => Some(s.clone()),
        None => None,
    }
}

pub fn trim_start(s: &str) -> (r: &str)
    ensures
        r@ == trim_start_of(s@),
{
    let chars = chars_of(s);
    let mut from: usize = 0;
    assert(s@.skip(0) == s@);
    while from < chars.len() && is_white_space(chars[from])
        invariant
            from <= chars@.len(),
            chars@ == s@,
            trim_start_of(s@) == trim_start_of(s@.skip(from as int)),
        decreases chars@.len() - from,
    {
        assert(s@.skip(from as int).skip(1) == s@.skip(from + 1));
        from += 1;
    }
    assert(s@.skip(from as int) == s@.subrange(from as int, s@.len() as int));
    s.substring_char(from, chars.len())
}

pub fn trim_end(s: &str) -> (r: &str)
    ensures
        r@ == trim_end_of(s@),
{
    let chars = chars_of(s);
    let mut to: usize = chars.len();
    assert(s@.take(to as int) == s@);
    while to > 0 && is_white_space(chars[to - 1])
        invariant
            to <= chars@.len(),
            chars@ == s@,
            trim_end_of(s@) == trim_end_of(s@.take(to as int)),
        decreases to,
    {
        assert(s@.take(to as int).drop_last() == s@.take(to - 1));
        to -= 1;
    }
    assert(s@.take(to as int) == s@.subrange(0, to as int));
    s.substring_char(0, to)
}

/// The text without the white space around it.
pub fn trim(s: &str) -> (r: &str)
    ensures
        r@ == trimmed(s@),
{
    trim_end(trim_start(s))
}

/// The pieces of a text between the occurrences of a separator.
pub fn split(s: &str, sep: char) -> (r: Vec<String>)
    ensures
        views(r@) == split_on(s@, sep),
        r@.len() > 0,
{
    let chars = chars_of(s);
    let mut pieces: Vec<String> = Vec::new();
    let mut current = String::new();
    let mut i: usize = 0;
    assert(s@.take(0) == Seq::<char>::empty());
    assert(views(pieces@).push(current@) == split_on(s@.take(0), sep));
    while i < chars.len()
        invariant
            i <= chars@.len(),
            chars@ == s@,
            views(pieces@).push(current@) == split_on(s@.take(i as int), sep),
        decreases chars@.len() - i,
    {
        let ghost before = views(pieces@).push(current@);
        let ghost next = s@.take(i + 1);
        assert(next.drop_last() == s@.take(i as int));
        assert(before.drop_last() == views(pieces@));
        if chars[i] == sep {
            pieces.push(current);
            current = String::new();
            assert(views(pieces@) == before);
        } else {
            current.push(chars[i]);
        }
        i += 1;
    }
    let ghost all = views(pieces@).push(current@);
    pieces.push(current);
    assert(views(pieces@) == all);
    assert(s@.take(s@.len() as int) == s@);
    pieces
}

pub proof fn split_on_nonempty(s: Seq<char>, sep: char)
    ensures
        split_on(s, sep).len() > 0,
    decreases s.len(),
{
    if s.len() > 0 {
        split_on_nonempty(s.drop_last(), sep);
    }
}

/// The lines of a text.
pub fn lines(s: &str) -> (r: Vec<String>)
    ensures
        views(r@) == lines_of(s@),
{
    let pieces = split(s, '\n');
    let ghost all = split_on(s@, '\n');
    let last: usize = pieces.len() - 1;
    let mut r: Vec<String> = Vec::new();
    let mut i: usize = 0;
    while i < last
        invariant
            i <= last,
            last == pieces@.len() - 1,
            views(pieces@) == all,
            views(r@) == all.take(i as int).map_values(|p: Seq<char>| without_cr(p)),
        decreases last - i,
    {
        let ghost before = views(r@);
        let piece = strip_cr(&pieces[i]);
        assert(views(pieces@)[i as int] == pieces@[i as int]@);
        assert(piece@ == without_cr(all[i as int]));
        r.push(piece);
        assert(views(r@) == before.push(without_cr(all[i as int])));
        assert(all.take(i + 1) == all.take(i as int).push(all[i as int]));
        i += 1;
        assert(views(r@) == all.take(i as int).map_values(|p: Seq<char>| without_cr(p)));
    }
    assert(all.take(last as int) == all.drop_last());
    assert(all.last() == pieces@[last as int]@);
    let ghost ended = views(r@);
    if !pieces[last].as_str().is_empty() {
        r.push(pieces[last].clone());
        assert(views(r@) == ended.push(all.last()));
    }
    r
}

fn strip_cr(s: &String) -> (r: String)
    ensures
        r@ == without_cr(s@),
{
    let chars = chars_of(s);
    if chars.len() > 0 && chars[chars.len() - 1] == '\r' {
        let r = string_between(&chars, 0, chars.len() - 1);
        assert(r@ == s@.drop_last());
        r
    } else {
        s.clone()
    }
}

/// The pieces put together with a separator between neighbours.
pub fn join(pieces: &Vec<String>, sep: &str) -> (r: String)
    ensures
        r@ == join_with(views(pieces@), sep@),
{
    if pieces.len() == 0 {
        return String::new();
    }
    let ghost all = views(pieces@);
    let mut r = pieces[0].clone();
    let mut i: usize = 1;
    assert(all.take(1)[0] == r@);
    while i < pieces.len()
        invariant
            1 <= i <= pieces@.len(),
            all == views(pieces@),
            r@ == join_with(all.take(i as int), sep@),
        decreases pieces@.len() - i,
    {
        r.append(sep);
        r.append(&pieces[i]);
        assert(all.take(i + 1).drop_last() == all.take(i as int));
        assert(all.take(i + 1).last() == pieces@[i as int]@);
        i += 1;
    }
    assert(all.take(all.len() as int) == all);
    r
}

pub fn has_prefix(s: &str, prefix: &str) -> (r: bool)
    ensures
        r == starts_with(s@, prefix@),
{
    let n = prefix.unicode_len();
    if s.unicode_len() < n {
        return false;
    }
    assert(s@.take(n as int) == s@.subrange(0, n as int));
    same(s.substring_char(0, n), prefix)
}

pub fn has_suffix(s: &str, suffix: &str) -> (r: bool)
    ensures
        r == ends_with(s@, suffix@),
{
    let n = suffix.unicode_len();
    let len = s.unicode_len();
    if len < n {
        return false;
    }
    assert(s@.skip(len - n) == s@.subrange(len - n, len as int));
    same(s.substring_char(len - n, len), suffix)
}

/// Whether `needle` stands anywhere in `s`.
pub fn has_text(s: &str, needle: &str) -> (r: bool)
    ensures
        r == contains_text(s@, needle@),
{
    let n = needle.unicode_len();
    let len = s.unicode_len();
    if len < n {
        return false;
    }
    let mut i: usize = 0;
    while i <= len - n
        invariant
            n == needle@.len(),
            len == s@.len(),
            n <= len,
            i <= len - n + 1,
            forall|j: int| 0 <= j < i ==> !#[trigger] occurs_at(s@, needle@, j),
        decreases len - n + 1 - i,
    {
        if same(s.substring_char(i, i + n), needle) {
            assert(occurs_at(s@, needle@, i as int));
            return true;
        }
        assert(!occurs_at(s@, needle@, i as int));
        if i == len - n {
            assert forall|j: int| !#[trigger] occurs_at(s@, needle@, j) by {}
            return false;
        }
        i += 1;
    }
    assert forall|j: int| !#[trigger] occurs_at(s@, needle@, j) by {}
    false
}

/// The decimal notation of a number.
pub fn decimal_u64(n: u64) -> (r: String)
    ensures
        r@ == decimal_of(n as nat),
    decreases n,
{
    if n < 10 {
        let mut r = String::new();
        r.push(digit(n));
        assert(r@ == decimal_of(n as nat));
        r
    } else {
        let mut r = decimal_u64(n / 10);
        r.push(digit(n % 10));
        r
    }
}

fn digit(n: u64) -> (r: char)
    requires
        n < 10,
    ensures
        r == ('0' as u32 + n) as char,
{
    ('0' as u8 + n as u8) as char
}

/// The decimal notation of a number, with a minus sign where it is negative.
pub fn decimal_i64(n: i64) -> (r: String)
    ensures
        r@ == decimal_int(n as int),
{
    if n < 0 {
        let magnitude: u64 = (-(n as i128)) as u64;
        let digits = decimal_u64(magnitude);
        let mut r = String::new();
        r.push('-');
        assert(r@ == seq!['-']);
        r.append(&digits);
        r
    } else {
        decimal_u64(n as u64)
    }
}

/// A number with at least two digits.
pub fn two_digit_text(n: u64) -> (r: String)
    ensures
        r@ == two_digits(n as nat),
{
    let digits = decimal_u64(n);
    if n < 10 {
        let mut r = "0".to_owned();
        r.append(&digits);
        r
    } else {
        digits
    }
}

/// The two parts of a text around the first `c`.
pub fn split_once(s: &str, c: char) -> (r: Option<(&str, &str)>)
    ensures
        match r {
            Some((before, after)) => first_index(s@, c) < s@.len() && before@ == s@.take(
                first_index(s@, c),
            ) && after@ == s@.skip(first_index(s@, c) + 1),
            None => first_index(s@, c) == s@.len(),
        },
{
    let chars = chars_of(s);
    let mut i: usize = 0;
    assert(s@.skip(0) == s@);
    while i < chars.len()
        invariant
            chars@ == s@,
            i <= chars@.len(),
            first_index(s@, c) == i + first_index(s@.skip(i as int), c),
        decreases chars.len() - i,
    {
        assert(s@.skip(i as int)[0] == s@[i as int]);
        assert(s@.skip(i as int).skip(1) == s@.skip(i + 1));
        if chars[i] == c {
            assert(s@.take(i as int) == s@.subrange(0, i as int));
            assert(s@.skip(i + 1) == s@.subrange(i + 1, s@.len() as int));
            return Some((s.substring_char(0, i), s.substring_char(i + 1, chars.len())));
        }
        i += 1;
    }
    None
}

/// Whether `a` comes before `b`.
pub fn is_less(a: &str, b: &str) -> (r: bool)
    ensures
        r == text_less(a@, b@),
{
    let x = chars_of(a);
    let y = chars_of(b);
    let mut i: usize = 0;
    assert(a@.skip(0) == a@ && b@.skip(0) == b@);
    while i < x.len() && i < y.len() && x[i] == y[i]
        invariant
            x@ == a@,
            y@ == b@,
            i <= x@.len(),
            i <= y@.len(),
            text_less(a@, b@) == text_less(a@.skip(i as int), b@.skip(i as int)),
        decreases x@.len() - i,
    {
        assert(a@.skip(i as int).skip(1) == a@.skip(i + 1));
        assert(b@.skip(i as int).skip(1) == b@.skip(i + 1));
        i += 1;
    }
    if i == y.len() {
        false
    } else if i == x.len() {
        true
    } else {
        x[i] < y[i]
    }
}

/// The text with every ASCII capital replaced by its small letter.
pub fn to_lowercase(s: &str) -> (r: String)
    ensures
        r@ == lowercase(s@),
{
    let chars = chars_of(s);
    let mut r = String::new();
    let mut i: usize = 0;
    while i < chars.len()
        invariant
            i <= chars@.len(),
            chars@ == s@,
            r@ == lowercase(s@.take(i as int)),
        decreases chars@.len() - i,
    {
        let c = chars[i];
        let l = to_lower(c);
        let ghost before = r@;
        r.push(l);
        assert(s@.take(i + 1) == s@.take(i as int).push(c));
        i += 1;
        assert(r@ == lowercase(s@.take(i as int)));
    }
    assert(s@.take(s@.len() as int) == s@);
    r
}

pub fn to_lower(c: char) -> (r: char)
    ensures
        r == lower(c),
{
    if 'A' <= c && c <= 'Z' {
        (c as u8 + 32) as char
    } else {
        c
    }
}

/// The number of bytes of a character in UTF-8.
pub fn width(c: char) -> (r: usize)
    ensures
        r == utf8_width(c),
{
    if c <= '\u{7f}' {
        1
    } else if c <= '\u{7ff}' {
        2
    } else if c <= '\u{ffff}' {
        3
    } else {
        4
    }
}

/// Adding characters never makes a text smaller.
pub proof fn utf8_size_monotone(s: Seq<char>, n: int)
    requires
        0 <= n <= s.len(),
    ensures
        utf8_size(s.take(n)) <= utf8_size(s),
    decreases s.len() - n,
{
    if n < s.len() {
        assert(s.take(n + 1).drop_last() == s.take(n));
        utf8_size_monotone(s, n + 1);
    } else {
        assert(s.take(n) == s);
    }
}

/// Whether a text takes at most `limit` bytes in UTF-8.
pub fn size_at_most(s: &str, limit: usize) -> (r: bool)
    requires
        limit <= usize::MAX - 4,
    ensures
        r == (utf8_size(s@) <= limit),
{
    let chars = chars_of(s);
    let mut size: usize = 0;
    let mut i: usize = 0;
    while i < chars.len()
        invariant
            i <= chars@.len(),
            chars@ == s@,
            limit <= usize::MAX - 4,
            size <= limit,
            size == utf8_size(s@.take(i as int)),
        decreases chars@.len() - i,
    {
        assert(s@.take(i + 1).drop_last() == s@.take(i as int));
        size = size + width(chars[i]);
        i += 1;
        if size > limit {
            proof {
                utf8_size_monotone(s@, i as int);
            }
            return false;
        }
    }
    assert(s@.take(s@.len() as int) == s@);
    true
}

/// Whether a character stands in a text.
pub fn has_char(s: &str, c: char) -> (r: bool)
    ensures
        r == s@.contains(c),
{
    let chars = chars_of(s);
    let mut i: usize = 0;
    while i < chars.len()
        invariant
            i <= chars@.len(),
            chars@ == s@,
            forall|j: int| 0 <= j < i ==> s@[j] != c,
        decreases chars@.len() - i,
    {
        if chars[i] == c {
            assert(s@[i as int] == c);
            return true;
        }
        i += 1;
    }
    false
}

proof fn trim_end_fixed(s: Seq<char>)
    ensures
        trim_end_of(s).len() == 0 || !white_space(trim_end_of(s).last()),
        trim_end_of(s).len() <= s.len(),
        trim_end_of(s) == s.take(trim_end_of(s).len() as int),
    decreases s.len(),
{
    if s.len() > 0 && white_space(s.last()) {
        trim_end_fixed(s.drop_last());
        let t = trim_end_of(s.drop_last());
        assert(s.drop_last().take(t.len() as int) == s.take(t.len() as int));
    } else {
        assert(s.take(s.len() as int) == s);
    }
}

proof fn trim_start_fixed(s: Seq<char>)
    ensures
        trim_start_of(s).len() == 0 || !white_space(trim_start_of(s)[0]),
    decreases s.len(),
{
    if s.len() > 0 && white_space(s[0]) {
        trim_start_fixed(s.skip(1));
    }
}

/// Trimming a trimmed text changes nothing.
pub proof fn trim_is_idempotent(s: Seq<char>)
    ensures
        trimmed(trimmed(s)) == trimmed(s),
{
    trim_start_fixed(s);
    trim_end_fixed(trim_start_of(s));
    let t = trimmed(s);
    assert(trim_start_of(t) == t);
    assert(trim_end_of(t) == t);
}

/// Putting the pieces of a text together again gives the text.
pub proof fn join_undoes_split(s: Seq<char>, sep: char)
    ensures
        join_with(split_on(s, sep), seq![sep]) == s,
        split_on(s, sep).len() > 0,
    decreases s.len(),
{
    if s.len() == 0 {
        assert(split_on(s, sep)[0] == s);
    } else {
        let shorter = s.drop_last();
        join_undoes_split(shorter, sep);
        let before = split_on(shorter, sep);
        let pieces = split_on(s, sep);
        if s.last() == sep {
            assert(pieces.drop_last() == before);
            assert(join_with(pieces, seq![sep]) == join_with(before, seq![sep]) + seq![sep]
                + Seq::<char>::empty());
            assert(join_with(pieces, seq![sep]) == s);
        } else {
            assert(pieces.drop_last() == before.drop_last());
            if before.len() == 1 {
                assert(pieces[0] == before[0].push(s.last()));
                assert(shorter == before[0]);
                assert(pieces[0] == s);
            } else {
                let front = join_with(before.drop_last(), seq![sep]) + seq![sep];
                assert(pieces.last() == before.last().push(s.last()));
                assert(join_with(pieces, seq![sep]) == front + pieces.last());
                assert(shorter == front + before.last());
                assert(front + before.last().push(s.last()) == (front + before.last()).push(
                    s.last(),
                ));
                assert(shorter.push(s.last()) == s);
            }
        }
    }
}

/// Of two different texts one comes before the other.
pub proof fn text_order_is_total(a: Seq<char>, b: Seq<char>)
    ensures
        a == b || text_less(a, b) || text_less(b, a),
    decreases a.len(),
{
    if a.len() > 0 && b.len() > 0 && a[0] == b[0] {
        text_order_is_total(a.skip(1), b.skip(1));
        if a.skip(1) == b.skip(1) {
            assert(a == seq![a[0]] + a.skip(1));
            assert(b == seq![b[0]] + b.skip(1));
        }
    } else if a.len() == 0 && b.len() == 0 {
        assert(a == b);
    }
}

/// The order of texts is transitive.
pub proof fn text_order_is_transitive(a: Seq<char>, b: Seq<char>, c: Seq<char>)
    requires
        text_less(a, b),
        text_less(b, c),
    ensures
        text_less(a, c),
    decreases a.len(),
{
    if a.len() > 0 && a[0] == b[0] && b[0] == c[0] {
        text_order_is_transitive(a.skip(1), b.skip(1), c.skip(1));
    }
}

/// No text comes before itself, nor do two texts come before each other.
pub proof fn text_order_is_strict(a: Seq<char>, b: Seq<char>)
    ensures
        !(text_less(a, b) && text_less(b, a)),
    decreases a.len(),
{
    if a.len() > 0 && b.len() > 0 && a[0] == b[0] {
        text_order_is_strict(a.skip(1), b.skip(1));
    }
}

/// Text without the separator only lengthens the last piece.
pub proof fn split_of_longer(a: Seq<char>, b: Seq<char>, sep: char)
    requires
        !b.contains(sep),
    ensures
        split_on(a, sep).len() > 0,
        split_on(a + b, sep) == split_on(a, sep).drop_last().push(split_on(a, sep).last() + b),
    decreases b.len(),
{
    split_on_nonempty(a, sep);
    let pieces = split_on(a, sep);
    if b.len() == 0 {
        assert(a + b == a);
        assert(pieces.last() + b == pieces.last());
        assert(pieces.drop_last().push(pieces.last()) == pieces);
    } else {
        let shorter = b.drop_last();
        assert(forall|i: int| 0 <= i < shorter.len() ==> shorter[i] == b[i]);
        split_of_longer(a, shorter, sep);
        assert((a + b).drop_last() == a + shorter);
        assert((a + b).last() == b.last());
        assert(b[b.len() - 1] != sep);
        let before = split_on(a + shorter, sep);
        assert(before.drop_last() == pieces.drop_last());
        assert(before.last().push(b.last()) == pieces.last() + b);
    }
}

/// Lines, each ended by a line feed.
pub open spec fn terminated(lines: Seq<Seq<char>>) -> Seq<char>
    decreases lines.len(),
{
    if lines.len() == 0 {
        Seq::<char>::empty()
    } else {
        (terminated(lines.drop_last()) + lines.last()).push('\n')
    }
}

/// Splitting ended lines gives the lines, and nothing after the last.
pub proof fn split_of_terminated(lines: Seq<Seq<char>>)
    requires
        forall|i: int| 0 <= i < lines.len() ==> !(#[trigger] lines[i]).contains('\n'),
    ensures
        split_on(terminated(lines), '\n') == lines.push(Seq::<char>::empty()),
    decreases lines.len(),
{
    if lines.len() == 0 {
        assert(split_on(terminated(lines), '\n') == lines.push(Seq::<char>::empty()));
    } else {
        let front = lines.drop_last();
        assert(forall|i: int| 0 <= i < front.len() ==> front[i] == lines[i]);
        split_of_terminated(front);
        assert(!lines[lines.len() - 1].contains('\n'));
        split_of_longer(terminated(front), lines.last(), '\n');
        let pieces = split_on(terminated(front), '\n');
        assert(pieces.drop_last() == front);
        assert(Seq::<char>::empty() + lines.last() == lines.last());
        let all = terminated(lines);
        assert(all.drop_last() == terminated(front) + lines.last());
        assert(front.push(lines.last()) == lines);
    }
}

/// Lines joined and ended are lines, each ended.
pub proof fn joined_lines_are_terminated(lines: Seq<Seq<char>>)
    requires
        lines.len() > 0,
    ensures
        join_with(lines, seq!['\n']).push('\n') == terminated(lines),
    decreases lines.len(),
{
    if lines.len() == 1 {
        assert(lines.drop_last() == Seq::<Seq<char>>::empty());
        assert(terminated(lines.drop_last()) == Seq::<char>::empty());
        assert(Seq::<char>::empty() + lines[0] == lines[0]);
    } else {
        joined_lines_are_terminated(lines.drop_last());
        let front = join_with(lines.drop_last(), seq!['\n']);
        assert(front + seq!['\n'] == front.push('\n'));
    }
}

/// The pieces of a text do not hold the separator.
pub proof fn pieces_hold_no_separator(s: Seq<char>, sep: char)
    ensures
        forall|i: int| 0 <= i < split_on(s, sep).len() ==> !(#[trigger] split_on(s, sep)[i]).contains(sep),
        split_on(s, sep).len() > 0,
    decreases s.len(),
{
    let pieces = split_on(s, sep);
    if s.len() > 0 {
        pieces_hold_no_separator(s.drop_last(), sep);
        let before = split_on(s.drop_last(), sep);
        assert forall|i: int| 0 <= i < pieces.len() implies !(#[trigger] pieces[i]).contains(sep) by {
            if s.last() == sep {
                if i < before.len() {
                    assert(pieces[i] == before[i]);
                }
            } else if i < before.len() - 1 {
                assert(pieces[i] == before[i]);
            } else {
                let grown = before.last().push(s.last());
                assert(pieces[i] == grown);
                assert(!before[before.len() - 1].contains(sep));
                assert forall|j: int| 0 <= j < grown.len() implies grown[j] != sep by {
                    if j < before.last().len() {
                        assert(grown[j] == before.last()[j]);
                    }
                }
            }
        }
    }
}

/// A text in small letters stays as it is.
pub proof fn lowercase_is_idempotent(s: Seq<char>)
    ensures
        lowercase(lowercase(s)) == lowercase(s),
{
    assert(lowercase(lowercase(s)) =~= lowercase(s));
}

/// Small letters take as many bytes as capitals.
pub proof fn lowercase_keeps_size(s: Seq<char>)
    ensures
        utf8_size(lowercase(s)) == utf8_size(s),
    decreases s.len(),
{
    if s.len() > 0 {
        lowercase_keeps_size(s.drop_last());
        assert(lowercase(s).drop_last() =~= lowercase(s.drop_last()));
        assert(lowercase(s).last() == lower(s.last()));
    }
}

proof fn trim_start_of_lowercase(s: Seq<char>)
    ensures
        trim_start_of(lowercase(s)) == lowercase(trim_start_of(s)),
    decreases s.len(),
{
    if s.len() > 0 {
        assert(lowercase(s)[0] == lower(s[0]));
        if white_space(s[0]) {
            trim_start_of_lowercase(s.skip(1));
            assert(lowercase(s).skip(1) =~= lowercase(s.skip(1)));
        }
    }
}

proof fn trim_end_of_lowercase(s: Seq<char>)
    ensures
        trim_end_of(lowercase(s)) == lowercase(trim_end_of(s)),
    decreases s.len(),
{
    if s.len() > 0 {
        assert(lowercase(s).last() == lower(s.last()));
        if white_space(s.last()) {
            trim_end_of_lowercase(s.drop_last());
            assert(lowercase(s).drop_last() =~= lowercase(s.drop_last()));
        }
    }
}

/// Trimming and small letters do not get in each other's way.
pub proof fn trim_of_lowercase(s: Seq<char>)
    ensures
        trimmed(lowercase(s)) == lowercase(trimmed(s)),
{
    trim_start_of_lowercase(s);
    trim_end_of_lowercase(trim_start_of(s));
}

/// The pieces of a text in small letters are its pieces in small letters, where the separator
/// is no letter.
pub proof fn split_of_lowercase(s: Seq<char>, sep: char)
    requires
        !ascii_lower(sep),
        !ascii_upper(sep),
    ensures
        split_on(lowercase(s), sep) == split_on(s, sep).map_values(|piece: Seq<char>| lowercase(piece)),
    decreases s.len(),
{
    let small = lowercase(s);
    let pieces = split_on(s, sep).map_values(|piece: Seq<char>| lowercase(piece));
    if s.len() == 0 {
        assert(lowercase(Seq::<char>::empty()) =~= Seq::<char>::empty());
        assert(split_on(small, sep) =~= pieces);
    } else {
        let before = split_on(s.drop_last(), sep);
        split_of_lowercase(s.drop_last(), sep);
        split_on_nonempty(s.drop_last(), sep);
        assert(small.drop_last() =~= lowercase(s.drop_last()));
        assert(small.last() == lower(s.last()));
        if s.last() == sep {
            assert(lowercase(Seq::<char>::empty()) =~= Seq::<char>::empty());
        } else {
            assert(lowercase(before.last().push(s.last())) =~= lowercase(before.last()).push(
                lower(s.last()),
            ));
        }
        assert(split_on(small, sep) =~= pieces);
    }
}

/// Capitals become the small letters 32 places behind them; every other character stays.
pub proof fn only_capitals_become_small(s: Seq<char>, i: int)
    requires
        0 <= i < s.len(),
    ensures
        lowercase(s).len() == s.len(),
        'A' <= s[i] <= 'Z' ==> lowercase(s)[i] as u32 == s[i] as u32 + 32,
        !('A' <= s[i] <= 'Z') ==> lowercase(s)[i] == s[i],
{
}

/// Of the ASCII characters only the blank and those from the tabulator to the carriage return
/// are white space.
pub proof fn ascii_white_space_is_little(c: char)
    requires
        c as u32 <= 127,
    ensures
        white_space(c) <==> c as u32 == 32 || 9 <= c as u32 <= 13,
{
}

proof fn trim_start_is_a_tail(s: Seq<char>) -> (n: int)
    ensures
        0 <= n <= s.len(),
        trim_start_of(s) == s.skip(n),
        forall|i: int| 0 <= i < n ==> white_space(#[trigger] s[i]),
        n < s.len() ==> !white_space(s[n]),
    decreases s.len(),
{
    if s.len() > 0 && white_space(s[0]) {
        let rest = s.skip(1);
        let m = trim_start_is_a_tail(rest);
        assert(rest.skip(m) =~= s.skip(m + 1));
        assert forall|i: int| 0 <= i < m + 1 implies white_space(#[trigger] s[i]) by {
            if i > 0 {
                assert(rest[i - 1] == s[i]);
            }
        }
        m + 1
    } else {
        assert(s.skip(0) =~= s);
        0
    }
}

proof fn trim_end_is_a_front(s: Seq<char>) -> (n: int)
    ensures
        0 <= n <= s.len(),
        trim_end_of(s) == s.take(n),
        forall|i: int| n <= i < s.len() ==> white_space(#[trigger] s[i]),
        n > 0 ==> !white_space(s[n - 1]),
    decreases s.len(),
{
    if s.len() > 0 && white_space(s.last()) {
        let rest = s.drop_last();
        let m = trim_end_is_a_front(rest);
        assert(rest.take(m) =~= s.take(m));
        assert forall|i: int| m <= i < s.len() implies white_space(#[trigger] s[i]) by {
            if i < rest.len() {
                assert(rest[i] == s[i]);
            }
        }
        m
    } else {
        assert(s.take(s.len() as int) =~= s);
        s.len() as int
    }
}

/// Trimming cuts a text out of itself: all that goes is white space, and neither end of what
/// stays is.
pub proof fn trimming_takes_white_space_only(s: Seq<char>)
    ensures
        exists|from: int, to: int|
            0 <= from <= to <= s.len() && trimmed(s) == #[trigger] s.subrange(from, to) && (forall|
                i: int,
            |
                (0 <= i < from || to <= i < s.len()) ==> white_space(#[trigger] s[i])),
        trimmed(s).len() > 0 ==> !white_space(trimmed(s)[0]) && !white_space(trimmed(s).last()),
{
    let n = trim_start_is_a_tail(s);
    let rest = s.skip(n);
    let m = trim_end_is_a_front(rest);
    assert(rest.take(m) =~= s.subrange(n, n + m));
    assert forall|i: int| (0 <= i < n || n + m <= i < s.len()) implies white_space(
        #[trigger] s[i],
    ) by {
        if i >= n + m {
            assert(rest[i - n] == s[i]);
        }
    }
    if m > 0 {
        assert(rest[0] == s[n]);
        assert(rest.take(m).last() == rest[m - 1]);
    }
}

/// The decimal digits of a number stand for that number, and no zero leads them.
pub proof fn decimals_stand_for_their_number(n: nat)
    ensures
        crate::install::digits_value(decimal_of(n)) == n,
        decimal_of(n).len() > 0,
        forall|i: int| 0 <= i < decimal_of(n).len() ==> '0' <= #[trigger] decimal_of(n)[i] <= '9',
        n > 0 ==> decimal_of(n)[0] != '0',
    decreases n,
{
    reveal_with_fuel(crate::install::digits_value, 2);
    if n < 10 {
        assert(decimal_of(n).drop_last() =~= Seq::empty());
    } else {
        decimals_stand_for_their_number(n / 10);
        assert(decimal_of(n).drop_last() =~= decimal_of(n / 10));
    }
}

/// A minus sign leads negative numbers, and two digits are kept by a leading zero.
pub proof fn signs_and_zeros_lead(n: int)
    ensures
        n < 0 ==> decimal_int(n)[0] == '-' && decimal_int(n).skip(1) == decimal_int(-n),
        n >= 0 ==> decimal_int(n) == decimal_of(n as nat),
        0 <= n < 100 ==> two_digits(n as nat).len() == 2 && crate::install::digits_value(
            two_digits(n as nat),
        ) == n,
{
    if n < 0 {
        assert(decimal_int(n).skip(1) =~= decimal_of((-n) as nat));
    }
    if 0 <= n < 100 {
        reveal_strlit("0");
        reveal_with_fuel(crate::install::digits_value, 3);
        reveal_with_fuel(decimal_of, 3);
        decimals_stand_for_their_number(n as nat);
        let t = two_digits(n as nat);
        assert(t.len() == 2);
        assert(t.drop_last().drop_last() =~= Seq::empty());
        assert(t.drop_last().last() == t[0]);
        assert(t.last() == t[1]);
    }
}

/// Texts are ordered by the first characters in which they differ, and a text comes behind its
/// own beginnings.
pub proof fn texts_are_ordered_by_their_first_difference(
    front: Seq<char>,
    c: char,
    d: char,
    a: Seq<char>,
    b: Seq<char>,
)
    requires
        c != d,
    ensures
        text_less(front + seq![c] + a, front + seq![d] + b) <==> c < d,
        text_less(front, front + seq![c] + a),
    decreases front.len(),
{
    let x = front + seq![c] + a;
    let y = front + seq![d] + b;
    if front.len() > 0 {
        let rest = front.skip(1);
        texts_are_ordered_by_their_first_difference(rest, c, d, a, b);
        assert(x.skip(1) =~= rest + seq![c] + a);
        assert(y.skip(1) =~= rest + seq![d] + b);
    }
}

/// Text in front and behind adds up, and an ASCII character takes one byte.
pub proof fn sizes_add_up(s: Seq<char>, c: char)
    ensures
        utf8_size(s.push(c)) == utf8_size(s) + (if c as u32 <= 0x7f {
            1int
        } else if c as u32 <= 0x7ff {
            2int
        } else if c as u32 <= 0xffff {
            3int
        } else {
            4int
        }),
        utf8_size(Seq::empty()) == 0,
{
    assert(s.push(c).drop_last() =~= s);
}

/// A text starts with what stands in front, ends with what stands behind, and holds what stands
/// between.
pub proof fn texts_hold_their_parts(a: Seq<char>, b: Seq<char>, c: Seq<char>)
    ensures
        starts_with(a + b, a),
        ends_with(a + b, b),
        contains_text(a + b + c, b),
        starts_with(c, a) ==> c == a + c.skip(a.len() as int),
        ends_with(c, a) ==> c == c.take(c.len() - a.len()) + a,
        contains_text(c, a) ==> exists|i: int|
            0 <= i && i + a.len() <= c.len() && #[trigger] c.subrange(i, i + a.len()) == a,
{
    assert((a + b).take(a.len() as int) =~= a);
    assert((a + b).skip((a + b).len() - b.len()) =~= b);
    let n = a.len() as int;
    assert((a + b + c).subrange(n, n + b.len()) =~= b);
    assert(occurs_at(a + b + c, b, n));
    if starts_with(c, a) {
        assert(c =~= c.take(n) + c.skip(n));
    }
    if ends_with(c, a) {
        assert(c =~= c.take(c.len() - n) + c.skip(c.len() - n));
    }
    if contains_text(c, a) {
        let i = choose|i: int| occurs_at(c, a, i);
        assert(c.subrange(i, i + a.len()) == a);
    }
}

/// Lines that were ended are read back, a carriage return at their end aside.
pub proof fn ended_lines_are_read_back(lines: Seq<Seq<char>>, i: int)
    requires
        forall|k: int| 0 <= k < lines.len() ==> !(#[trigger] lines[k]).contains('\n'),
        0 <= i < lines.len(),
    ensures
        lines_of(terminated(lines)).len() == lines.len(),
        lines[i].len() == 0 || lines[i].last() != '\r' ==> lines_of(terminated(lines))[i] == lines[i],
        lines[i].len() > 0 && lines[i].last() == '\r' ==> lines_of(terminated(lines))[i]
            == lines[i].drop_last(),
{
    split_of_terminated(lines);
    let pieces = split_on(terminated(lines), '\n');
    assert(pieces.drop_last() =~= lines);
}

/// A single digit stands for itself, and each further one for ten times what was before it.
pub proof fn digits_count_by_tens(n: nat, digit: nat)
    requires
        digit < 10,
    ensures
        decimal_of(digit) == seq![(48 + digit) as char],
        n > 0 ==> decimal_of(10 * n + digit) == decimal_of(n).push((48 + digit) as char),
{
    assert((10 * n + digit) / 10 == n);
    assert((10 * n + digit) % 10 == digit);
}

/// Pieces are put together with the separator between neighbours and nowhere else.
pub proof fn pieces_are_joined_between(pieces: Seq<Seq<char>>, piece: Seq<char>, sep: Seq<char>)
    ensures
        join_with(Seq::<Seq<char>>::empty(), sep) == Seq::<char>::empty(),
        join_with(seq![piece], sep) == piece,
        pieces.len() > 0 ==> join_with(pieces.push(piece), sep) == join_with(pieces, sep) + sep
            + piece,
{
    assert(pieces.push(piece).drop_last() =~= pieces);
}

/// The letters, the digits and the control characters.
pub proof fn characters_are_told_apart(c: char)
    ensures
        ascii_lower(c) <==> 97 <= c as u32 <= 122,
        ascii_upper(c) <==> 65 <= c as u32 <= 90,
        ascii_digit(c) <==> 48 <= c as u32 <= 57,
        control_char(c) <==> (c as u32) < 32 || 127 <= c as u32 <= 159,
{
}

} // verus!
