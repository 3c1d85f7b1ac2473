//! Searching and reading text as bytes.
//!
//! Text is taken in its UTF-8 bytes. Every pattern looked for here is ASCII,
//! and so is every number; an ASCII byte in UTF-8 is always a character of
//! its own, so what is found in the bytes is what stands in the text.
use vstd::prelude::*;

verus! {

/// Whether `needle` stands in `hay` at position `at`.
pub open spec fn occurs_at(hay: Seq<u8>, needle: Seq<u8>, at: int) -> bool {
    0 <= at && at + needle.len() <= hay.len() && hay.subrange(at, at + needle.len()) == needle
}

/// The first position from `from` on at which `needle` stands in `hay`.
pub open spec fn find_from(hay: Seq<u8>, needle: Seq<u8>, from: int) -> Option<int>
    decreases hay.len() - from,
{
    if from < 0 || from + needle.len() > hay.len() {
        None
    } else if occurs_at(hay, needle, from) {
        Some(from)
    } else if from < hay.len() {
        find_from(hay, needle, from + 1)
    } else {
        None
    }
}

/// What [`find_from`] finds is an occurrence, and the first one from `from`
/// on; where it finds none, there is none.
pub proof fn lemma_find_is_first(hay: Seq<u8>, needle: Seq<u8>, from: int)
    requires
        0 <= from,
    ensures
        match find_from(hay, needle, from) {
            Some(at) => from <= at && occurs_at(hay, needle, at) && forall|j: int|
                from <= j < at ==> !occurs_at(hay, needle, j),
            None => forall|j: int| from <= j ==> !occurs_at(hay, needle, j),
        },
    decreases hay.len() - from,
{
    if from + needle.len() <= hay.len() && !occurs_at(hay, needle, from) {
        if from < hay.len() {
            lemma_find_is_first(hay, needle, from + 1);
        } else {
            assert(hay.subrange(from, from + needle.len()) =~= needle);
        }
    }
}

/// Whether `needle` stands in `hay` at position `at`.
pub fn matches_at(hay: &[u8], needle: &[u8], at: usize) -> (same: bool)
    requires
        at + needle@.len() <= hay@.len(),
    ensures
        same == occurs_at(hay@, needle@, at as int),
{
    let mut k: usize = 0;
    let size: usize = hay.len();
    while k < needle.len()
        invariant
            k <= needle@.len(),
            at + needle@.len() <= hay@.len(),
            size == hay@.len(),
            forall|j: int| 0 <= j < k ==> hay@[at + j] == needle@[j],
        decreases needle@.len() - k,
    {
        if hay[at + k] != needle[k] {
            assert(hay@.subrange(at as int, at + needle@.len())[k as int] == hay@[at + k]);
            return false;
        }
        k += 1;
    }
    assert(hay@.subrange(at as int, at + needle@.len()) =~= needle@);
    true
}

/// The first position at which `needle` stands in `hay`.
pub fn find(hay: &[u8], needle: &[u8]) -> (found: Option<usize>)
    ensures
        match found {
            Some(at) => find_from(hay@, needle@, 0) == Some(at as int),
            None => find_from(hay@, needle@, 0) is None,
        },
{
    if needle.len() > hay.len() {
        return None;
    }
    let last: usize = hay.len() - needle.len();
    let mut at: usize = 0;
    loop
        invariant
            at <= last,
            last == hay@.len() - needle@.len(),
            find_from(hay@, needle@, 0) == find_from(hay@, needle@, at as int),
        decreases last - at,
    {
        if matches_at(hay, needle, at) {
            return Some(at);
        }
        if at == last {
            proof {
                if at < hay@.len() {
                    assert(find_from(hay@, needle@, at + 1) is None);
                }
            }
            return None;
        }
        at += 1;
    }
}

/// Whether a byte is a white-space character of one byte: a space, or one of
/// U+0009 to U+000D.
pub open spec fn is_space1(a: u8) -> bool {
    a == 0x20 || 0x09 <= a <= 0x0d
}

/// Whether two bytes encode a white-space character: U+0085 or U+00A0.
pub open spec fn is_space2(a: u8, b: u8) -> bool {
    a == 0xc2 && (b == 0x85 || b == 0xa0)
}

/// Whether three bytes encode a white-space character: U+1680, one of U+2000
/// to U+200A, U+2028, U+2029, U+202F, U+205F or U+3000.
pub open spec fn is_space3(a: u8, b: u8, c: u8) -> bool {
    ||| a == 0xe1 && b == 0x9a && c == 0x80
    ||| a == 0xe2 && b == 0x80 && (0x80 <= c <= 0x8a || c == 0xa8 || c == 0xa9 || c == 0xaf)
    ||| a == 0xe2 && b == 0x81 && c == 0x9f
    ||| a == 0xe3 && b == 0x80 && c == 0x80
}

/// How many bytes the white-space character takes that begins at `at` and
/// ends no later than `end`; 0 where there is none.
pub open spec fn space_at(s: Seq<u8>, at: int, end: int) -> int {
    if at + 1 <= end && is_space1(s[at]) {
        1
    } else if at + 2 <= end && is_space2(s[at], s[at + 1]) {
        2
    } else if at + 3 <= end && is_space3(s[at], s[at + 1], s[at + 2]) {
        3
    } else {
        0
    }
}

/// How many bytes the white-space character takes that ends at `end` and
/// begins no earlier than `start`; 0 where there is none.
pub open spec fn space_before(s: Seq<u8>, start: int, end: int) -> int {
    if start + 1 <= end && is_space1(s[end - 1]) {
        1
    } else if start + 2 <= end && is_space2(s[end - 2], s[end - 1]) {
        2
    } else if start + 3 <= end && is_space3(s[end - 3], s[end - 2], s[end - 1]) {
        3
    } else {
        0
    }
}

/// Where the text from `at` to `end` begins once the white space at its
/// start is left out.
pub open spec fn trim_start(s: Seq<u8>, at: int, end: int) -> int
    decreases end - at,
{
    if space_at(s, at, end) > 0 {
        trim_start(s, at + space_at(s, at, end), end)
    } else {
        at
    }
}

/// Where the text from `start` to `end` ends once the white space at its end
/// is left out.
pub open spec fn trim_end(s: Seq<u8>, start: int, end: int) -> int
    decreases end - start,
{
    if space_before(s, start, end) > 0 {
        trim_end(s, start, end - space_before(s, start, end))
    } else {
        end
    }
}

/// Leaves out the white space at both ends of the text from `start` to `end`,
/// as `str::trim` does: what is left runs from the first to the second
/// position returned.
pub fn trim(text: &[u8], start: usize, end: usize) -> (kept: (usize, usize))
    requires
        start <= end <= text@.len(),
    ensures
        kept.0 == trim_start(text@, start as int, end as int),
        kept.1 == trim_end(text@, kept.0 as int, end as int),
        start <= kept.0 <= kept.1 <= end,
{
    let mut from: usize = start;
    loop
        invariant
            start <= from <= end <= text@.len(),
            trim_start(text@, start as int, end as int) == trim_start(text@, from as int, end as int),
        ensures
            space_at(text@, from as int, end as int) == 0,
        decreases end - from,
    {
        let left: usize = end - from;
        let width: usize = if left >= 1 && space1(text[from]) {
            1
        } else if left >= 2 && space2(text[from], text[from + 1]) {
            2
        } else if left >= 3 && space3(text[from], text[from + 1], text[from + 2]) {
            3
        } else {
            0
        };
        assert(width == space_at(text@, from as int, end as int));
        if width == 0 {
            break ;
        }
        from += width;
    }
    let mut to: usize = end;
    loop
        invariant
            from <= to <= end <= text@.len(),
            trim_end(text@, from as int, end as int) == trim_end(text@, from as int, to as int),
        ensures
            space_before(text@, from as int, to as int) == 0,
        decreases to - from,
    {
        let left: usize = to - from;
        let width: usize = if left >= 1 && space1(text[to - 1]) {
            1
        } else if left >= 2 && space2(text[to - 2], text[to - 1]) {
            2
        } else if left >= 3 && space3(text[to - 3], text[to - 2], text[to - 1]) {
            3
        } else {
            0
        };
        assert(width == space_before(text@, from as int, to as int));
        if width == 0 {
            break ;
        }
        to -= width;
    }
    (from, to)
}

fn space1(a: u8) -> (yes: bool)
    ensures
        yes == is_space1(a),
{
    a == 0x20 || (0x09 <= a && a <= 0x0d)
}

fn space2(a: u8, b: u8) -> (yes: bool)
    ensures
        yes == is_space2(a, b),
{
    a == 0xc2 && (b == 0x85 || b == 0xa0)
}

fn space3(a: u8, b: u8, c: u8) -> (yes: bool)
    ensures
        yes == is_space3(a, b, c),
{
    (a == 0xe1 && b == 0x9a && c == 0x80) || (a == 0xe2 && b == 0x80 && ((0x80 <= c && c <= 0x8a)
        || c == 0xa8 || c == 0xa9 || c == 0xaf)) || (a == 0xe2 && b == 0x81 && c == 0x9f) || (a
        == 0xe3 && b == 0x80 && c == 0x80)
}

/// Whether a byte is an ASCII digit.
pub open spec fn is_digit(b: u8) -> bool {
    48 <= b <= 57
}

/// Whether every byte is an ASCII digit.
pub open spec fn all_digits(s: Seq<u8>) -> bool {
    forall|i: int| 0 <= i < s.len() ==> is_digit(#[trigger] s[i])
}

/// The number that a run of digits says in decimal. A byte that is no digit
/// counts as a zero.
pub open spec fn digits_value(s: Seq<u8>) -> nat
    decreases s.len(),
{
    if s.len() == 0 {
        0
    } else {
        digits_value(s.drop_last()) * 10 + (if is_digit(s.last()) {
            (s.last() - 48) as nat
        } else {
            0
        })
    }
}

/// The whole number that a text says, as `str::parse::<i32>` reads it: an
/// optional `+` or `-`, then one digit or more and nothing else, the value
/// within the range of `i32`.
pub open spec fn parsed_i32(s: Seq<u8>) -> Option<int> {
    let negative = s.len() > 0 && s[0] == 45;
    let signed = s.len() > 0 && (s[0] == 45 || s[0] == 43);
    let body = if signed {
        s.skip(1)
    } else {
        s
    };
    let value = if negative {
        -(digits_value(body) as int)
    } else {
        digits_value(body) as int
    };
    if body.len() == 0 || !all_digits(body) || value < i32::MIN || value > i32::MAX {
        None
    } else {
        Some(value)
    }
}

proof fn lemma_value_grows(s: Seq<u8>, k: int)
    requires
        0 <= k <= s.len(),
    ensures
        digits_value(s.subrange(0, k)) <= digits_value(s),
    decreases s.len() - k,
{
    if k < s.len() {
        lemma_value_grows(s, k + 1);
        assert(s.subrange(0, k + 1).drop_last() =~= s.subrange(0, k));
    } else {
        assert(s.subrange(0, k) =~= s);
    }
}

/// Reads the whole number that stands in `text` from `start` to `end`.
pub fn parse_i32(text: &[u8], start: usize, end: usize) -> (number: Option<i32>)
    requires
        start <= end <= text@.len(),
    ensures
        match number {
            Some(n) => parsed_i32(text@.subrange(start as int, end as int)) == Some(n as int),
            None => parsed_i32(text@.subrange(start as int, end as int)) is None,
        },
{
    let ghost s = text@.subrange(start as int, end as int);
    if start == end {
        return None;
    }
    assert(s[0] == text@[start as int]);
    let negative: bool = text[start] == 45;
    let signed: bool = negative || text[start] == 43;
    let first: usize = if signed {
        start + 1
    } else {
        start
    };
    let ghost body = if signed {
        s.skip(1)
    } else {
        s
    };
    assert(body =~= text@.subrange(first as int, end as int));
    if first == end {
        return None;
    }
    let mut acc: i64 = 0;
    let mut i: usize = first;
    while i < end
        invariant
            first <= i <= end <= text@.len(),
            start < end,
            s == text@.subrange(start as int, end as int),
            negative == (s[0] == 45),
            signed == (s[0] == 45 || s[0] == 43),
            body == if signed {
                s.skip(1)
            } else {
                s
            },
            body == text@.subrange(first as int, end as int),
            0 <= acc <= 2147483648,
            acc == digits_value(body.subrange(0, i - first)),
            all_digits(body.subrange(0, i - first)),
        decreases end - i,
    {
        let b: u8 = text[i];
        assert(body[i - first] == b);
        if b < 48 || b > 57 {
            assert(!is_digit(body[i - first]));
            return None;
        }
        let next: i64 = acc * 10 + (b - 48) as i64;
        proof {
            let grown = body.subrange(0, i - first + 1);
            assert(grown.drop_last() =~= body.subrange(0, i - first));
            assert(grown.last() == b);
            assert(digits_value(grown) == next);
            assert forall|k: int| 0 <= k < grown.len() implies is_digit(#[trigger] grown[k]) by {
                if k < i - first {
                    assert(body.subrange(0, i - first)[k] == grown[k]);
                }
            }
            lemma_value_grows(body, i - first + 1);
        }
        if next > 2147483648 {
            return None;
        }
        acc = next;
        i += 1;
    }
    assert(body.subrange(0, i - first) =~= body);
    let value: i64 = if negative {
        -acc
    } else {
        acc
    };
    if value > 2147483647 {
        None
    } else {
        Some(value as i32)
    }
}

} // verus!
