//! Comparing and splitting text.

use vstd::prelude::*;
use vstd::string::StringSliceAdditionalSpecFns;

verus! {

/// Whether two texts are the same, character for character.
pub fn str_eq(a: &str, b: &str) -> (same: bool)
    ensures
        same == (a@ == b@),
{
    let x = a.as_bytes();
    let y = b.as_bytes();
    if x.len() != y.len() {
        return false;
    }
    let mut i: usize = 0;
    while i < x.len()
        invariant
            x@ == a.spec_bytes(),
            y@ == b.spec_bytes(),
            x.len() == y.len(),
            i <= x.len(),
            forall|j: int| 0 <= j < i ==> x@[j] == y@[j],
        decreases x.len() - i,
    {
        if x[i] != y[i] {
            assert(a@ == b@ ==> x@[i as int] == y@[i as int]);
            return false;
        }
        i += 1;
    }
    assert(x@ =~= y@);
    proof {
        vstd::utf8::encode_utf8_decode_utf8(a@);
        vstd::utf8::encode_utf8_decode_utf8(b@);
    }
    true
}

/// The text without the white space at its two ends, as `str::trim` of the
/// standard library gives it.
pub uninterp spec fn trimmed(text: Seq<char>) -> Seq<char>;

/// `str::trim`: the part of the text that is left once the white space before
/// its first and behind its last other character is taken away. What counts as
/// white space is the standard library's matter; the result is a function of
/// the text alone.
#[verifier::external_body]
pub(crate) fn trim(text: &str) -> (inner: &str)
    ensures
        inner@ == trimmed(text@),
{
    text.trim()
}

/// The index of the first element of `s` that `p` holds of, or the length of `s`
/// where it holds of none.
pub open spec fn first_index<T>(s: Seq<T>, p: spec_fn(T) -> bool) -> int
    decreases s.len(),
{
    if s.len() == 0 {
        0
    } else if p(s[0]) {
        0
    } else {
        1 + first_index(s.drop_first(), p)
    }
}

/// `first_index` is within the sequence or at its end; `p` holds at it where it
/// is within, and of nothing before it.
pub proof fn lemma_first_index<T>(s: Seq<T>, p: spec_fn(T) -> bool)
    ensures
        0 <= first_index(s, p) <= s.len(),
        first_index(s, p) < s.len() ==> p(s[first_index(s, p)]),
        forall|j: int| 0 <= j < first_index(s, p) ==> !p(#[trigger] s[j]),
    decreases s.len(),
{
    if s.len() > 0 && !p(s[0]) {
        let rest = s.drop_first();
        lemma_first_index(rest, p);
        assert forall|j: int| 0 <= j < first_index(s, p) implies !p(#[trigger] s[j]) by {
            if j > 0 {
                assert(s[j] == rest[j - 1]);
            }
        }
    }
}

/// An index at which `p` holds, with none before it at which it does, is the
/// first index.
pub proof fn lemma_first_index_is<T>(s: Seq<T>, p: spec_fn(T) -> bool, i: int)
    requires
        0 <= i <= s.len(),
        i < s.len() ==> p(s[i]),
        forall|j: int| 0 <= j < i ==> !p(#[trigger] s[j]),
    ensures
        first_index(s, p) == i,
{
    lemma_first_index(s, p);
    let k = first_index(s, p);
    if k < i {
        assert(!p(s[k]));
    }
}

/// The index of the last element of `s` that `p` holds of, or -1 where it
/// holds of none.
pub open spec fn last_index<T>(s: Seq<T>, p: spec_fn(T) -> bool) -> int
    decreases s.len(),
{
    if s.len() == 0 {
        -1
    } else if p(s.last()) {
        s.len() - 1
    } else {
        last_index(s.drop_last(), p)
    }
}

/// `last_index` is within the sequence or -1; `p` holds at it where it is
/// within, and of nothing behind it.
pub proof fn lemma_last_index<T>(s: Seq<T>, p: spec_fn(T) -> bool)
    ensures
        -1 <= last_index(s, p) < s.len(),
        last_index(s, p) >= 0 ==> p(s[last_index(s, p)]),
        forall|j: int| last_index(s, p) < j < s.len() ==> !p(#[trigger] s[j]),
    decreases s.len(),
{
    if s.len() > 0 && !p(s.last()) {
        let rest = s.drop_last();
        lemma_last_index(rest, p);
        assert forall|j: int| last_index(s, p) < j < s.len() implies !p(#[trigger] s[j]) by {
            if j < s.len() - 1 {
                assert(s[j] == rest[j]);
            }
        }
        if last_index(s, p) >= 0 {
            assert(s[last_index(s, p)] == rest[last_index(rest, p)]);
        }
    }
}

/// An index at which `p` holds, with none behind it at which it does, is the
/// last index.
pub proof fn lemma_last_index_is<T>(s: Seq<T>, p: spec_fn(T) -> bool, i: int)
    requires
        -1 <= i < s.len(),
        i >= 0 ==> p(s[i]),
        forall|j: int| i < j < s.len() ==> !p(#[trigger] s[j]),
    ensures
        last_index(s, p) == i,
{
    lemma_last_index(s, p);
    let k = last_index(s, p);
    if k > i {
        assert(!p(s[k]));
    }
}

/// The sequences of a list one behind the other.
pub open spec fn concat_all<T>(parts: Seq<Seq<T>>) -> Seq<T>
    decreases parts.len(),
{
    if parts.len() == 0 {
        Seq::empty()
    } else {
        concat_all(parts.drop_last()) + parts.last()
    }
}

/// One more part comes behind the others.
pub proof fn lemma_concat_all_push<T>(parts: Seq<Seq<T>>, part: Seq<T>)
    ensures
        concat_all(parts.push(part)) == concat_all(parts) + part,
{
    assert(parts.push(part).drop_last() =~= parts);
}

/// Whether a text has more than one line: whether something stands behind its
/// first line end.
pub open spec fn has_more_lines(bytes: Seq<u8>) -> bool {
    first_index(bytes, |b: u8| b == 10u8) + 1 < bytes.len()
}

/// The first line of a text, without its line end: what stands before the
/// first line feed, less a carriage return just before it. The whole text
/// where it has no line feed.
pub open spec fn first_line_of(bytes: Seq<u8>) -> Seq<u8> {
    let k = first_index(bytes, |b: u8| b == 10u8);
    if 0 < k < bytes.len() && bytes[k - 1] == 13u8 {
        bytes.subrange(0, k - 1)
    } else {
        bytes.subrange(0, k)
    }
}

/// The offset of the first line feed of a text, or the length of the text.
fn first_line_feed(text: &str) -> (index: usize)
    ensures
        index == first_index(text.spec_bytes(), |b: u8| b == 10u8),
        index <= text.spec_bytes().len(),
{
    let bytes = text.as_bytes();
    let ghost p = |b: u8| b == 10u8;
    let mut i: usize = 0;
    while i < bytes.len() && bytes[i] != 10u8
        invariant
            i <= bytes.len(),
            bytes@ == text.spec_bytes(),
            p == |b: u8| b == 10u8,
            forall|j: int| 0 <= j < i ==> !p(#[trigger] bytes@[j]),
        decreases bytes.len() - i,
    {
        assert(!p(bytes@[i as int]));
        i += 1;
    }
    proof {
        if i < bytes.len() {
            assert(p(bytes@[i as int]));
        }
        lemma_first_index_is(bytes@, p, i as int);
    }
    i
}

/// Whether a text has more than one line.
pub fn more_lines(text: &str) -> (more: bool)
    ensures
        more == has_more_lines(text.spec_bytes()),
{
    let k = first_line_feed(text);
    let n = text.as_bytes().len();
    k < n && k + 1 < n
}

/// The first line of a text, without its line end.
pub fn first_line(text: &str) -> (line: &str)
    ensures
        line.spec_bytes() == first_line_of(text.spec_bytes()),
{
    broadcast use {
        vstd::utf8::encode_utf8_valid_utf8,
        vstd::utf8::is_char_boundary_iff_not_is_continuation_byte,
        vstd::utf8::is_char_boundary_start_end_of_seq,
    };

    let bytes = text.as_bytes();
    let k = first_line_feed(text);
    let end = if 0 < k && k < bytes.len() && bytes[k - 1] == 13u8 {
        k - 1
    } else {
        k
    };
    proof {
        let b = text.spec_bytes();
        assert(vstd::utf8::valid_utf8(b));
        lemma_first_index(b, |x: u8| x == 10u8);
        if end < b.len() {
            assert(b[end as int] == 10u8 || b[end as int] == 13u8);
            assert(!vstd::utf8::is_continuation_byte(b[end as int])) by {
                let x = b[end as int];
                assert(x == 10u8 || x == 13u8 ==> x & 0xC0 != 0x80) by (bit_vector);
            }
            assert(vstd::utf8::is_char_boundary(b, end as int));
        } else {
            assert(vstd::utf8::is_char_boundary(b, end as int));
        }
    }
    let parts = text.split_at(end);
    parts.0
}

/// The number that a sequence of decimal digits stands for.
pub open spec fn digits_value(digits: Seq<u8>) -> nat
    decreases digits.len(),
{
    if digits.len() == 0 {
        0
    } else {
        (digits_value(digits.drop_last()) * 10 + (digits.last() - 48)) as nat
    }
}

/// Whether every byte is a decimal digit.
pub open spec fn all_digits(digits: Seq<u8>) -> bool {
    forall|i: int| 0 <= i < digits.len() ==> 48 <= #[trigger] digits[i] <= 57
}

/// The index that a text stands for: the number written in it in decimal
/// digits, with or without a plus sign before them, where it is within the
/// numbers of the machine. `None` for any other text.
pub open spec fn index_of(bytes: Seq<u8>) -> Option<usize> {
    let digits = if bytes.len() > 0 && bytes[0] == 43u8 {
        bytes.subrange(1, bytes.len() as int)
    } else {
        bytes
    };
    if digits.len() > 0 && all_digits(digits) && digits_value(digits) <= usize::MAX {
        Some(digits_value(digits) as usize)
    } else {
        None
    }
}

/// A number in digits is no less than the number in any of its leading digits.
pub proof fn lemma_digits_value_grows(digits: Seq<u8>, count: int)
    requires
        all_digits(digits),
        0 <= count <= digits.len(),
    ensures
        digits_value(digits.take(count)) <= digits_value(digits),
    decreases digits.len() - count,
{
    if count < digits.len() {
        lemma_digits_value_grows(digits, count + 1);
        assert(digits.take(count + 1).drop_last() =~= digits.take(count));
        assert(digits.take(count + 1).last() == digits[count]);
    } else {
        assert(digits.take(count) =~= digits);
    }
}

/// The index that a text stands for.
pub fn parse_index(text: &str) -> (index: Option<usize>)
    ensures
        index == index_of(text.spec_bytes()),
{
    let bytes = text.as_bytes();
    let first: usize = if bytes.len() > 0 && bytes[0] == 43u8 {
        1
    } else {
        0
    };
    if first == bytes.len() {
        return None;
    }
    let ghost digits = bytes@.subrange(first as int, bytes.len() as int);
    let ghost written = if bytes@.len() > 0 && bytes@[0] == 43u8 {
        bytes@.subrange(1, bytes@.len() as int)
    } else {
        bytes@
    };
    assert(digits =~= written);
    let mut value: usize = 0;
    let mut i: usize = first;
    assert(digits.take(0) =~= Seq::<u8>::empty());
    while i < bytes.len()
        invariant
            first <= i <= bytes.len(),
            first < bytes.len(),
            bytes@ == text.spec_bytes(),
            digits == bytes@.subrange(first as int, bytes.len() as int),
            digits == if bytes@.len() > 0 && bytes@[0] == 43u8 {
                bytes@.subrange(1, bytes@.len() as int)
            } else {
                bytes@
            },
            all_digits(digits.take(i - first)),
            value == digits_value(digits.take(i - first)),
        decreases bytes.len() - i,
    {
        let b = bytes[i];
        let ghost seen = digits.take(i - first);
        let ghost more = digits.take(i - first + 1);
        proof {
            assert(more.drop_last() =~= seen);
            assert(more.last() == b);
            assert(digits[i - first] == b);
        }
        if b < 48 || b > 57 {
            assert(!all_digits(digits));
            return None;
        }
        assert(all_digits(more)) by {
            assert forall|j: int| 0 <= j < more.len() implies 48 <= #[trigger] more[j] <= 57 by {
                if j < seen.len() {
                    assert(more[j] == seen[j]);
                }
            }
        }
        let grown = match value.checked_mul(10) {
            Some(tens) => tens.checked_add((b - 48) as usize),
            None => None,
        };
        match grown {
            Some(next) => {
                value = next;
            },
            None => {
                proof {
                    assert(digits_value(more) > usize::MAX);
                    if all_digits(digits) {
                        lemma_digits_value_grows(digits, i - first + 1);
                    }
                }
                return None;
            },
        }
        i += 1;
    }
    assert(digits.take(i - first) =~= digits);
    Some(value)
}

} // verus!
