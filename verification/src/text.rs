//! Small operations on text, by characters.

use vstd::prelude::*;
use vstd::string::StrSliceExecFns;
use vstd::string::StringExecFns;

verus! {

/// White space as Unicode defines it (the property `White_Space`).
pub open spec fn is_whitespace(c: char) -> bool {
    let n = c as u32;
    ||| 0x09 <= n <= 0x0d
    ||| n == 0x20
    ||| n == 0x85
    ||| n == 0xa0
    ||| n == 0x1680
    ||| 0x2000 <= n <= 0x200a
    ||| n == 0x2028
    ||| n == 0x2029
    ||| n == 0x202f
    ||| n == 0x205f
    ||| n == 0x3000
}

/// `text` without the white space it begins with.
pub open spec fn trim_start_of(text: Seq<char>) -> Seq<char>
    decreases text.len(),
{
    if text.len() > 0 && is_whitespace(text[0]) {
        trim_start_of(text.drop_first())
    } else {
        text
    }
}

/// `text` without the white space it ends with.
pub open spec fn trim_end_of(text: Seq<char>) -> Seq<char>
    decreases text.len(),
{
    if text.len() > 0 && is_whitespace(text.last()) {
        trim_end_of(text.drop_last())
    } else {
        text
    }
}

/// `text` without the white space at either end.
pub open spec fn trimmed(text: Seq<char>) -> Seq<char> {
    trim_end_of(trim_start_of(text))
}

/// `text` without any occurrence of `c`.
pub open spec fn without_char(text: Seq<char>, c: char) -> Seq<char>
    decreases text.len(),
{
    if text.len() == 0 {
        text
    } else if text.last() == c {
        without_char(text.drop_last(), c)
    } else {
        without_char(text.drop_last(), c).push(text.last())
    }
}

/// What stands in `text` before the first `c`; all of it where there is none.
pub open spec fn before_first(text: Seq<char>, c: char) -> Seq<char>
    decreases text.len(),
{
    if text.len() == 0 || text[0] == c {
        Seq::empty()
    } else {
        seq![text[0]] + before_first(text.drop_first(), c)
    }
}

/// The value of a hexadecimal digit, upper or lower case.
pub open spec fn hex_digit_value(c: char) -> Option<nat> {
    let n = c as u32;
    if 0x30 <= n <= 0x39 {
        Some((n - 0x30) as nat)
    } else if 0x61 <= n <= 0x66 {
        Some((n - 0x57) as nat)
    } else if 0x41 <= n <= 0x46 {
        Some((n - 0x37) as nat)
    } else {
        None
    }
}

/// Every character is a hexadecimal digit.
pub open spec fn all_hex_digits(digits: Seq<char>) -> bool {
    forall|i: int| 0 <= i < digits.len() ==> hex_digit_value(#[trigger] digits[i]) is Some
}

/// The number that hexadecimal digits write, most significant first.
pub open spec fn hex_number(digits: Seq<char>) -> nat
    decreases digits.len(),
{
    if digits.len() == 0 {
        0
    } else {
        16 * hex_number(digits.drop_last()) + hex_digit_value(digits.last())->0
    }
}

/// The 32-bit number that the digits write: there must be at least one, all
/// hexadecimal, and the number must fit.
pub open spec fn hex_digits_u32(digits: Seq<char>) -> Option<u32> {
    if digits.len() > 0 && all_hex_digits(digits) && hex_number(digits) <= u32::MAX {
        Some(hex_number(digits) as u32)
    } else {
        None
    }
}

/// The 32-bit number that `text` writes in base 16: an optional `+`, then at
/// least one hexadecimal digit and nothing else, and a value that fits.
pub open spec fn hex_u32(text: Seq<char>) -> Option<u32> {
    if text.len() > 0 && text[0] == '+' {
        hex_digits_u32(text.drop_first())
    } else {
        hex_digits_u32(text)
    }
}

/// More digits never write a smaller number.
proof fn lemma_hex_number_grows(digits: Seq<char>, shorter: int)
    requires
        0 <= shorter <= digits.len(),
    ensures
        hex_number(digits.take(shorter)) <= hex_number(digits),
    decreases digits.len(),
{
    if shorter < digits.len() {
        lemma_hex_number_grows(digits.drop_last(), shorter);
        assert(digits.drop_last().take(shorter) =~= digits.take(shorter));
    } else {
        assert(digits.take(shorter) =~= digits);
    }
}

/// Tells whether `c` is white space.
pub fn char_is_whitespace(c: char) -> (r: bool)
    ensures
        r == is_whitespace(c),
{
    let n = c as u32;
    (0x09 <= n && n <= 0x0d) || n == 0x20 || n == 0x85 || n == 0xa0 || n == 0x1680 || (0x2000 <= n
        && n <= 0x200a) || n == 0x2028 || n == 0x2029 || n == 0x202f || n == 0x205f || n == 0x3000
}

/// Takes the white space off the end of `text`.
pub fn trim_end(text: &str) -> (r: &str)
    ensures
        r@ == trim_end_of(text@),
{
    let mut end = text.unicode_len();
    assert(text@.take(end as int) =~= text@);
    while end > 0 && char_is_whitespace(text.get_char(end - 1))
        invariant
            end <= text@.len(),
            trim_end_of(text@) == trim_end_of(text@.take(end as int)),
        decreases end,
    {
        assert(text@.take(end as int).drop_last() =~= text@.take(end - 1));
        end -= 1;
    }
    text.substring_char(0, end)
}

/// Takes the white space off both ends of `text`.
pub fn trim(text: &str) -> (r: &str)
    ensures
        r@ == trimmed(text@),
{
    let len = text.unicode_len();
    let mut start: usize = 0;
    assert(text@.skip(0) =~= text@);
    while start < len && char_is_whitespace(text.get_char(start))
        invariant
            start <= len,
            len == text@.len(),
            trim_start_of(text@) == trim_start_of(text@.skip(start as int)),
        decreases len - start,
    {
        assert(text@.skip(start as int).drop_first() =~= text@.skip(start + 1));
        start += 1;
    }
    let rest = text.substring_char(start, len);
    assert(rest@ =~= text@.skip(start as int));
    trim_end(rest)
}

/// Leaves every `c` out of `text`.
pub fn remove_char(text: &str, c: char) -> (r: String)
    ensures
        r@ == without_char(text@, c),
{
    let len = text.unicode_len();
    let mut r = String::new();
    let mut i: usize = 0;
    while i < len
        invariant
            i <= len,
            len == text@.len(),
            r@ == without_char(text@.take(i as int), c),
        decreases len - i,
    {
        assert(text@.take(i + 1).drop_last() =~= text@.take(i as int));
        if text.get_char(i) != c {
            let one = text.substring_char(i, i + 1);
            assert(one@ =~= seq![text@[i as int]]);
            r.append(one);
            assert(r@ =~= without_char(text@.take(i as int), c).push(text@[i as int]));
        }
        i += 1;
    }
    proof {
        assert(text@.take(len as int) =~= text@);
    }
    r
}

/// Gives what stands before the first `c` in `text`.
pub fn take_before(text: &str, c: char) -> (r: &str)
    ensures
        r@ == before_first(text@, c),
{
    let len = text.unicode_len();
    let mut i: usize = 0;
    proof {
        assert(text@.skip(0) =~= text@);
        assert(text@.take(0) + before_first(text@, c) =~= before_first(text@, c));
    }
    while i < len && text.get_char(i) != c
        invariant
            i <= len,
            len == text@.len(),
            before_first(text@, c) == text@.take(i as int) + before_first(text@.skip(i as int), c),
        decreases len - i,
    {
        proof {
            let rest = text@.skip(i as int);
            assert(rest.drop_first() =~= text@.skip(i + 1));
            assert(text@.take(i + 1) =~= text@.take(i as int) + seq![rest[0]]);
            assert(text@.take(i as int) + (seq![rest[0]] + before_first(rest.drop_first(), c))
                =~= text@.take(i + 1) + before_first(text@.skip(i + 1), c));
        }
        i += 1;
    }
    proof {
        assert(text@.take(i as int) + Seq::<char>::empty() =~= text@.take(i as int));
    }
    text.substring_char(0, i)
}

/// The value of one hexadecimal digit.
fn digit_value(c: char) -> (v: Option<u64>)
    ensures
        match v {
            Some(n) => hex_digit_value(c) == Some(n as nat) && n < 16,
            None => hex_digit_value(c) is None,
        },
{
    let n = c as u32;
    if 0x30 <= n && n <= 0x39 {
        Some((n - 0x30) as u64)
    } else if 0x61 <= n && n <= 0x66 {
        Some((n - 0x57) as u64)
    } else if 0x41 <= n && n <= 0x46 {
        Some((n - 0x37) as u64)
    } else {
        None
    }
}

/// Reads a 32-bit number written in base 16: an optional `+`, then
/// hexadecimal digits. `None` for any other text, and for a number that does
/// not fit.
pub fn parse_hex_u32(text: &str) -> (r: Option<u32>)
    ensures
        r == hex_u32(text@),
{
    let len = text.unicode_len();
    let start: usize = if len > 0 && text.get_char(0) == '+' {
        1
    } else {
        0
    };
    let ghost digits = text@.skip(start as int);
    proof {
        if start == 1 {
            assert(digits =~= text@.drop_first());
        } else {
            assert(digits =~= text@);
        }
    }
    if start == len {
        return None;
    }
    let mut value: u64 = 0;
    let mut i: usize = start;
    while i < len
        invariant
            start <= i <= len,
            len == text@.len(),
            digits == text@.skip(start as int),
            hex_u32(text@) == hex_digits_u32(digits),
            all_hex_digits(digits.take(i - start)),
            value == hex_number(digits.take(i - start)),
            value <= u32::MAX,
        decreases len - i,
    {
        let ghost shorter = digits.take(i - start);
        let ghost longer = digits.take(i - start + 1);
        proof {
            assert(longer.drop_last() =~= shorter);
            assert(longer.last() == text@[i as int]);
        }
        match digit_value(text.get_char(i)) {
            None => {
                assert(hex_digit_value(digits[i - start]) is None);
                return None;
            },
            Some(d) => {
                value = value * 16 + d;
                proof {
                    assert forall|k: int| 0 <= k < longer.len() implies hex_digit_value(
                        #[trigger] longer[k],
                    ) is Some by {
                        if k < shorter.len() {
                            assert(longer[k] == shorter[k]);
                        }
                    }
                }
                if value > u32::MAX as u64 {
                    proof {
                        lemma_hex_number_grows(digits, i - start + 1);
                    }
                    return None;
                }
            },
        }
        i += 1;
    }
    proof {
        assert(digits.take(len - start) =~= digits);
    }
    Some(value as u32)
}

/// Joins two texts.
pub fn join(first: &str, second: &str) -> (r: String)
    ensures
        r@ == first@ + second@,
{
    let mut r = String::from_str(first);
    r.append(second);
    r
}

/// Tells whether two texts are the same.
pub fn same_text(first: &str, second: &str) -> (r: bool)
    ensures
        r == (first@ == second@),
{
    let len = first.unicode_len();
    if len != second.unicode_len() {
        return false;
    }
    let mut i: usize = 0;
    while i < len
        invariant
            i <= len,
            len == first@.len(),
            len == second@.len(),
            forall|k: int| 0 <= k < i ==> first@[k] == second@[k],
        decreases len - i,
    {
        if first.get_char(i) != second.get_char(i) {
            return false;
        }
        i += 1;
    }
    assert(first@ =~= second@);
    true
}

} // verus!
