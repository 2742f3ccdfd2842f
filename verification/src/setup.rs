//! Setup: the user picks the default display from the connected ones by its
//! number, and a fresh store is made.

use crate::descriptor::{Descriptor, DescriptorView};
use crate::mode::Mode;
use crate::store::{descriptor_views, table_of, Store, StoreView};
use vstd::prelude::*;
use vstd::string::StrSliceExecFns;

verus! {

/// Whether a character is white space: the characters that Unicode
/// classes as White_Space.
pub open spec fn is_space(c: char) -> bool {
    let code = c as u32;
    (0x09 <= code <= 0x0D) || code == 0x20 || code == 0x85 || code == 0xA0 || code == 0x1680 || (
    0x2000 <= code <= 0x200A) || code == 0x2028 || code == 0x2029 || code == 0x202F || code
        == 0x205F || code == 0x3000
}

/// Whether a character is one of the digits 0 to 9.
pub open spec fn is_digit(c: char) -> bool {
    0x30 <= c as u32 <= 0x39
}

/// The number that a digit stands for.
pub open spec fn digit_value(c: char) -> nat {
    (c as u32 - 0x30) as nat
}

/// The text without the white space at its beginning.
pub open spec fn trim_start(text: Seq<char>) -> Seq<char>
    decreases text.len(),
{
    if text.len() > 0 && is_space(text[0]) {
        trim_start(text.skip(1))
    } else {
        text
    }
}

/// The text without the white space at its end.
pub open spec fn trim_end(text: Seq<char>) -> Seq<char>
    decreases text.len(),
{
    if text.len() > 0 && is_space(text.last()) {
        trim_end(text.drop_last())
    } else {
        text
    }
}

/// The text without the white space at either end.
pub open spec fn trimmed(text: Seq<char>) -> Seq<char> {
    trim_end(trim_start(text))
}

/// Every character of the text is a digit.
pub open spec fn all_digits(text: Seq<char>) -> bool {
    forall|i: int| 0 <= i < text.len() ==> is_digit(#[trigger] text[i])
}

/// The number that a row of digits stands for in decimal.
pub open spec fn digits_value(digits: Seq<char>) -> nat
    decreases digits.len(),
{
    if digits.len() == 0 {
        0
    } else {
        digits_value(digits.drop_last()) * 10 + digit_value(digits.last())
    }
}

/// The digits of a number as it is written: the text itself, or what
/// follows a single plus sign that something follows.
pub open spec fn unsigned_part(text: Seq<char>) -> Seq<char> {
    if text.len() > 1 && text[0] == '+' {
        text.skip(1)
    } else {
        text
    }
}

/// The number that the text states, if it states one: one digit or more,
/// with at most a plus sign in front.
pub open spec fn number_of(text: Seq<char>) -> Option<nat> {
    let digits = unsigned_part(text);
    if digits.len() > 0 && all_digits(digits) {
        Some(digits_value(digits))
    } else {
        None
    }
}

/// The display that the user's answer picks out of `count` displays, which
/// are numbered from zero: the number that the answer states, white space
/// around it aside, if it is below `count`.
pub open spec fn selection_of(input: Seq<char>, count: nat) -> Option<nat> {
    match number_of(trimmed(input)) {
        Some(n) => if n < count {
            Some(n)
        } else {
            None
        },
        None => None,
    }
}

/// The store that setup makes: it knows the connected displays, its default
/// is the display that was picked, and its mode is mirror.
pub open spec fn fresh_store(live: Seq<DescriptorView>, selection: int) -> StoreView {
    StoreView {
        default: live[selection].description,
        mode: Mode::Mirror,
        monitors: table_of(live),
    }
}

/// A number does not get smaller when digits are written after it.
pub proof fn lemma_digits_value_grows(digits: Seq<char>, shorter: int)
    requires
        0 <= shorter <= digits.len(),
    ensures
        digits_value(digits.take(shorter)) <= digits_value(digits),
    decreases digits.len(),
{
    if shorter == digits.len() {
        assert(digits.take(shorter) =~= digits);
    } else {
        lemma_digits_value_grows(digits.drop_last(), shorter);
        assert(digits.drop_last().take(shorter) =~= digits.take(shorter));
    }
}

/// Whether a character is white space.
pub fn is_whitespace(c: char) -> (space: bool)
    ensures
        space == is_space(c),
{
    let code: u32 = c as u32;
    (0x09 <= code && code <= 0x0D) || code == 0x20 || code == 0x85 || code == 0xA0 || code
        == 0x1680 || (0x2000 <= code && code <= 0x200A) || code == 0x2028 || code == 0x2029
        || code == 0x202F || code == 0x205F || code == 0x3000
}

/// Reads the user's answer to the question which of `count` displays is the
/// default one.
pub fn parse_selection(input: &str, count: usize) -> (selection: Option<usize>)
    ensures
        match selection {
            Some(n) => selection_of(input@, count as nat) == Some(n as nat),
            None => selection_of(input@, count as nat) is None,
        },
{
    let length = input.unicode_len();
    let mut start: usize = 0;
    assert(input@.skip(0) =~= input@);
    while start < length && is_whitespace(input.get_char(start))
        invariant
            start <= length == input@.len(),
            trim_start(input@) == trim_start(input@.skip(start as int)),
        decreases length - start,
    {
        assert(input@.skip(start as int).skip(1) =~= input@.skip(start as int + 1));
        start = start + 1;
    }
    let ghost rest = input@.skip(start as int);
    let mut end: usize = length;
    while end > start && is_whitespace(input.get_char(end - 1))
        invariant
            start <= end <= length == input@.len(),
            rest == input@.skip(start as int),
            trim_end(rest) == trim_end(input@.subrange(start as int, end as int)),
        decreases end - start,
    {
        assert(input@.subrange(start as int, end as int).drop_last() =~= input@.subrange(
            start as int,
            end as int - 1,
        ));
        end = end - 1;
    }
    let ghost text = input@.subrange(start as int, end as int);
    assert(trimmed(input@) == text);
    let first: usize = if end - start > 1 && input.get_char(start) == '+' {
        start + 1
    } else {
        start
    };
    let ghost digits = input@.subrange(first as int, end as int);
    assert(unsigned_part(text) =~= digits);
    if first == end || count == 0 {
        return None;
    }
    let ghost stated = if all_digits(digits) {
        Some(digits_value(digits))
    } else {
        None
    };
    let mut value: usize = 0;
    let mut i: usize = first;
    while i < end
        invariant
            first <= i <= end <= length == input@.len(),
            digits == input@.subrange(first as int, end as int),
            number_of(trimmed(input@)) == stated,
            stated == if all_digits(digits) {
                Some(digits_value(digits))
            } else {
                None::<nat>
            },
            all_digits(digits.take(i - first)),
            value == digits_value(digits.take(i - first)),
            value < count,
        decreases end - i,
    {
        let c = input.get_char(i);
        assert(digits[i - first] == c);
        let code: u32 = c as u32;
        if code < 0x30 || code > 0x39 {
            return None;
        }
        let digit: u128 = (code - 0x30) as u128;
        let longer: u128 = (value as u128) * 10 + digit;
        proof {
            let prefix = digits.take(i - first + 1);
            assert(prefix.drop_last() =~= digits.take(i - first));
            assert(all_digits(prefix));
            lemma_digits_value_grows(digits, i - first + 1);
        }
        if longer >= count as u128 {
            return None;
        }
        value = longer as usize;
        i = i + 1;
    }
    assert(digits.take(i - first) =~= digits);
    Some(value)
}

/// Makes the store of a first run from the connected displays and the
/// user's answer to the question which of them is the default. The store
/// knows every connected display; of two with one description it keeps the
/// one reported later. An answer that names none of the displays makes no
/// store.
pub fn setup(live: &Vec<Descriptor>, input: &str) -> (store: Option<Store>)
    ensures
        match store {
            Some(store) => selection_of(input@, live@.len()) matches Some(n) && store@
                == fresh_store(descriptor_views(live@), n as int),
            None => selection_of(input@, live@.len()) is None,
        },
{
    let selection = match parse_selection(input, live.len()) {
        Some(n) => n,
        None => {
            return None;
        },
    };
    let ghost displays = descriptor_views(live@);
    let mut store = Store::new(live[selection].description().clone(), Mode::Mirror);
    let mut i: usize = 0;
    while i < live.len()
        invariant
            i <= live@.len(),
            displays == descriptor_views(live@),
            selection < live@.len(),
            store@ == (StoreView {
                default: displays[selection as int].description,
                mode: Mode::Mirror,
                monitors: table_of(displays.take(i as int)),
            }),
        decreases live@.len() - i,
    {
        assert(displays.take(i as int + 1).drop_last() =~= displays.take(i as int));
        store.insert(live[i].clone());
        i = i + 1;
    }
    assert(displays.take(i as int) =~= displays);
    Some(store)
}

} // verus!
