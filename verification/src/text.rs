//! Text as a sequence of characters: the operations on strings that the rest of
//! the library is stated over.

use vstd::prelude::*;
use vstd::string::*;

verus! {

/// `String::push`: the character goes to the end of the text.
pub assume_specification[ std::string::String::push ](buffer: &mut std::string::String, ch: char)
    ensures
        final(buffer)@ == old(buffer)@.push(ch),
;

/// What the `Debug` formatting of a string writes: the text in double quotes,
/// with escapes.
pub uninterp spec fn quoted_text(text: Seq<char>) -> Seq<char>;

/// `format!` with `{:?}` on a string. The result depends on the string alone;
/// which characters it escapes is left unsaid.
#[verifier::external_body]
pub(crate) fn quoted(value: &str) -> (result: String)
    ensures
        result@ == quoted_text(value@),
{
    format!("{value:?}")
}

/// Two string slices are equal when they hold the same characters.
pub fn same_text(left: &str, right: &str) -> (same: bool)
    ensures
        same == (left@ == right@),
{
    left.to_owned() == right.to_owned()
}

/// The characters of a string slice, in order.
pub fn characters(text: &str) -> (list: Vec<char>)
    ensures
        list@ == text@,
{
    let mut list: Vec<char> = Vec::new();
    for character in iter: text.chars()
        invariant
            iter.seq() == text@,
            list@ == text@.take(iter.index() as int),
    {
        list.push(character);
    }
    list
}

/// The text that holds `list[from..to]`.
pub fn text_of(list: &Vec<char>, from: usize, to: usize) -> (text: String)
    requires
        from <= to <= list@.len(),
    ensures
        text@ == list@.subrange(from as int, to as int),
{
    let mut text = String::new();
    let mut index: usize = from;
    while index < to
        invariant
            from <= index <= to <= list@.len(),
            text@ == list@.subrange(from as int, index as int),
        decreases to - index,
    {
        text.push(list[index]);
        index = index + 1;
        assert(list@.subrange(from as int, index as int) =~= list@.subrange(
            from as int,
            index - 1,
        ).push(list@[index - 1]));
    }
    text
}

// ---------------------------------------------------------------------------
// Order
// ---------------------------------------------------------------------------
/// The order of strings: the first character in which they differ decides, and a
/// proper prefix comes first.
pub open spec fn text_lt(left: Seq<char>, right: Seq<char>) -> bool
    decreases left.len(),
{
    if right.len() == 0 {
        false
    } else if left.len() == 0 {
        true
    } else if left[0] != right[0] {
        left[0] < right[0]
    } else {
        text_lt(left.drop_first(), right.drop_first())
    }
}

/// No text comes before itself.
pub proof fn lemma_text_lt_irreflexive(text: Seq<char>)
    ensures
        !text_lt(text, text),
    decreases text.len(),
{
    if text.len() > 0 {
        lemma_text_lt_irreflexive(text.drop_first());
    }
}

/// The order of texts is transitive.
pub proof fn lemma_text_lt_transitive(a: Seq<char>, b: Seq<char>, c: Seq<char>)
    requires
        text_lt(a, b),
        text_lt(b, c),
    ensures
        text_lt(a, c),
    decreases a.len(),
{
    if a.len() > 0 && b.len() > 0 && c.len() > 0 && a[0] == b[0] && b[0] == c[0] {
        lemma_text_lt_transitive(a.drop_first(), b.drop_first(), c.drop_first());
    }
}

/// Of two different texts one comes before the other.
pub proof fn lemma_text_lt_total(a: Seq<char>, b: Seq<char>)
    ensures
        a == b || text_lt(a, b) || text_lt(b, a),
    decreases a.len(),
{
    if a.len() > 0 && b.len() > 0 && a[0] == b[0] {
        lemma_text_lt_total(a.drop_first(), b.drop_first());
        if a.drop_first() == b.drop_first() {
            assert(a =~= seq![a[0]] + a.drop_first());
            assert(b =~= seq![b[0]] + b.drop_first());
        }
    } else if a.len() == 0 && b.len() == 0 {
        assert(a =~= b);
    }
}

/// Whether `left` comes before `right`.
pub fn text_before(left: &str, right: &str) -> (before: bool)
    ensures
        before == text_lt(left@, right@),
{
    let a = characters(left);
    let b = characters(right);
    let mut index: usize = 0;
    assert(a@.skip(0) =~= a@ && b@.skip(0) =~= b@);
    while index < a.len() && index < b.len() && a[index] == b[index]
        invariant
            index <= a.len(),
            index <= b.len(),
            text_lt(a@, b@) == text_lt(a@.skip(index as int), b@.skip(index as int)),
        decreases a.len() - index,
    {
        assert(a@.skip(index as int).drop_first() =~= a@.skip(index + 1));
        assert(b@.skip(index as int).drop_first() =~= b@.skip(index + 1));
        index = index + 1;
    }
    if index >= b.len() {
        false
    } else if index >= a.len() {
        true
    } else {
        a[index] < b[index]
    }
}

// ---------------------------------------------------------------------------
// White space
// ---------------------------------------------------------------------------
/// The characters with the Unicode property `White_Space`.
pub open spec fn white_space(character: char) -> bool {
    let code = character as u32;
    ||| 0x9 <= code <= 0xd
    ||| code == 0x20
    ||| code == 0x85
    ||| code == 0xa0
    ||| code == 0x1680
    ||| 0x2000 <= code <= 0x200a
    ||| code == 0x2028
    ||| code == 0x2029
    ||| code == 0x202f
    ||| code == 0x205f
    ||| code == 0x3000
}

/// Whether a character is white space.
pub fn is_white_space(character: char) -> (white: bool)
    ensures
        white == white_space(character),
{
    let code: u32 = character as u32;
    (0x9 <= code && code <= 0xd) || code == 0x20 || code == 0x85 || code == 0xa0 || code == 0x1680
        || (0x2000 <= code && code <= 0x200a) || code == 0x2028 || code == 0x2029 || code == 0x202f
        || code == 0x205f || code == 0x3000
}

/// A text that holds nothing but white space, if anything at all.
pub open spec fn blank(text: Seq<char>) -> bool {
    forall|i: int| 0 <= i < text.len() ==> white_space(#[trigger] text[i])
}

/// Whether nothing is left of a text once white space is trimmed.
pub fn is_blank(text: &str) -> (result: bool)
    ensures
        result == blank(text@),
{
    let list = characters(text);
    let mut index: usize = 0;
    while index < list.len()
        invariant
            index <= list.len(),
            list@ == text@,
            forall|i: int| 0 <= i < index ==> white_space(#[trigger] text@[i]),
        decreases list.len() - index,
    {
        if !is_white_space(list[index]) {
            return false;
        }
        index = index + 1;
    }
    true
}

/// A text without the white space at its two ends.
pub open spec fn trimmed(text: Seq<char>) -> Seq<char>
    decreases text.len(),
{
    if text.len() == 0 {
        text
    } else if white_space(text[0]) {
        trimmed(text.drop_first())
    } else if white_space(text.last()) {
        trimmed(text.drop_last())
    } else {
        text
    }
}

/// The text without the white space at its two ends.
pub fn trim(text: &str) -> (result: String)
    ensures
        result@ == trimmed(text@),
{
    let list = characters(text);
    let mut from: usize = 0;
    let mut to: usize = list.len();
    assert(list@.subrange(0, to as int) =~= list@);
    while from < to && is_white_space(list[from])
        invariant
            from <= to == list.len(),
            trimmed(list@) == trimmed(list@.subrange(from as int, to as int)),
        decreases to - from,
    {
        let ghost rest = list@.subrange(from as int, to as int);
        assert(rest.drop_first() =~= list@.subrange(from + 1, to as int));
        from = from + 1;
    }
    while from < to && is_white_space(list[to - 1])
        invariant
            from <= to <= list.len(),
            from < to ==> !white_space(list@[from as int]),
            trimmed(list@) == trimmed(list@.subrange(from as int, to as int)),
        decreases to - from,
    {
        let ghost rest = list@.subrange(from as int, to as int);
        assert(rest.drop_last() =~= list@.subrange(from as int, to - 1));
        assert(rest[0] == list@[from as int]);
        assert(rest.last() == list@[to - 1]);
        to = to - 1;
    }
    let ghost rest = list@.subrange(from as int, to as int);
    assert(from < to ==> rest[0] == list@[from as int] && rest.last() == list@[to - 1]);
    text_of(&list, from, to)
}

// ---------------------------------------------------------------------------
// Numbers
// ---------------------------------------------------------------------------
/// The decimal digit of a number below ten.
pub open spec fn digit(value: nat) -> char {
    (48 + value) as char
}

/// A number in decimal digits, without leading zeroes.
pub open spec fn decimal(value: nat) -> Seq<char>
    decreases value,
{
    if value < 10 {
        seq![digit(value)]
    } else {
        decimal(value / 10).push(digit(value % 10))
    }
}

/// A decimal number is written in digits, at least one.
pub proof fn lemma_decimal_digits(value: nat)
    ensures
        decimal(value).len() > 0,
        forall|i: int| 0 <= i < decimal(value).len() ==> '0' <= #[trigger] decimal(value)[i] <= '9',
    decreases value,
{
    if value >= 10 {
        lemma_decimal_digits(value / 10);
    }
}

/// Two numbers that are written alike are equal.
pub proof fn lemma_decimal_injective(left: nat, right: nat)
    requires
        decimal(left) == decimal(right),
    ensures
        left == right,
    decreases left,
{
    lemma_decimal_digits(left / 10);
    lemma_decimal_digits(right / 10);
    if left < 10 && right >= 10 {
        assert(decimal(right).len() == decimal(right / 10).len() + 1);
    } else if left >= 10 && right < 10 {
        assert(decimal(left).len() == decimal(left / 10).len() + 1);
    } else if left < 10 {
        assert(decimal(left)[0] == digit(left));
        assert(decimal(right)[0] == digit(right));
    } else {
        assert(decimal(left).drop_last() =~= decimal(left / 10));
        assert(decimal(right).drop_last() =~= decimal(right / 10));
        lemma_decimal_injective(left / 10, right / 10);
        assert(decimal(left).last() == digit(left % 10));
        assert(decimal(right).last() == digit(right % 10));
    }
}

/// A whole number in decimal digits, with a sign where it is negative.
pub open spec fn signed_decimal(value: int) -> Seq<char> {
    if value < 0 {
        seq!['-'] + decimal((-value) as nat)
    } else {
        decimal(value as nat)
    }
}

fn digit_character(value: u64) -> (character: char)
    requires
        value < 10,
    ensures
        character == digit(value as nat),
{
    match value {
        0 => '0',
        1 => '1',
        2 => '2',
        3 => '3',
        4 => '4',
        5 => '5',
        6 => '6',
        7 => '7',
        8 => '8',
        _ => '9',
    }
}

/// A number in decimal digits.
pub fn decimal_text(value: u64) -> (text: String)
    ensures
        text@ == decimal(value as nat),
    decreases value,
{
    if value < 10 {
        let mut text = String::new();
        text.push(digit_character(value));
        assert(text@ =~= seq![digit(value as nat)]);
        text
    } else {
        let mut text = decimal_text(value / 10);
        text.push(digit_character(value % 10));
        text
    }
}

/// A large number in decimal digits.
pub fn wide_decimal_text(value: u128) -> (text: String)
    ensures
        text@ == decimal(value as nat),
    decreases value,
{
    if value < 10 {
        let mut text = String::new();
        text.push(digit_character(value as u64));
        assert(text@ =~= seq![digit(value as nat)]);
        text
    } else {
        let mut text = wide_decimal_text(value / 10);
        text.push(digit_character((value % 10) as u64));
        text
    }
}

/// A whole number in decimal digits.
pub fn signed_decimal_text(value: i64) -> (text: String)
    ensures
        text@ == signed_decimal(value as int),
{
    if value < 0 {
        let mut text = String::new();
        text.push('-');
        let magnitude: u64 = (-(value as i128)) as u64;
        text.append(decimal_text(magnitude).as_str());
        assert(text@ =~= seq!['-'] + decimal(magnitude as nat));
        text
    } else {
        decimal_text(value as u64)
    }
}

/// The value of a decimal digit.
pub open spec fn digit_value(character: char) -> Option<nat> {
    if '0' <= character <= '9' {
        Some((character as u32 - 48) as nat)
    } else {
        None
    }
}

/// The number that a sequence of decimal digits writes; `None` where some
/// character is no digit.
pub open spec fn digits_value(text: Seq<char>) -> Option<nat>
    decreases text.len(),
{
    if text.len() == 0 {
        Some(0nat)
    } else {
        match (digits_value(text.drop_last()), digit_value(text.last())) {
            (Some(high), Some(low)) => Some(high * 10 + low),
            _ => None,
        }
    }
}

/// The number that a text writes, as an unsigned number of 64 bits is read: an
/// optional plus sign, then at least one decimal digit, and no more than fits.
pub open spec fn parsed_u64(text: Seq<char>) -> Option<u64> {
    let digits = if text.len() > 0 && text[0] == '+' {
        text.drop_first()
    } else {
        text
    };
    match digits_value(digits) {
        Some(value) if digits.len() > 0 && value <= u64::MAX => Some(value as u64),
        _ => None,
    }
}

proof fn lemma_digits_value_grows(text: Seq<char>, length: int)
    requires
        0 <= length <= text.len(),
    ensures
        digits_value(text) is Some ==> digits_value(text.take(length)) is Some && digits_value(
            text.take(length),
        )->0 <= digits_value(text)->0,
    decreases text.len() - length,
{
    if length < text.len() {
        lemma_digits_value_grows(text, length + 1);
        assert(text.take(length + 1).drop_last() =~= text.take(length));
    } else {
        assert(text.take(length) =~= text);
    }
}

/// Reads an unsigned number of 64 bits.
pub fn parse_u64(text: &str) -> (result: Option<u64>)
    ensures
        result == parsed_u64(text@),
{
    let list = characters(text);
    let start: usize = if list.len() > 0 && list[0] == '+' {
        1
    } else {
        0
    };
    let ghost digits = list@.skip(start as int);
    proof {
        if start == 0 {
            assert(digits =~= text@);
        } else {
            assert(digits =~= text@.drop_first());
        }
    }
    if start >= list.len() {
        return None;
    }
    let mut value: u64 = 0;
    let mut index: usize = start;
    while index < list.len()
        invariant
            start <= index <= list.len(),
            start < list.len(),
            digits == list@.skip(start as int),
            parsed_u64(text@) == (match digits_value(digits) {
                Some(total) if total <= u64::MAX => Some(total as u64),
                _ => None,
            }),
            digits_value(digits.take(index - start)) == Some(value as nat),
        decreases list.len() - index,
    {
        let character = list[index];
        proof {
            let next = digits.take(index - start + 1);
            assert(next.drop_last() =~= digits.take(index - start));
            assert(next.last() == character);
            lemma_digits_value_grows(digits, index - start + 1);
        }
        if character < '0' || character > '9' {
            return None;
        }
        let low: u64 = (character as u32 - 48) as u64;
        match value.checked_mul(10) {
            None => {
                return None;
            },
            Some(shifted) => {
                match shifted.checked_add(low) {
                    None => {
                        return None;
                    },
                    Some(next) => {
                        value = next;
                    },
                }
            },
        }
        index = index + 1;
    }
    assert(digits.take(index - start) =~= digits);
    Some(value)
}

// ---------------------------------------------------------------------------
// Parts of a text
// ---------------------------------------------------------------------------
/// `text` opens with `prefix`.
pub open spec fn opens_with(text: Seq<char>, prefix: Seq<char>) -> bool {
    prefix.len() <= text.len() && text.take(prefix.len() as int) == prefix
}

/// `text` ends with `suffix`.
pub open spec fn closes_with(text: Seq<char>, suffix: Seq<char>) -> bool {
    suffix.len() <= text.len() && text.skip(text.len() - suffix.len()) == suffix
}

/// `pattern` stands in `text` at some place.
pub open spec fn holds(text: Seq<char>, pattern: Seq<char>) -> bool {
    exists|at: int| 0 <= at <= text.len() && #[trigger] opens_with(text.skip(at), pattern)
}

/// Whether `list` holds the characters of `pattern` from `at` on.
pub fn stands_at(list: &Vec<char>, at: usize, pattern: &Vec<char>) -> (result: bool)
    requires
        at <= list@.len(),
    ensures
        result == opens_with(list@.skip(at as int), pattern@),
{
    if list.len() - at < pattern.len() {
        return false;
    }
    let mut index: usize = 0;
    while index < pattern.len()
        invariant
            at <= list.len(),
            pattern.len() <= list.len() - at,
            index <= pattern.len(),
            forall|i: int| 0 <= i < index ==> #[trigger] pattern@[i] == list@[at + i],
        decreases pattern.len() - index,
    {
        if list[at + index] != pattern[index] {
            assert(list@.skip(at as int).take(pattern@.len() as int)[index as int]
                != pattern@[index as int]);
            return false;
        }
        index = index + 1;
    }
    assert(list@.skip(at as int).take(pattern@.len() as int) =~= pattern@);
    true
}

/// Whether `text` opens with `prefix`.
pub fn starts_with(text: &str, prefix: &str) -> (result: bool)
    ensures
        result == opens_with(text@, prefix@),
{
    let list = characters(text);
    assert(list@.skip(0) =~= text@);
    stands_at(&list, 0, &characters(prefix))
}

/// Whether `text` ends with `suffix`.
pub fn ends_with(text: &str, suffix: &str) -> (result: bool)
    ensures
        result == closes_with(text@, suffix@),
{
    let list = characters(text);
    let tail = characters(suffix);
    if tail.len() > list.len() {
        return false;
    }
    let result = stands_at(&list, list.len() - tail.len(), &tail);
    proof {
        let rest = text@.skip(text@.len() - suffix@.len());
        assert(rest.take(suffix@.len() as int) =~= rest);
    }
    result
}

/// Whether `text` holds `pattern` anywhere.
pub fn contains(text: &str, pattern: &str) -> (result: bool)
    ensures
        result == holds(text@, pattern@),
{
    let list = characters(text);
    let needle = characters(pattern);
    let mut at: usize = 0;
    loop
        invariant
            at <= list.len(),
            list@ == text@,
            needle@ == pattern@,
            forall|i: int| 0 <= i < at ==> !#[trigger] opens_with(text@.skip(i), pattern@),
        decreases list.len() - at,
    {
        if stands_at(&list, at, &needle) {
            return true;
        }
        if at == list.len() {
            return false;
        }
        at = at + 1;
    }
}

/// The text with each ASCII capital letter made small.
pub open spec fn ascii_small(text: Seq<char>) -> Seq<char> {
    text.map_values(|c: char| small_letter(c))
}

/// An ASCII capital letter made small; any other character as it is.
pub open spec fn small_letter(character: char) -> char {
    if 'A' <= character <= 'Z' {
        (character as u32 + 32) as char
    } else {
        character
    }
}

fn small_character(character: char) -> (result: char)
    ensures
        result == small_letter(character),
{
    if 'A' <= character && character <= 'Z' {
        ((character as u8) + 32) as char
    } else {
        character
    }
}

/// The text with each ASCII capital letter made small.
pub fn to_ascii_small(text: &str) -> (result: String)
    ensures
        result@ == ascii_small(text@),
{
    let list = characters(text);
    let mut result = String::new();
    let mut index: usize = 0;
    while index < list.len()
        invariant
            index <= list.len(),
            result@ == ascii_small(list@.take(index as int)),
        decreases list.len() - index,
    {
        result.push(small_character(list[index]));
        index = index + 1;
        assert(ascii_small(list@.take(index as int)) =~= ascii_small(
            list@.take(index - 1),
        ).push(small_letter(list@[index - 1])));
    }
    assert(list@.take(index as int) =~= text@);
    result
}

/// The first `limit` characters of a text, or all of it where it is shorter.
pub open spec fn shortened(text: Seq<char>, limit: int) -> Seq<char> {
    if text.len() <= limit {
        text
    } else {
        text.take(limit)
    }
}

/// The first `limit` characters of a text.
pub fn shorten(text: &str, limit: usize) -> (result: String)
    ensures
        result@ == shortened(text@, limit as int),
{
    let list = characters(text);
    let to: usize = if list.len() <= limit {
        list.len()
    } else {
        limit
    };
    let result = text_of(&list, 0, to);
    assert(result@ =~= shortened(text@, limit as int));
    result
}

} // verus!
