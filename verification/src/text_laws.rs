//! What holds of texts, the numbers and addresses written in them, and the names made of
//! them.

use crate::kubernetes_name;
use crate::manifest::checks;
use crate::net;
use crate::text;
use vstd::prelude::*;

verus! {

// ---------------------------------------------------------------------------
// Numbers
// ---------------------------------------------------------------------------
proof fn lemma_digit(value: nat)
    requires
        value < 10,
    ensures
        '0' <= text::digit(value) <= '9',
        text::digit_value(text::digit(value)) == Some(value),
{
}

proof fn lemma_digits_read(value: nat)
    ensures
        text::digits_value(text::decimal(value)) == Some(value),
        text::decimal(value).len() > 0,
        forall|i: int|
            0 <= i < text::decimal(value).len() ==> '0' <= #[trigger] text::decimal(value)[i]
                <= '9',
    decreases value,
{
    if value < 10 {
        lemma_digit(value);
        let written = text::decimal(value);
        assert(written.drop_last() =~= Seq::empty());
        assert(text::digits_value(written.drop_last()) == Some(0nat));
    } else {
        lemma_digits_read(value / 10);
        lemma_digit(value % 10);
        assert(text::decimal(value).drop_last() =~= text::decimal(value / 10));
    }
}

/// A number that was written is read back, with or without a plus before it.
pub proof fn law_a_written_number_is_read_back(value: u64)
    ensures
        text::parsed_u64(text::decimal(value as nat)) == Some(value),
        text::parsed_u64(seq!['+'] + text::decimal(value as nat)) == Some(value),
{
    let written = text::decimal(value as nat);
    lemma_digits_read(value as nat);
    assert(written[0] != '+');
    assert((seq!['+'] + written).drop_first() =~= written);
}

/// A number beyond the largest is none, and so is anything that holds no digit or holds
/// anything but digits behind the plus.
pub proof fn law_only_numbers_are_read(content: Seq<char>, value: nat)
    ensures
        value > u64::MAX ==> text::parsed_u64(text::decimal(value)) is None,
        text::parsed_u64(content) is Some ==> content.len() > 0 && forall|i: int|
            0 < i < content.len() ==> '0' <= #[trigger] content[i] <= '9',
        text::parsed_u64(content) is Some ==> '0' <= content[0] <= '9' || (content[0] == '+'
            && content.len() > 1),
{
    lemma_digits_read(value);
    assert(text::decimal(value)[0] != '+');
    if text::parsed_u64(content) is Some {
        let digits = if content.len() > 0 && content[0] == '+' {
            content.drop_first()
        } else {
            content
        };
        lemma_only_digits(digits);
        assert forall|i: int| 0 < i < content.len() implies '0' <= #[trigger] content[i] <= '9' by {
            if content[0] == '+' {
                assert(content[i] == digits[i - 1]);
            } else {
                assert(content[i] == digits[i]);
            }
        }
        assert(content[0] != '+' ==> digits[0] == content[0]);
    }
}

proof fn lemma_only_digits(content: Seq<char>)
    requires
        text::digits_value(content) is Some,
    ensures
        forall|i: int| 0 <= i < content.len() ==> '0' <= #[trigger] content[i] <= '9',
    decreases content.len(),
{
    if content.len() > 0 {
        lemma_only_digits(content.drop_last());
        assert forall|i: int| 0 <= i < content.len() implies '0' <= #[trigger] content[i] <= '9' by {
            if i < content.len() - 1 {
                assert(content[i] == content.drop_last()[i]);
            }
        }
    }
}

/// A number below zero is written with a minus before what it is without its sign.
pub proof fn law_a_sign_stands_before_its_number(value: int)
    ensures
        value >= 0 ==> text::signed_decimal(value) == text::decimal(value as nat),
        value < 0 ==> text::signed_decimal(value)[0] == '-' && text::signed_decimal(
            value,
        ).drop_first() == text::decimal((-value) as nat),
{
    if value < 0 {
        assert(text::signed_decimal(value).drop_first() =~= text::decimal((-value) as nat));
    }
}

// ---------------------------------------------------------------------------
// Order, white space and pieces
// ---------------------------------------------------------------------------
/// The first place at which two texts differ decides which comes first, and a text comes
/// before all that go on from it.
pub proof fn law_the_first_difference_decides(
    front: Seq<char>,
    left: char,
    left_rest: Seq<char>,
    right: char,
    right_rest: Seq<char>,
)
    ensures
        left != right ==> (text::text_lt(
            front + (seq![left] + left_rest),
            front + (seq![right] + right_rest),
        ) <==> left < right),
        text::text_lt(front, front + (seq![right] + right_rest)),
        !text::text_lt(front + (seq![left] + left_rest), front),
    decreases front.len(),
{
    let one = front + (seq![left] + left_rest);
    let other = front + (seq![right] + right_rest);
    if front.len() == 0 {
        assert(one[0] == left);
        assert(other[0] == right);
    } else {
        let rest = front.drop_first();
        law_the_first_difference_decides(rest, left, left_rest, right, right_rest);
        assert(one.drop_first() =~= rest + (seq![left] + left_rest));
        assert(other.drop_first() =~= rest + (seq![right] + right_rest));
        assert(one[0] == front[0]);
        assert(other[0] == front[0]);
    }
}

/// What can be seen is no white space; blanks, tabs and the ends of lines are.
pub proof fn law_what_can_be_seen_is_no_white_space(character: char)
    ensures
        '!' <= character <= '~' ==> !text::white_space(character),
        text::white_space(' '),
        text::white_space('\t'),
        text::white_space('\n'),
        text::white_space('\r'),
{
}

/// Trimming takes white space from both ends of a text, all of it and nothing else.
pub proof fn law_only_white_space_is_trimmed(content: Seq<char>) -> (ends: (Seq<char>, Seq<char>))
    ensures
        content == ends.0 + text::trimmed(content) + ends.1,
        text::blank(ends.0),
        text::blank(ends.1),
        text::trimmed(content).len() > 0 ==> !text::white_space(text::trimmed(content)[0])
            && !text::white_space(text::trimmed(content).last()),
        text::trimmed(content).len() == 0 <==> text::blank(content),
    decreases content.len(),
{
    let none = Seq::<char>::empty();
    if content.len() == 0 {
        assert(content =~= none + text::trimmed(content) + none);
        (none, none)
    } else if text::white_space(content[0]) {
        let rest = content.drop_first();
        let (front, back) = law_only_white_space_is_trimmed(rest);
        let longer = seq![content[0]] + front;
        let kept = text::trimmed(rest);
        assert(content =~= seq![content[0]] + (front + kept + back));
        assert(seq![content[0]] + (front + kept + back) =~= longer + kept + back);
        assert forall|i: int| 0 <= i < longer.len() implies text::white_space(#[trigger] longer[i]) by {
            if i > 0 {
                assert(longer[i] == front[i - 1]);
            }
        }
        if text::blank(content) {
            assert forall|i: int| 0 <= i < rest.len() implies text::white_space(
                #[trigger] rest[i],
            ) by {
                assert(rest[i] == content[i + 1]);
            }
        }
        if text::blank(rest) {
            assert forall|i: int| 0 <= i < content.len() implies text::white_space(
                #[trigger] content[i],
            ) by {
                if i > 0 {
                    assert(content[i] == rest[i - 1]);
                }
            }
        }
        (longer, back)
    } else if text::white_space(content.last()) {
        let rest = content.drop_last();
        let (front, back) = law_only_white_space_is_trimmed(rest);
        let longer = back.push(content.last());
        let kept = text::trimmed(rest);
        assert(content =~= (front + kept + back).push(content.last()));
        assert((front + kept + back).push(content.last()) =~= front + kept + longer);
        assert forall|i: int| 0 <= i < longer.len() implies text::white_space(#[trigger] longer[i]) by {
            if i < back.len() {
                assert(longer[i] == back[i]);
            }
        }
        assert(!text::white_space(content[0]));
        assert(!text::blank(content));
        assert(rest[0] == content[0]);
        (front, longer)
    } else {
        assert(content =~= none + text::trimmed(content) + none);
        assert(!text::white_space(content[0]));
        (none, none)
    }
}

/// Letters are made small one by one; every other character stays.
pub proof fn law_letters_are_made_small(content: Seq<char>, at: int)
    requires
        0 <= at < content.len(),
    ensures
        text::ascii_small(content).len() == content.len(),
        'A' <= content[at] <= 'Z' ==> text::ascii_small(content)[at] as u32 == content[at] as u32
            + 32,
        !('A' <= content[at] <= 'Z') ==> text::ascii_small(content)[at] == content[at],
        !('A' <= text::ascii_small(content)[at] <= 'Z'),
{
}

/// A shortened text is the front of the text, as long as it may be.
pub proof fn law_a_shortened_text_is_its_front(content: Seq<char>, limit: nat)
    ensures
        text::shortened(content, limit as int).len() <= limit,
        content.len() <= limit ==> text::shortened(content, limit as int) == content,
        content.len() > limit ==> text::shortened(content, limit as int).len() == limit,
        forall|i: int|
            0 <= i < text::shortened(content, limit as int).len() ==> #[trigger] text::shortened(
                content,
                limit as int,
            )[i] == content[i],
{
}

/// A pattern stands in a text exactly where the text is something, the pattern and
/// something.
pub proof fn law_a_pattern_stands_between(content: Seq<char>, pattern: Seq<char>)
    ensures
        text::holds(content, pattern) <==> exists|front: Seq<char>, back: Seq<char>|
            content == #[trigger] (front + pattern + back),
{
    if text::holds(content, pattern) {
        let at = choose|at: int|
            0 <= at <= content.len() && #[trigger] text::opens_with(content.skip(at), pattern);
        let front = content.take(at);
        let back = content.skip(at + pattern.len());
        let shown = content.skip(at).take(pattern.len() as int);
        assert(shown == pattern);
        assert forall|i: int| 0 <= i < content.len() implies #[trigger] content[i] == (front
            + pattern + back)[i] by {
            if at <= i < at + pattern.len() {
                assert(shown[i - at] == content[i]);
            }
        }
        assert(content =~= front + pattern + back);
    }
    assert forall|front: Seq<char>, back: Seq<char>|
        content == #[trigger] (front + pattern + back) implies text::holds(content, pattern) by {
        let at = front.len() as int;
        assert(content.skip(at).take(pattern.len() as int) =~= pattern);
        assert(text::opens_with(content.skip(at), pattern));
    }
}

// ---------------------------------------------------------------------------
// Names
// ---------------------------------------------------------------------------
/// A small letter or a digit.
pub open spec fn plain(character: char) -> bool {
    'a' <= character <= 'z' || '0' <= character <= '9'
}

/// A name is one exactly where it has 1 to 63 characters, small letters, digits and hyphens
/// alone, and begins and ends with a letter or a digit.
pub proof fn law_a_name_is_made_of_small_letters(name: Seq<char>)
    ensures
        kubernetes_name::dns_label(name) <==> {
            &&& 1 <= name.len() <= 63
            &&& plain(name[0]) && plain(name[name.len() - 1])
            &&& forall|i: int|
                0 <= i < name.len() ==> plain(#[trigger] name[i]) || name[i] == '-'
        },
        kubernetes_name::dns_label(name) ==> checks::label_value(name),
        checks::label_value(name) ==> name.len() <= 63,
        checks::label_value(Seq::empty()),
{
    if kubernetes_name::dns_label(name) {
        assert forall|i: int| 0 <= i < name.len() implies checks::label_character(
            #[trigger] name[i],
        ) by {
            assert(kubernetes_name::small_alphanumeric(name[i]) || name[i] == '-');
        }
    }
    assert((forall|i: int| 0 <= i < name.len() ==> plain(#[trigger] name[i]) || name[i] == '-') ==> (
    forall|i: int|
        0 <= i < name.len() ==> kubernetes_name::small_alphanumeric(#[trigger] name[i]) || name[i]
            == '-'));
}

/// Two digits of sixteen stand in a text and are a byte.
pub open spec fn tells_byte(written: Seq<char>, at: int, byte: u8) -> bool {
    let high = net::digit_in(written[at], 16);
    let low = net::digit_in(written[at + 1], 16);
    &&& high is Some && low is Some
    &&& high->Some_0 * 16 + low->Some_0 == byte
}

/// Two digits tell a byte: read as numbers of sixteen digits they give it back.
pub proof fn law_two_digits_tell_a_byte(bytes: Seq<u8>, at: int)
    requires
        0 <= at < bytes.len(),
    ensures
        ({
            let written = kubernetes_name::hex(bytes);
            &&& written.len() == 2 * bytes.len()
            &&& plain(written[2 * at]) && plain(written[2 * at + 1])
            &&& tells_byte(written, 2 * at, bytes[at])
        }),
    decreases bytes.len(),
{
    let rest = bytes.drop_last();
    let last = bytes.last() as int;
    lemma_hex_length(bytes);
    lemma_hex_length(rest);
    lemma_hex_digit((last / 16) as nat);
    lemma_hex_digit((last % 16) as nat);
    if at < rest.len() {
        law_two_digits_tell_a_byte(rest, at);
        assert(kubernetes_name::hex(bytes)[2 * at] == kubernetes_name::hex(rest)[2 * at]);
        assert(kubernetes_name::hex(bytes)[2 * at + 1] == kubernetes_name::hex(rest)[2 * at + 1]);
        assert(rest[at] == bytes[at]);
    }
}

proof fn lemma_hex_digit(value: nat)
    requires
        value < 16,
    ensures
        plain(kubernetes_name::hex_digit(value as int)),
        net::digit_in(kubernetes_name::hex_digit(value as int), 16) == Some(value),
{
}

proof fn lemma_hex_length(bytes: Seq<u8>)
    ensures
        kubernetes_name::hex(bytes).len() == 2 * bytes.len(),
    decreases bytes.len(),
{
    if bytes.len() > 0 {
        lemma_hex_length(bytes.drop_last());
    }
}

/// A name of an instance is the front of what it is called, a hyphen and the first four
/// bytes of the digest of the instance; it is a name wherever what it is called is one.
pub proof fn law_a_scoped_name_is_a_name(base: Seq<char>, id: Seq<char>)
    requires
        kubernetes_name::sha256_of(id).len() >= 4,
    ensures
        ({
            let name = kubernetes_name::scoped_name(base, id);
            let front = text::shortened(base, 54);
            &&& name.len() == front.len() + 9
            &&& front.len() <= 54
            &&& forall|i: int| 0 <= i < front.len() ==> #[trigger] name[i] == base[i]
            &&& name[front.len() as int] == '-'
            &&& forall|i: int|
                0 <= i < 4 ==> tells_byte(
                    name,
                    front.len() + 1 + 2 * i,
                    #[trigger] kubernetes_name::sha256_of(id)[i],
                )
            &&& kubernetes_name::dns_label(base) ==> kubernetes_name::dns_label(name)
        }),
{
    reveal_strlit("-");
    let name = kubernetes_name::scoped_name(base, id);
    let front = text::shortened(base, 54);
    let bytes = kubernetes_name::sha256_of(id).take(4);
    let digits = kubernetes_name::hex(bytes);
    lemma_hex_length(bytes);
    assert(name.len() == front.len() + 9);
    assert forall|i: int| 0 <= i < front.len() implies #[trigger] name[i] == base[i] by {
        assert(front[i] == base[i]);
    }
    assert(name[front.len() as int] == '-');
    assert forall|i: int| 0 <= i < 4 implies tells_byte(
        name,
        front.len() + 1 + 2 * i,
        #[trigger] kubernetes_name::sha256_of(id)[i],
    ) by {
        law_two_digits_tell_a_byte(bytes, i);
        let at = front.len() + 1 + 2 * i;
        assert(name[at] == digits[2 * i]);
        assert(name[at + 1] == digits[2 * i + 1]);
        assert(bytes[i] == kubernetes_name::sha256_of(id)[i]);
    }
    if kubernetes_name::dns_label(base) {
        assert forall|i: int| 0 <= i < name.len() implies kubernetes_name::small_alphanumeric(
            #[trigger] name[i],
        ) || name[i] == '-' by {
            if i < front.len() {
                assert(name[i] == base[i]);
            } else if i > front.len() {
                let at = i - front.len() - 1;
                law_two_digits_tell_a_byte(bytes, at / 2);
                assert(name[i] == digits[at]);
                assert(at == 2 * (at / 2) || at == 2 * (at / 2) + 1);
            }
        }
        law_two_digits_tell_a_byte(bytes, 3);
        assert(name.last() == digits[7]);
        assert(name[0] == base[0]);
    }
}

} // verus!
