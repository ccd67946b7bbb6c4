//! Addresses that are written are read back.

use crate::net::{self, IpAddr, NumberForm, SocketAddr};
use crate::text;
use vstd::prelude::*;

verus! {

// ---------------------------------------------------------------------------
// Numbers in a text
// ---------------------------------------------------------------------------
/// A text stands in another at a place.
pub open spec fn stands(content: Seq<char>, at: int, piece: Seq<char>) -> bool {
    0 <= at && at + piece.len() <= content.len() && content.subrange(at, at + piece.len()) == piece
}

/// No digit stands at a place, be it because the text ends there.
pub open spec fn ends_number(content: Seq<char>, at: int, radix: nat) -> bool {
    at >= content.len() || net::digit_in(content[at], radix) is None
}

proof fn lemma_whole_stands(content: Seq<char>)
    ensures
        stands(content, 0, content),
{
    assert(content.subrange(0, content.len() as int) =~= content);
}

proof fn lemma_digits_end(content: Seq<char>, at: int, end: int, radix: nat)
    requires
        0 <= at <= end <= content.len(),
        forall|i: int| at <= i < end ==> net::digit_in(#[trigger] content[i], radix) is Some,
        ends_number(content, end, radix),
    ensures
        net::digits_end(content, at, radix) == end,
    decreases end - at,
{
    if at < end {
        lemma_digits_end(content, at + 1, end, radix);
    }
}

proof fn lemma_decimal_read(content: Seq<char>, at: int, value: nat)
    requires
        stands(content, at, text::decimal(value)),
    ensures
        net::number_between(content, at, at + text::decimal(value).len(), 10) == value,
        forall|i: int|
            at <= i < at + text::decimal(value).len() ==> net::digit_in(#[trigger] content[i], 10)
                is Some,
        text::decimal(value).len() > 0,
        value >= 10 ==> content[at] != '0',
        value < 10 ==> text::decimal(value).len() == 1,
        value < 100 ==> text::decimal(value).len() <= 2,
        value < 1000 ==> text::decimal(value).len() <= 3,
    decreases value,
{
    let written = text::decimal(value);
    let end = at + written.len();
    assert forall|i: int| at <= i < end implies #[trigger] content[i] == written[i - at] by {
        assert(content.subrange(at, end)[i - at] == content[i]);
    }
    if value < 10 {
        assert(content[at] == text::digit(value));
        assert(net::digit_in(content[at], 10) == Some(value));
        reveal_with_fuel(net::number_between, 3);
        assert(net::number_between(content, at, at, 10) == 0);
    } else {
        let front = text::decimal(value / 10);
        assert(content.subrange(at, at + front.len()) =~= front);
        lemma_decimal_read(content, at, value / 10);
        assert(content[end - 1] == text::digit(value % 10));
        assert(net::digit_in(content[end - 1], 10) == Some(value % 10));
        assert(net::number_between(content, at, end, 10) == net::number_between(
            content,
            at,
            end - 1,
            10,
        ) * 10 + value % 10);
        if value < 100 {
            assert(content[at] == text::digit(value / 10));
            assert(value / 10 > 0);
        }
    }
}

/// A number that stands in a text, with no digit behind it, is read as that number up to
/// where it ends, as long as it keeps to its form.
pub proof fn law_a_number_is_read_where_it_stands(
    content: Seq<char>,
    at: int,
    value: nat,
    form: NumberForm,
)
    requires
        stands(content, at, text::decimal(value)),
        ends_number(content, at + text::decimal(value).len(), 10),
        form.radix == 10,
        value <= form.limit,
        form.max_digits is Some ==> text::decimal(value).len() <= form.max_digits->Some_0,
    ensures
        net::number_at(content, at, form) == Some((value, at + text::decimal(value).len())),
{
    lemma_decimal_read(content, at, value);
    lemma_digits_end(content, at, at + text::decimal(value).len(), 10);
}

/// A number of sixteen digits is read back from how it is written.
pub proof fn law_a_hexadecimal_is_read_back(value: nat)
    ensures
        net::number_between(net::hexadecimal(value), 0, net::hexadecimal(value).len() as int, 16)
            == value,
        net::hexadecimal(value).len() > 0,
        forall|i: int|
            0 <= i < net::hexadecimal(value).len() ==> net::digit_in(
                #[trigger] net::hexadecimal(value)[i],
                16,
            ) is Some,
        value < 65536 ==> net::hexadecimal(value).len() <= 4,
        value >= 16 ==> net::hexadecimal(value)[0] != '0',
    decreases value,
{
    let written = net::hexadecimal(value);
    let digit = net::hex_digit(value % 16);
    assert(net::digit_in(digit, 16) == Some(value % 16));
    if value < 16 {
        reveal_with_fuel(net::number_between, 3);
        assert(written[0] == net::hex_digit(value));
        assert(net::number_between(written, 0, 0, 16) == 0);
    } else {
        let front = net::hexadecimal(value / 16);
        law_a_hexadecimal_is_read_back(value / 16);
        lemma_same_front(front, written, front.len() as int, 16);
        assert(written[written.len() - 1] == digit);
        assert(net::number_between(written, 0, written.len() as int, 16) == net::number_between(
            written,
            0,
            written.len() - 1,
            16,
        ) * 16 + value % 16);
        assert(written[0] == front[0]);
        if value / 16 < 16 {
            assert(front[0] == net::hex_digit(value / 16));
        }
        lemma_hexadecimal_length(value);
    }
}

proof fn lemma_hexadecimal_length(value: nat)
    ensures
        value < 16 ==> net::hexadecimal(value).len() == 1,
        value < 256 ==> net::hexadecimal(value).len() <= 2,
        value < 4096 ==> net::hexadecimal(value).len() <= 3,
        value < 65536 ==> net::hexadecimal(value).len() <= 4,
    decreases value,
{
    if value >= 16 {
        lemma_hexadecimal_length(value / 16);
    }
}

proof fn lemma_same_front(left: Seq<char>, right: Seq<char>, to: int, radix: nat)
    requires
        0 <= to <= left.len(),
        to <= right.len(),
        forall|i: int| 0 <= i < to ==> left[i] == #[trigger] right[i],
    ensures
        net::number_between(left, 0, to, radix) == net::number_between(right, 0, to, radix),
    decreases to,
{
    if to > 0 {
        lemma_same_front(left, right, to - 1, radix);
        assert(left[to - 1] == right[to - 1]);
    }
}

// ---------------------------------------------------------------------------
// Addresses of version 4
// ---------------------------------------------------------------------------
proof fn lemma_octet(content: Seq<char>, at: int, value: nat)
    requires
        stands(content, at, text::decimal(value)),
        ends_number(content, at + text::decimal(value).len(), 10),
        value < 256,
    ensures
        net::number_at(content, at, net::octet_form()) == Some(
            (value, at + text::decimal(value).len()),
        ),
{
    lemma_decimal_read(content, at, value);
    law_a_number_is_read_where_it_stands(content, at, value, net::octet_form());
}

proof fn lemma_pieces_stand(content: Seq<char>, at: int, front: Seq<char>, back: Seq<char>)
    requires
        stands(content, at, front + back),
    ensures
        stands(content, at, front),
        stands(content, at + front.len(), back),
{
    let both = front + back;
    let shown = content.subrange(at, at + both.len());
    assert forall|i: int| at <= i < at + both.len() implies #[trigger] content[i] == both[i - at] by {
        assert(shown[i - at] == content[i]);
    }
    assert(content.subrange(at, at + front.len()) =~= front);
    let place = at + front.len();
    assert forall|i: int| 0 <= i < back.len() implies #[trigger] content.subrange(
        place,
        place + back.len(),
    )[i] == back[i] by {
        assert(content[place + i] == both[front.len() + i]);
    }
    assert(content.subrange(place, place + back.len()) =~= back);
}

proof fn lemma_next_octet(content: Seq<char>, at: int, index: int, so_far: nat, value: nat)
    requires
        0 <= index < 4,
        value < 256,
        index == 0 ==> stands(content, at, text::decimal(value)),
        index > 0 ==> stands(content, at, "."@) && stands(content, at + 1, text::decimal(value)),
        ends_number(
            content,
            at + text::decimal(value).len() + if index == 0 {
                0int
            } else {
                1int
            },
            10,
        ),
    ensures
        net::octets_at(content, at, index, so_far) == net::octets_at(
            content,
            at + text::decimal(value).len() + if index == 0 {
                0int
            } else {
                1int
            },
            index + 1,
            so_far * 256 + value,
        ),
{
    reveal_strlit(".");
    if index > 0 {
        assert(content.subrange(at, at + 1)[0] == content[at]);
        assert(content[at] == '.');
        lemma_octet(content, at + 1, value);
    } else {
        lemma_octet(content, at, value);
    }
}

/// An address is read where it stands in a text that goes on with no digit.
proof fn lemma_v4_read(content: Seq<char>, at: int, address: nat)
    requires
        address < 0x1_0000_0000,
        stands(content, at, net::written_v4(address)),
        ends_number(content, at + net::written_v4(address).len(), 10),
    ensures
        net::ipv4_at(content, at) == Some((address, at + net::written_v4(address).len())),
{
    let a = address / 16777216;
    let b = address / 65536 % 256;
    let c = address / 256 % 256;
    let d = address % 256;
    let da = text::decimal(a);
    let db = text::decimal(b);
    let dc = text::decimal(c);
    let dd = text::decimal(d);
    let dot = "."@;
    assert(dot.len() == 1 && net::digit_in('.', 10) is None && dot[0] == '.') by {
        reveal_strlit(".");
    }
    lemma_pieces_stand(content, at, da + dot + db + dot + dc + dot, dd);
    lemma_pieces_stand(content, at, da + dot + db + dot + dc, dot);
    lemma_pieces_stand(content, at, da + dot + db + dot, dc);
    lemma_pieces_stand(content, at, da + dot + db, dot);
    lemma_pieces_stand(content, at, da + dot, db);
    lemma_pieces_stand(content, at, da, dot);
    let pb: int = at + da.len() as int;
    let pc: int = pb + 1 + db.len() as int;
    let pd: int = pc + 1 + dc.len() as int;
    let end: int = pd + 1 + dd.len() as int;
    assert(content.subrange(pb, pb + 1)[0] == content[pb]);
    assert(content.subrange(pc, pc + 1)[0] == content[pc]);
    assert(content.subrange(pd, pd + 1)[0] == content[pd]);
    lemma_next_octet(content, at, 0, 0, a);
    lemma_next_octet(content, pb, 1, a, b);
    lemma_next_octet(content, pc, 2, a * 256 + b, c);
    lemma_next_octet(content, pd, 3, (a * 256 + b) * 256 + c, d);
    assert(((a * 256 + b) * 256 + c) * 256 + d == address);
    assert(net::octets_at(content, end, 4, address) == Some((address, end)));
}

/// An address of version 4 is read back from how it is written.
pub proof fn law_a_v4_address_is_read_back(address: u32)
    ensures
        net::parsed_ip(net::written_v4(address as nat)) == Some(IpAddr::V4(address)),
{
    lemma_whole_stands(net::written_v4(address as nat));
    lemma_v4_read(net::written_v4(address as nat), 0, address as nat);
}

/// A socket of version 4 is read back from how it is written: the address, a colon and the
/// port.
pub proof fn law_a_v4_socket_is_read_back(address: u32, port: u16)
    ensures
        ({
            let socket = SocketAddr { ip: IpAddr::V4(address), port, scope_id: 0 };
            net::parsed_socket(net::written_socket(socket)) == Some(socket)
        }),
{
    reveal_strlit(":");
    let socket = SocketAddr { ip: IpAddr::V4(address), port, scope_id: 0 };
    let host = net::written_v4(address as nat);
    let number = text::decimal(port as nat);
    let content = net::written_socket(socket);
    let place = host.len() as int;
    assert(content == host + ":"@ + number);
    assert(content.subrange(0, place) =~= host);
    assert(content[place] == ':');
    assert(net::digit_in(':', 10) is None);
    lemma_v4_read(content, 0, address as nat);
    assert(content.subrange(place + 1, place + 1 + number.len()) =~= number);
    law_a_number_is_read_where_it_stands(content, place + 1, port as nat, net::port_form());
}

/// An address and its port are all of a socket: anything that stands behind them makes it
/// none.
pub proof fn law_a_socket_is_nothing_more(address: u32, number: nat, rest: Seq<char>)
    requires
        rest.len() > 0,
        net::digit_in(rest[0], 10) is None,
        number <= 65535,
    ensures
        net::parsed_socket(
            net::written_v4(address as nat) + ":"@ + text::decimal(number) + rest,
        ) is None,
{
    reveal_strlit(":");
    let host = net::written_v4(address as nat);
    let written = text::decimal(number);
    let content = host + ":"@ + written + rest;
    let place = host.len() as int;
    assert(content.subrange(0, place) =~= host);
    assert(content[place] == ':');
    assert(net::digit_in(':', 10) is None);
    lemma_v4_read(content, 0, address as nat);
    assert(content.subrange(place + 1, place + 1 + written.len()) =~= written);
    assert(content[place + 1 + written.len()] == rest[0]);
    law_a_number_is_read_where_it_stands(content, place + 1, number, net::port_form());
}

// ---------------------------------------------------------------------------
// Addresses of version 6
// ---------------------------------------------------------------------------
/// Groups that an address is taken apart into give the address back.
pub proof fn law_groups_give_the_address_back(address: nat, count: nat)
    requires
        address < pow_groups(count),
    ensures
        net::groups_of(address, count).len() == count,
        net::joined(net::groups_of(address, count)) == address,
    decreases count,
{
    if count > 0 {
        assert(address / 65536 < pow_groups((count - 1) as nat)) by (nonlinear_arith)
            requires
                address < 65536 * pow_groups((count - 1) as nat),
        ;
        law_groups_give_the_address_back(address / 65536, (count - 1) as nat);
        let groups = net::groups_of(address, count);
        assert(groups.drop_last() =~= net::groups_of(address / 65536, (count - 1) as nat));
    }
}

/// How many addresses so many groups tell apart.
pub open spec fn pow_groups(count: nat) -> nat
    decreases count,
{
    if count == 0 {
        1
    } else {
        65536 * pow_groups((count - 1) as nat)
    }
}

/// The stretch of zeroes that is left out is one, and none is longer; of several that are as
/// long it is the first.
pub proof fn law_the_longest_zeroes_are_left_out(groups: Seq<u16>, to: int, other: int)
    requires
        0 <= to <= groups.len(),
    ensures
        ({
            let (start, length) = net::longest_zeroes(groups, to);
            &&& length >= 0
            &&& length > 0 ==> 0 <= start < to && length == net::zeroes_at(groups, start)
            &&& 0 <= other < to ==> net::zeroes_at(groups, other) <= length
            &&& 0 <= other < start && length > 0 ==> net::zeroes_at(groups, other) < length
        }),
    decreases to,
{
    if to > 0 {
        law_the_longest_zeroes_are_left_out(groups, to - 1, other);
    }
}

/// A stretch of zeroes is zeroes, and ends where there is none.
pub proof fn law_zeroes_are_zero(groups: Seq<u16>, at: int)
    requires
        0 <= at <= groups.len(),
    ensures
        ({
            let length = net::zeroes_at(groups, at);
            &&& 0 <= length <= groups.len() - at
            &&& forall|i: int| at <= i < at + length ==> #[trigger] groups[i] == 0
            &&& at + length < groups.len() ==> groups[at + length] != 0
        }),
    decreases groups.len() - at,
{
    if at < groups.len() && groups[at] == 0 {
        law_zeroes_are_zero(groups, at + 1);
    }
}

/// A character that ends a group and begins no other.
pub open spec fn ends_group(content: Seq<char>, at: int) -> bool {
    at >= content.len() || (net::digit_in(content[at], 16) is None && content[at] != '.')
}

/// No group follows at a place.
pub open spec fn ends_groups(content: Seq<char>, at: int) -> bool {
    &&& ends_group(content, at)
    &&& at >= content.len() || content[at] != ':' || at + 1 >= content.len() || net::digit_in(
        content[at + 1],
        16,
    ) is None
}

proof fn lemma_number_where_it_stands(
    content: Seq<char>,
    at: int,
    piece: Seq<char>,
    to: int,
    radix: nat,
)
    requires
        stands(content, at, piece),
        0 <= to <= piece.len(),
    ensures
        net::number_between(content, at, at + to, radix) == net::number_between(piece, 0, to, radix),
    decreases to,
{
    if to > 0 {
        lemma_number_where_it_stands(content, at, piece, to - 1, radix);
        assert(content.subrange(at, at + piece.len())[to - 1] == content[at + to - 1]);
    }
}

proof fn lemma_decimal_inside(content: Seq<char>, at: int, end: int)
    requires
        0 <= at <= end <= content.len(),
        ends_number(content, end, 16),
    ensures
        at <= net::digits_end(content, at, 10) <= end,
    decreases end - at,
{
    if at < end && net::digit_in(content[at], 10) is Some {
        lemma_decimal_inside(content, at + 1, end);
    }
}

/// A group of sixteen digits is read where it stands, and is no address of version 4.
proof fn lemma_group(content: Seq<char>, at: int, value: nat)
    requires
        value < 65536,
        stands(content, at, net::hexadecimal(value)),
        ends_group(content, at + net::hexadecimal(value).len()),
    ensures
        net::number_at(content, at, net::group_form()) == Some(
            (value, at + net::hexadecimal(value).len()),
        ),
        net::ipv4_at(content, at) is None,
{
    let piece = net::hexadecimal(value);
    let end = at + piece.len();
    law_a_hexadecimal_is_read_back(value);
    lemma_number_where_it_stands(content, at, piece, piece.len() as int, 16);
    assert forall|i: int| at <= i < end implies net::digit_in(#[trigger] content[i], 16) is Some by {
        assert(content.subrange(at, end)[i - at] == content[i]);
        assert(net::digit_in(piece[i - at], 16) is Some);
    }
    lemma_digits_end(content, at, end, 16);
    lemma_decimal_inside(content, at, end);
    reveal_with_fuel(net::octets_at, 2);
    let stop = net::digits_end(content, at, 10);
    assert(stop < end ==> net::digit_in(content[stop], 16) is Some);
    assert(net::digit_in('.', 16) is None);
    assert(net::behind(content, stop, '.') is None);
    if let Some((octet, place)) = net::number_at(content, at, net::octet_form()) {
        assert(place == stop);
        assert(net::octets_at(content, stop, 1, 0 * 256 + octet) is None);
    }
}

proof fn lemma_no_group(content: Seq<char>, at: int)
    requires
        0 <= at,
        at >= content.len() || net::digit_in(content[at], 16) is None,
    ensures
        net::number_at(content, at, net::group_form()) is None,
        net::ipv4_at(content, at) is None,
{
    reveal_with_fuel(net::octets_at, 2);
    assert(at < content.len() ==> net::digit_in(content[at], 10) is None);
    assert(net::digits_end(content, at, 16) == at);
    assert(net::digits_end(content, at, 10) == at);
}

/// Groups, each with a colon before it.
pub open spec fn followed(groups: Seq<u16>, from: int, to: int) -> Seq<char>
    decreases to - from,
{
    if from >= to {
        Seq::empty()
    } else {
        ":"@ + net::hexadecimal(groups[from] as nat) + followed(groups, from + 1, to)
    }
}

proof fn lemma_followed_by_one(groups: Seq<u16>, from: int, to: int)
    requires
        from < to,
    ensures
        followed(groups, from, to) == followed(groups, from, to - 1) + ":"@ + net::hexadecimal(
            groups[to - 1] as nat,
        ),
    decreases to - from,
{
    let one = ":"@ + net::hexadecimal(groups[from] as nat);
    if from == to - 1 {
        reveal_with_fuel(followed, 2);
        assert(one + Seq::<char>::empty() =~= one);
        assert(Seq::<char>::empty() + ":"@ + net::hexadecimal(groups[from] as nat) =~= one);
    } else {
        lemma_followed_by_one(groups, from + 1, to);
        let rest = followed(groups, from + 1, to - 1);
        let last = net::hexadecimal(groups[to - 1] as nat);
        assert(one + (rest + ":"@ + last) =~= (one + rest) + ":"@ + last);
    }
}

proof fn lemma_groups_in_turn(groups: Seq<u16>, from: int, to: int)
    requires
        from < to,
    ensures
        net::colon_groups(groups, from, to) == net::hexadecimal(groups[from] as nat) + followed(
            groups,
            from + 1,
            to,
        ),
    decreases to - from,
{
    let first = net::hexadecimal(groups[from] as nat);
    if from == to - 1 {
        assert(first + Seq::<char>::empty() =~= first);
    } else {
        lemma_groups_in_turn(groups, from, to - 1);
        lemma_followed_by_one(groups, from + 1, to);
        let rest = followed(groups, from + 1, to - 1);
        let last = net::hexadecimal(groups[to - 1] as nat);
        assert((first + rest) + ":"@ + last =~= first + (rest + ":"@ + last));
    }
}

proof fn lemma_followed_read(
    content: Seq<char>,
    at: int,
    groups: Seq<u16>,
    from: int,
    to: int,
    index: int,
    limit: int,
)
    requires
        0 <= from <= to <= groups.len(),
        0 < index,
        index + (to - from) <= limit,
        stands(content, at, followed(groups, from, to)),
        ends_group(content, at + followed(groups, from, to).len()),
        index + (to - from) == limit || ends_groups(
            content,
            at + followed(groups, from, to).len(),
        ),
    ensures
        ({
            let read = net::groups_at(content, at, index, limit);
            &&& read.groups == groups.subrange(from, to)
            &&& !read.embedded
            &&& read.end == at + followed(groups, from, to).len()
        }),
    decreases to - from,
{
    reveal_strlit(":");
    if from == to {
        assert(groups.subrange(from, to) =~= Seq::empty());
        if index < limit {
            if at < content.len() && content[at] == ':' {
                lemma_no_group(content, at + 1);
            }
        }
    } else {
        let first = net::hexadecimal(groups[from] as nat);
        let rest = followed(groups, from + 1, to);
        let place = at + 1;
        let next = place + first.len();
        lemma_pieces_stand(content, at, ":"@ + first, rest);
        lemma_pieces_stand(content, at, ":"@, first);
        assert(content.subrange(at, at + 1)[0] == content[at]);
        assert(content[at] == ':');
        assert(ends_group(content, next)) by {
            if from + 1 < to {
                let second = net::hexadecimal(groups[from + 1] as nat);
                let others = followed(groups, from + 2, to);
                assert(rest == ":"@ + second + others);
                lemma_pieces_stand(content, next, ":"@ + second, others);
                lemma_pieces_stand(content, next, ":"@, second);
                assert(content.subrange(next, next + 1)[0] == content[next]);
                assert(net::digit_in(':', 16) is None);
            }
        }
        lemma_group(content, place, groups[from] as nat);
        lemma_followed_read(content, next, groups, from + 1, to, index + 1, limit);
        assert(seq![groups[from]] + groups.subrange(from + 1, to) =~= groups.subrange(from, to));
    }
}

/// Groups with colons between them are read where they stand.
proof fn lemma_groups_read(
    content: Seq<char>,
    at: int,
    groups: Seq<u16>,
    from: int,
    to: int,
    limit: int,
)
    requires
        0 <= from <= to <= groups.len(),
        to - from <= limit,
        0 < limit,
        stands(content, at, net::colon_groups(groups, from, to)),
        ends_group(content, at + net::colon_groups(groups, from, to).len()),
        to - from == limit || ends_groups(
            content,
            at + net::colon_groups(groups, from, to).len(),
        ),
    ensures
        ({
            let read = net::groups_at(content, at, 0, limit);
            &&& read.groups == groups.subrange(from, to)
            &&& !read.embedded
            &&& read.end == at + net::colon_groups(groups, from, to).len()
        }),
{
    if from == to {
        assert(groups.subrange(from, to) =~= Seq::empty());
        lemma_no_group(content, at);
    } else {
        let first = net::hexadecimal(groups[from] as nat);
        let rest = followed(groups, from + 1, to);
        let next = at + first.len();
        lemma_groups_in_turn(groups, from, to);
        lemma_pieces_stand(content, at, first, rest);
        assert(ends_group(content, next)) by {
            reveal_strlit(":");
            if from + 1 < to {
                let second = net::hexadecimal(groups[from + 1] as nat);
                let others = followed(groups, from + 2, to);
                assert(rest == ":"@ + second + others);
                lemma_pieces_stand(content, next, ":"@ + second, others);
                lemma_pieces_stand(content, next, ":"@, second);
                assert(content.subrange(next, next + 1)[0] == content[next]);
                assert(net::digit_in(':', 16) is None);
            }
        }
        lemma_group(content, at, groups[from] as nat);
        lemma_followed_read(content, next, groups, from + 1, to, 1, limit);
        assert(seq![groups[from]] + groups.subrange(from + 1, to) =~= groups.subrange(from, to));
    }
}

proof fn lemma_all_groups(address: nat)
    requires
        address < 0x1_0000_0000_0000_0000_0000_0000_0000_0000,
    ensures
        net::groups_of(address, 8).len() == 8,
        net::joined(net::groups_of(address, 8)) == address,
{
    reveal_with_fuel(pow_groups, 9);
    law_groups_give_the_address_back(address, 8);
}

/// An address of version 6 is read where it stands in a text that goes on with nothing
/// that could belong to it.
proof fn lemma_v6_read(content: Seq<char>, at: int, address: nat)
    requires
        address < 0x1_0000_0000_0000_0000_0000_0000_0000_0000,
        stands(content, at, net::written_v6(address)),
        ends_group(content, at + net::written_v6(address).len()),
        at + net::written_v6(address).len() >= content.len() || content[at + net::written_v6(
            address,
        ).len()] != ':',
    ensures
        ({
            let read = net::ipv6_at(content, at);
            &&& read is Some
            &&& net::joined(read->Some_0.0) == address
            &&& read->Some_0.1 == at + net::written_v6(address).len()
        }),
{
    let groups = net::groups_of(address, 8);
    let zeroes = net::longest_zeroes(groups, 8);
    lemma_all_groups(address);
    law_the_longest_zeroes_are_left_out(groups, 8, 0);
    if address / 4294967296 == 65535 {
        lemma_mapped_read(content, at, address);
    } else if zeroes.1 > 1 {
        lemma_compressed_read(content, at, groups, zeroes.0, zeroes.1);
    } else {
        lemma_groups_read(content, at, groups, 0, 8, 8);
        assert(groups.subrange(0, 8) =~= groups);
    }
}

proof fn lemma_compressed_read(
    content: Seq<char>,
    at: int,
    groups: Seq<u16>,
    start: int,
    length: int,
)
    requires
        groups.len() == 8,
        0 <= start < 8,
        length > 1,
        length == net::zeroes_at(groups, start),
        ({
            let written = net::colon_groups(groups, 0, start) + "::"@ + net::colon_groups(
                groups,
                start + length,
                8,
            );
            &&& stands(content, at, written)
            &&& ends_group(content, at + written.len())
            &&& at + written.len() >= content.len() || content[at + written.len()] != ':'
        }),
    ensures
        ({
            let written = net::colon_groups(groups, 0, start) + "::"@ + net::colon_groups(
                groups,
                start + length,
                8,
            );
            net::ipv6_at(content, at) == Some((groups, at + written.len()))
        }),
{
    reveal_strlit("::");
    let front = net::colon_groups(groups, 0, start);
    let back = net::colon_groups(groups, start + length, 8);
    let middle = at + front.len();
    let second = middle + 2;
    law_zeroes_are_zero(groups, start);
    lemma_pieces_stand(content, at, front + "::"@, back);
    lemma_pieces_stand(content, at, front, "::"@);
    assert(content.subrange(middle, middle + 2)[0] == content[middle]);
    assert(content.subrange(middle, middle + 2)[1] == content[middle + 1]);
    assert(content[middle] == ':' && content[middle + 1] == ':');
    assert(net::digit_in(':', 16) is None);
    lemma_groups_read(content, at, groups, 0, start, 8);
    let head = net::groups_at(content, at, 0, 8);
    assert(head.groups.len() == start);
    lemma_groups_read(content, second, groups, start + length, 8, 7 - start);
    let tail = net::groups_at(content, second, 0, 7 - start);
    let whole = head.groups + net::zero_groups(8 - head.groups.len() - tail.groups.len())
        + tail.groups;
    assert(whole =~= groups) by {
        assert forall|i: int| 0 <= i < 8 implies #[trigger] whole[i] == groups[i] by {
            if i < start {
                assert(head.groups[i] == groups[i]);
            } else if i < start + length {
                assert(groups[i] == 0);
            } else {
                assert(tail.groups[i - start - length] == groups[i]);
            }
        }
    }
}

proof fn lemma_mapped_read(content: Seq<char>, at: int, address: nat)
    requires
        address / 4294967296 == 65535,
        ({
            let written = "::ffff:"@ + net::written_v4(address % 4294967296);
            &&& stands(content, at, written)
            &&& ends_group(content, at + written.len())
            &&& at + written.len() >= content.len() || content[at + written.len()] != ':'
        }),
    ensures
        ({
            let written = "::ffff:"@ + net::written_v4(address % 4294967296);
            let read = net::ipv6_at(content, at);
            &&& read is Some
            &&& net::joined(read->Some_0.0) == address
            &&& read->Some_0.1 == at + written.len()
        }),
{
    reveal_strlit("::ffff:");
    let low = address % 4294967296;
    let host = net::written_v4(low);
    let opening = "::ffff:"@;
    let place = at + 7;
    let end = place + host.len();
    lemma_pieces_stand(content, at, opening, host);
    let shown = content.subrange(at, at + 7);
    assert(shown[0] == content[at] && shown[1] == content[at + 1]);
    assert(shown[6] == content[at + 6]);
    assert(net::digit_in(':', 16) is None);
    assert(ends_number(content, end, 10));
    lemma_v4_read(content, place, low);
    lemma_no_group(content, at);
    let head = net::groups_at(content, at, 0, 8);
    assert(head.groups.len() == 0 && head.end == at && !head.embedded);
    let second = at + 2;
    assert(stands(content, second, net::hexadecimal(65535))) by {
        reveal_with_fuel(net::hexadecimal, 5);
        assert(content.subrange(second, second + 4) =~= net::hexadecimal(65535)) by {
            assert(shown[2] == content[at + 2] && shown[3] == content[at + 3]);
            assert(shown[4] == content[at + 4] && shown[5] == content[at + 5]);
        }
    }
    assert(net::hexadecimal(65535).len() == 4) by {
        reveal_with_fuel(net::hexadecimal, 5);
    }
    lemma_group(content, second, 65535);
    let last = net::groups_at(content, at + 6, 1, 7);
    assert(last.groups == net::embedded_groups(low) && last.end == end);
    let tail = net::groups_at(content, second, 0, 7);
    assert(tail.groups =~= seq![65535u16] + net::embedded_groups(low));
    let whole = head.groups + net::zero_groups(5) + tail.groups;
    assert(net::ipv6_at(content, at) == Some((whole, end)));
    lemma_mapped_joined(whole, low);
}

proof fn lemma_mapped_joined(groups: Seq<u16>, low: nat)
    requires
        low < 4294967296,
        groups.len() == 8,
        groups[0] == 0 && groups[1] == 0 && groups[2] == 0 && groups[3] == 0 && groups[4] == 0,
        groups[5] == 65535,
        groups[6] == low / 65536,
        groups[7] == low % 65536,
    ensures
        net::joined(groups) == 65535 * 4294967296 + low,
{
    let g7 = groups.drop_last();
    let g6 = g7.drop_last();
    let g5 = g6.drop_last();
    let g4 = g5.drop_last();
    let g3 = g4.drop_last();
    let g2 = g3.drop_last();
    let g1 = g2.drop_last();
    assert(net::joined(g1.drop_last()) == 0);
    assert(net::joined(g1) == 0);
    assert(net::joined(g2) == 0);
    assert(net::joined(g3) == 0);
    assert(net::joined(g4) == 0);
    assert(net::joined(g5) == 0);
    assert(net::joined(g6) == 65535);
    assert(net::joined(g7) == 65535 * 65536 + low / 65536);
}

/// An address of version 6 is read back from how it is written.
pub proof fn law_a_v6_address_is_read_back(address: u128)
    ensures
        net::parsed_ip(net::written_v6(address as nat)) == Some(IpAddr::V6(address)),
{
    let written = net::written_v6(address as nat);
    lemma_whole_stands(written);
    lemma_v6_read(written, 0, address as nat);
    lemma_v6_is_no_v4(address as nat);
}

proof fn lemma_v6_is_no_v4(address: nat)
    requires
        address < 0x1_0000_0000_0000_0000_0000_0000_0000_0000,
    ensures
        net::ipv4_at(net::written_v6(address), 0) is None,
{
    let content = net::written_v6(address);
    let groups = net::groups_of(address, 8);
    let zeroes = net::longest_zeroes(groups, 8);
    assert(net::digit_in(':', 16) is None);
    lemma_all_groups(address);
    law_the_longest_zeroes_are_left_out(groups, 8, 0);
    lemma_whole_stands(content);
    if address / 4294967296 == 65535 {
        reveal_strlit("::ffff:");
        assert(content[0] == ':');
        lemma_no_group(content, 0);
    } else if zeroes.1 > 1 {
        let front = net::colon_groups(groups, 0, zeroes.0);
        let back = net::colon_groups(groups, zeroes.0 + zeroes.1, 8);
        reveal_strlit("::");
        if zeroes.0 == 0 {
            assert(front =~= Seq::empty());
            assert(content[0] == ':');
            lemma_no_group(content, 0);
        } else {
            lemma_pieces_stand(content, 0, front + "::"@, back);
            lemma_pieces_stand(content, 0, front, "::"@);
            assert(content[front.len() as int] == ':');
            lemma_first_group_is_no_v4(content, 0, groups, zeroes.0);
        }
    } else {
        lemma_first_group_is_no_v4(content, 0, groups, 8);
    }
}

proof fn lemma_first_group_is_no_v4(content: Seq<char>, at: int, groups: Seq<u16>, to: int)
    requires
        0 < to <= groups.len(),
        stands(content, at, net::colon_groups(groups, 0, to)),
        ends_group(content, at + net::colon_groups(groups, 0, to).len()),
    ensures
        net::ipv4_at(content, at) is None,
{
    let first = net::hexadecimal(groups[0] as nat);
    let rest = followed(groups, 1, to);
    let next = at + first.len();
    lemma_groups_in_turn(groups, 0, to);
    lemma_pieces_stand(content, at, first, rest);
    assert(ends_group(content, next)) by {
        reveal_strlit(":");
        if 1 < to {
            let second = net::hexadecimal(groups[1] as nat);
            let others = followed(groups, 2, to);
            assert(rest == ":"@ + second + others);
            lemma_pieces_stand(content, next, ":"@ + second, others);
            lemma_pieces_stand(content, next, ":"@, second);
            assert(content.subrange(next, next + 1)[0] == content[next]);
            assert(net::digit_in(':', 16) is None);
        }
    }
    lemma_group(content, at, groups[0] as nat);
}

/// A socket of version 6 is read back from how it is written: the address in brackets, with
/// its scope where it has one, a colon and the port.
pub proof fn law_a_v6_socket_is_read_back(address: u128, port: u16, scope_id: u32)
    ensures
        ({
            let socket = SocketAddr { ip: IpAddr::V6(address), port, scope_id };
            net::parsed_socket(net::written_socket(socket)) == Some(socket)
        }),
{
    reveal_strlit("[");
    reveal_strlit("]:");
    reveal_strlit("%");
    let socket = SocketAddr { ip: IpAddr::V6(address), port, scope_id };
    let content = net::written_socket(socket);
    let host = net::written_v6(address as nat);
    let scope = text::decimal(scope_id as nat);
    let zone = if scope_id == 0 {
        Seq::empty()
    } else {
        "%"@ + scope
    };
    let number = text::decimal(port as nat);
    assert(content == "["@ + host + zone + "]:"@ + number);
    lemma_whole_stands(content);
    lemma_pieces_stand(content, 0, "["@ + host + zone + "]:"@, number);
    lemma_pieces_stand(content, 0, "["@ + host + zone, "]:"@);
    lemma_pieces_stand(content, 0, "["@ + host, zone);
    lemma_pieces_stand(content, 0, "["@, host);
    let place = 1 + host.len() as int;
    let closing = place + zone.len();
    let colon = closing + 1;
    assert(content.subrange(0, 1)[0] == content[0]);
    assert(content[0] == '[');
    assert(content.subrange(closing, closing + 2)[0] == content[closing]);
    assert(content.subrange(closing, closing + 2)[1] == content[colon]);
    assert(content[closing] == ']' && content[colon] == ':');
    assert(net::digit_in('[', 16) is None && net::digit_in(']', 16) is None && net::digit_in(
        '%',
        16,
    ) is None && net::digit_in(']', 10) is None);
    lemma_no_group(content, 0);
    if scope_id == 0 {
        assert(zone.len() == 0);
        lemma_v6_read(content, 1, address as nat);
    } else {
        lemma_pieces_stand(content, place, "%"@, scope);
        assert(content.subrange(place, place + 1)[0] == content[place]);
        assert(content[place] == '%');
        lemma_v6_read(content, 1, address as nat);
        law_a_number_is_read_where_it_stands(
            content,
            place + 1,
            scope_id as nat,
            net::scope_form(),
        );
    }
    law_a_number_is_read_where_it_stands(content, colon + 1, port as nat, net::port_form());
}

} // verus!
