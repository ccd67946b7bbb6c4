//! Internet addresses: how they are written and what they mean.

use crate::text::{self, characters, decimal_text};
use vstd::prelude::*;
use vstd::string::*;

verus! {

/// An address of the Internet protocol, as one number.
#[derive(Clone, Copy, Debug, PartialEq, Eq, Structural)]
pub enum IpAddr {
    V4(u32),
    V6(u128),
}

/// An address and a port. An IPv6 address may name a zone.
#[derive(Clone, Copy, Debug, PartialEq, Eq, Structural)]
pub struct SocketAddr {
    pub ip: IpAddr,
    pub port: u16,
    pub scope_id: u32,
}

// ---------------------------------------------------------------------------
// Numbers
// ---------------------------------------------------------------------------
/// The value of a digit in base ten or sixteen.
pub open spec fn digit_in(character: char, radix: nat) -> Option<nat> {
    let code = character as u32;
    let value = if '0' <= character <= '9' {
        (code - 48) as nat
    } else if 'a' <= character <= 'f' {
        (code - 87) as nat
    } else if 'A' <= character <= 'F' {
        (code - 55) as nat
    } else {
        radix
    };
    if value < radix {
        Some(value)
    } else {
        None
    }
}

/// The end of the digits that stand at a place.
pub open spec fn digits_end(content: Seq<char>, at: int, radix: nat) -> int
    decreases content.len() - at,
{
    if 0 <= at < content.len() && digit_in(content[at], radix) is Some {
        digits_end(content, at + 1, radix)
    } else {
        at
    }
}

/// The number that the digits between two places write.
pub open spec fn number_between(content: Seq<char>, from: int, to: int, radix: nat) -> nat
    decreases to - from,
{
    if from >= to {
        0
    } else {
        number_between(content, from, to - 1, radix) * radix + digit_in(
            content[to - 1],
            radix,
        ).unwrap_or(0)
    }
}

/// How a number may be written.
pub struct NumberForm {
    /// Ten or sixteen.
    pub radix: u32,
    /// The most digits that may be written, where there is a limit.
    pub max_digits: Option<usize>,
    /// Whether a zero may stand before other digits.
    pub zero_prefix: bool,
    /// The largest number.
    pub limit: u32,
}

/// The number that stands at a place, and where it ends.
pub open spec fn number_at(content: Seq<char>, at: int, form: NumberForm) -> Option<(nat, int)> {
    let end = digits_end(content, at, form.radix as nat);
    let value = number_between(content, at, end, form.radix as nat);
    if end == at {
        None
    } else if form.max_digits is Some && end - at > form.max_digits->0 {
        None
    } else if !form.zero_prefix && content[at] == '0' && end - at > 1 {
        None
    } else if value > form.limit {
        None
    } else {
        Some((value, end))
    }
}

fn digit_value_in(character: char, radix: u32) -> (value: Option<u32>)
    requires
        radix == 10 || radix == 16,
    ensures
        match value {
            Some(digit) => digit_in(character, radix as nat) == Some(digit as nat) && digit < radix,
            None => digit_in(character, radix as nat) is None,
        },
{
    let code: u32 = character as u32;
    let value: u32 = if '0' <= character && character <= '9' {
        code - 48
    } else if 'a' <= character && character <= 'f' {
        code - 87
    } else if 'A' <= character && character <= 'F' {
        code - 55
    } else {
        radix
    };
    if value < radix {
        Some(value)
    } else {
        None
    }
}

proof fn lemma_number_grows(content: Seq<char>, from: int, to: int, end: int, radix: nat)
    requires
        from <= to <= end,
        radix >= 1,
    ensures
        number_between(content, from, to, radix) <= number_between(content, from, end, radix),
    decreases end - to,
{
    if to < end {
        lemma_number_grows(content, from, to, end - 1, radix);
        let before = number_between(content, from, end - 1, radix);
        assert(before * radix >= before) by (nonlinear_arith)
            requires
                radix >= 1,
        ;
    }
}

proof fn lemma_digits_end(content: Seq<char>, at: int, radix: nat)
    requires
        0 <= at <= content.len(),
    ensures
        at <= digits_end(content, at, radix) <= content.len(),
    decreases content.len() - at,
{
    if at < content.len() && digit_in(content[at], radix) is Some {
        lemma_digits_end(content, at + 1, radix);
    }
}

fn read_number(list: &Vec<char>, at: usize, form: &NumberForm) -> (number: Option<(u32, usize)>)
    requires
        at <= list@.len(),
        form.radix == 10 || form.radix == 16,
    ensures
        match number {
            Some((value, end)) => number_at(list@, at as int, *form) == Some(
                (value as nat, end as int),
            ) && at < end <= list@.len() && value <= form.limit,
            None => number_at(list@, at as int, *form) is None,
        },
{
    let ghost radix = form.radix as nat;
    let ghost goal = digits_end(list@, at as int, radix);
    let mut value: u64 = 0;
    let mut end: usize = at;
    let mut overflow = false;
    while end < list.len() && digit_value_in(list[end], form.radix).is_some()
        invariant
            at <= end <= list@.len(),
            form.radix == 10 || form.radix == 16,
            radix == form.radix,
            goal == digits_end(list@, at as int, radix),
            goal == digits_end(list@, end as int, radix),
            !overflow ==> value == number_between(list@, at as int, end as int, radix),
            !overflow ==> value <= form.limit,
            overflow ==> number_between(list@, at as int, end as int, radix) > form.limit,
        decreases list.len() - end,
    {
        if let Some(digit) = digit_value_in(list[end], form.radix) {
            if !overflow {
                let next: u64 = value * (form.radix as u64) + (digit as u64);
                if next > form.limit as u64 {
                    overflow = true;
                } else {
                    value = next;
                }
            } else {
                proof {
                    lemma_number_grows(list@, at as int, end as int, end + 1, radix);
                }
            }
        }
        end = end + 1;
    }
    assert(end == goal);
    if end == at || overflow {
        return None;
    }
    if let Some(most) = form.max_digits {
        if end - at > most {
            return None;
        }
    }
    if !form.zero_prefix && list[at] == '0' && end - at > 1 {
        return None;
    }
    Some((value as u32, end))
}

// ---------------------------------------------------------------------------
// Separators
// ---------------------------------------------------------------------------
/// The place behind a character that stands at a place.
pub open spec fn behind(content: Seq<char>, at: int, character: char) -> Option<int> {
    if 0 <= at < content.len() && content[at] == character {
        Some(at + 1)
    } else {
        None
    }
}

fn read_character(list: &Vec<char>, at: usize, character: char) -> (next: Option<usize>)
    ensures
        match next {
            Some(place) => behind(list@, at as int, character) == Some(place as int) && place
                == at + 1 && place <= list@.len(),
            None => behind(list@, at as int, character) is None,
        },
{
    if at < list.len() && list[at] == character {
        Some(at + 1)
    } else {
        None
    }
}

/// The place of an item of a list: all but the first stand behind a separator.
pub open spec fn item_place(content: Seq<char>, at: int, separator: char, index: int) -> Option<
    int,
> {
    if index == 0 {
        Some(at)
    } else {
        behind(content, at, separator)
    }
}

fn read_separator(list: &Vec<char>, at: usize, separator: char, index: usize) -> (next: Option<
    usize,
>)
    requires
        at <= list@.len(),
    ensures
        match next {
            Some(place) => item_place(list@, at as int, separator, index as int) == Some(
                place as int,
            ) && at <= place <= list@.len(),
            None => item_place(list@, at as int, separator, index as int) is None,
        },
{
    if index == 0 {
        Some(at)
    } else {
        read_character(list, at, separator)
    }
}

// ---------------------------------------------------------------------------
// Version 4
// ---------------------------------------------------------------------------
/// One of the four numbers of an address of version 4.
pub open spec fn octet_form() -> NumberForm {
    NumberForm { radix: 10, max_digits: Some(3), zero_prefix: false, limit: 255 }
}

fn octet() -> (form: NumberForm)
    ensures
        form == octet_form(),
{
    NumberForm { radix: 10, max_digits: Some(3), zero_prefix: false, limit: 255 }
}

/// `count` numbers with full stops between them, from the number `index` on, each
/// the next eight bits of the address.
pub open spec fn octets_at(content: Seq<char>, at: int, index: int, so_far: nat) -> Option<
    (nat, int),
>
    decreases 4 - index,
{
    if index >= 4 {
        Some((so_far, at))
    } else {
        match item_place(content, at, '.', index) {
            None => None,
            Some(place) => match number_at(content, place, octet_form()) {
                None => None,
                Some((value, end)) => octets_at(content, end, index + 1, so_far * 256 + value),
            },
        }
    }
}

/// The address of version 4 that stands at a place, and where it ends.
pub open spec fn ipv4_at(content: Seq<char>, at: int) -> Option<(nat, int)> {
    octets_at(content, at, 0, 0)
}

fn read_ipv4(list: &Vec<char>, at: usize) -> (address: Option<(u32, usize)>)
    requires
        at <= list@.len(),
    ensures
        match address {
            Some((value, end)) => ipv4_at(list@, at as int) == Some((value as nat, end as int))
                && at < end <= list@.len(),
            None => ipv4_at(list@, at as int) is None,
        },
{
    let form = octet();
    let mut value: u64 = 0;
    let mut place: usize = at;
    let mut index: usize = 0;
    let mut bound: u64 = 1;
    while index < 4
        invariant
            index <= 4,
            at <= place <= list@.len(),
            index > 0 ==> at < place,
            form == octet_form(),
            value < bound,
            index == 0 ==> bound == 1,
            index == 1 ==> bound == 0x100,
            index == 2 ==> bound == 0x1_0000,
            index == 3 ==> bound == 0x100_0000,
            index == 4 ==> bound == 0x1_0000_0000,
            ipv4_at(list@, at as int) == octets_at(
                list@,
                place as int,
                index as int,
                value as nat,
            ),
        decreases 4 - index,
    {
        match read_separator(list, place, '.', index) {
            None => {
                return None;
            },
            Some(start) => match read_number(list, start, &form) {
                None => {
                    return None;
                },
                Some((next, end)) => {
                    value = value * 256 + next as u64;
                    bound = bound * 256;
                    place = end;
                },
            },
        }
        index = index + 1;
    }
    Some((value as u32, place))
}

// ---------------------------------------------------------------------------
// Version 6
// ---------------------------------------------------------------------------
/// One of the groups of an address of version 6.
pub open spec fn group_form() -> NumberForm {
    NumberForm { radix: 16, max_digits: Some(4), zero_prefix: true, limit: 65535 }
}

fn group() -> (form: NumberForm)
    ensures
        form == group_form(),
{
    NumberForm { radix: 16, max_digits: Some(4), zero_prefix: true, limit: 65535 }
}

/// Groups of an address of version 6 that stand one after the other.
pub struct GroupsView {
    pub groups: Seq<u16>,
    /// Whether the last two were written as an address of version 4.
    pub embedded: bool,
    pub end: int,
}

/// An address of version 4 as two groups.
pub open spec fn embedded_groups(address: nat) -> Seq<u16> {
    seq![(address / 65536) as u16, (address % 65536) as u16]
}

/// The groups that stand at a place, from the group `index` on, and no more than
/// `limit` of them. A trailing address of version 4 makes two groups.
pub open spec fn groups_at(content: Seq<char>, at: int, index: int, limit: int) -> GroupsView
    decreases limit - index,
{
    if index >= limit {
        GroupsView { groups: Seq::empty(), embedded: false, end: at }
    } else {
        match item_place(content, at, ':', index) {
            None => GroupsView { groups: Seq::empty(), embedded: false, end: at },
            Some(place) => {
                match ipv4_at(content, place) {
                    Some((address, end)) if index < limit - 1 => GroupsView {
                        groups: embedded_groups(address),
                        embedded: true,
                        end,
                    },
                    _ => match number_at(content, place, group_form()) {
                        None => GroupsView { groups: Seq::empty(), embedded: false, end: at },
                        Some((value, end)) => {
                            let rest = groups_at(content, end, index + 1, limit);
                            GroupsView { groups: seq![value as u16] + rest.groups, ..rest }
                        },
                    },
                }
            },
        }
    }
}

struct Groups {
    groups: Vec<u16>,
    embedded: bool,
    end: usize,
}

spec fn groups_view(read: Groups) -> GroupsView {
    GroupsView { groups: read.groups@, embedded: read.embedded, end: read.end as int }
}

fn read_groups(list: &Vec<char>, at: usize, limit: usize) -> (read: Groups)
    requires
        at <= list@.len(),
        limit <= 8,
    ensures
        groups_view(read) == groups_at(list@, at as int, 0, limit as int),
        read.groups@.len() <= limit,
        at <= read.end <= list@.len(),
{
    let form = group();
    let ghost whole = groups_at(list@, at as int, 0, limit as int);
    let mut groups: Vec<u16> = Vec::new();
    let mut place: usize = at;
    let mut index: usize = 0;
    assert(groups@ + whole.groups =~= whole.groups);
    while index < limit
        invariant
            index <= limit <= 8,
            groups@.len() == index,
            at <= place <= list@.len(),
            form == group_form(),
            whole == groups_at(list@, at as int, 0, limit as int),
            ({
                let rest = groups_at(list@, place as int, index as int, limit as int);
                &&& whole.groups == groups@ + rest.groups
                &&& whole.embedded == rest.embedded
                &&& whole.end == rest.end
            }),
        decreases limit - index,
    {
        let ghost rest = groups_at(list@, place as int, index as int, limit as int);
        let ghost before = groups@;
        match read_separator(list, place, ':', index) {
            None => {
                assert(whole.groups =~= groups@);
                return Groups { groups, embedded: false, end: place };
            },
            Some(start) => {
                if index < limit - 1 {
                    if let Some((address, end)) = read_ipv4(list, start) {
                        groups.push((address / 65536) as u16);
                        groups.push((address % 65536) as u16);
                        assert(whole.groups =~= groups@);
                        return Groups { groups, embedded: true, end };
                    }
                }
                match read_number(list, start, &form) {
                    None => {
                        assert(whole.groups =~= groups@);
                        return Groups { groups, embedded: false, end: place };
                    },
                    Some((value, end)) => {
                        groups.push(value as u16);
                        place = end;
                        proof {
                            let next = groups_at(list@, end as int, index + 1, limit as int);
                            assert(rest.groups == seq![value as u16] + next.groups);
                            assert(before + (seq![value as u16] + next.groups) =~= groups@
                                + next.groups);
                        }
                    },
                }
            },
        }
        index = index + 1;
    }
    assert(whole.groups =~= groups@);
    Groups { groups, embedded: false, end: place }
}

/// So many groups of zero.
pub open spec fn zero_groups(count: int) -> Seq<u16> {
    Seq::new(count as nat, |i: int| 0u16)
}

/// The eight groups of the address of version 6 that stands at a place, and where
/// it ends. Two colons stand for as many groups of zero as are missing, one at
/// least.
pub open spec fn ipv6_at(content: Seq<char>, at: int) -> Option<(Seq<u16>, int)> {
    let head = groups_at(content, at, 0, 8);
    if head.groups.len() == 8 {
        Some((head.groups, head.end))
    } else if head.embedded {
        None
    } else {
        match behind(content, head.end, ':') {
            None => None,
            Some(first) => match behind(content, first, ':') {
                None => None,
                Some(second) => {
                    let tail = groups_at(content, second, 0, 7 - head.groups.len());
                    Some(
                        (
                            head.groups + zero_groups(8 - head.groups.len() - tail.groups.len())
                                + tail.groups,
                            tail.end,
                        ),
                    )
                },
            },
        }
    }
}

/// Groups of sixteen bits as one number.
pub open spec fn joined(groups: Seq<u16>) -> nat
    decreases groups.len(),
{
    if groups.len() == 0 {
        0
    } else {
        joined(groups.drop_last()) * 65536 + groups.last() as nat
    }
}

fn join(groups: &Vec<u16>) -> (value: u128)
    requires
        groups@.len() == 8,
    ensures
        value == joined(groups@),
{
    let mut value: u128 = 0;
    let mut bound: u128 = 1;
    let mut index: usize = 0;
    assert(groups@.take(0) =~= Seq::<u16>::empty());
    while index < 8
        invariant
            index <= 8,
            groups@.len() == 8,
            value == joined(groups@.take(index as int)),
            index < 8 ==> value < bound,
            index == 0 ==> bound == 1,
            index == 1 ==> bound == 0x1_0000,
            index == 2 ==> bound == 0x1_0000_0000,
            index == 3 ==> bound == 0x1_0000_0000_0000,
            index == 4 ==> bound == 0x1_0000_0000_0000_0000,
            index == 5 ==> bound == 0x1_0000_0000_0000_0000_0000,
            index == 6 ==> bound == 0x1_0000_0000_0000_0000_0000_0000,
            index == 7 ==> bound == 0x1_0000_0000_0000_0000_0000_0000_0000,
        decreases 8 - index,
    {
        let ghost next = groups@.take(index + 1);
        assert(next.drop_last() =~= groups@.take(index as int));
        value = value * 65536 + groups[index] as u128;
        if index < 7 {
            bound = bound * 65536;
        }
        index = index + 1;
    }
    assert(groups@.take(8) =~= groups@);
    value
}

fn read_ipv6(list: &Vec<char>, at: usize) -> (address: Option<(Vec<u16>, usize)>)
    requires
        at <= list@.len(),
    ensures
        match address {
            Some((groups, end)) => ipv6_at(list@, at as int) == Some((groups@, end as int))
                && groups@.len() == 8 && at <= end <= list@.len(),
            None => ipv6_at(list@, at as int) is None,
        },
{
    let head = read_groups(list, at, 8);
    if head.groups.len() == 8 {
        return Some((head.groups, head.end));
    }
    if head.embedded {
        return None;
    }
    match read_character(list, head.end, ':') {
        None => None,
        Some(first) => match read_character(list, first, ':') {
            None => None,
            Some(second) => {
                let count: usize = head.groups.len();
                let mut tail = read_groups(list, second, 7 - count);
                let missing: usize = 8 - count - tail.groups.len();
                let mut groups = head.groups;
                let ghost front = groups@;
                let mut index: usize = 0;
                assert(groups@ =~= front + zero_groups(0));
                while index < missing
                    invariant
                        index <= missing,
                        groups@ == front + zero_groups(index as int),
                    decreases missing - index,
                {
                    groups.push(0);
                    index = index + 1;
                    assert(groups@ =~= front + zero_groups(index as int));
                }
                let end: usize = tail.end;
                groups.append(&mut tail.groups);
                Some((groups, end))
            },
        },
    }
}

// ---------------------------------------------------------------------------
// Whole addresses
// ---------------------------------------------------------------------------
/// The address that a text writes.
pub open spec fn parsed_ip(content: Seq<char>) -> Option<IpAddr> {
    match ipv4_at(content, 0) {
        Some((value, end)) => if end == content.len() {
            Some(IpAddr::V4(value as u32))
        } else {
            None
        },
        None => match ipv6_at(content, 0) {
            Some((groups, end)) => if end == content.len() {
                Some(IpAddr::V6(joined(groups) as u128))
            } else {
                None
            },
            None => None,
        },
    }
}

/// Reads an address.
pub fn parse_ip(content: &str) -> (address: Option<IpAddr>)
    ensures
        address == parsed_ip(content@),
{
    let list = characters(content);
    if let Some((value, end)) = read_ipv4(&list, 0) {
        if end == list.len() {
            return Some(IpAddr::V4(value));
        }
        return None;
    }
    match read_ipv6(&list, 0) {
        Some((groups, end)) => if end == list.len() {
            Some(IpAddr::V6(join(&groups)))
        } else {
            None
        },
        None => None,
    }
}

/// How a port is written.
pub open spec fn port_form() -> NumberForm {
    NumberForm { radix: 10, max_digits: None, zero_prefix: true, limit: 65535 }
}

/// How a zone is written.
pub open spec fn scope_form() -> NumberForm {
    NumberForm { radix: 10, max_digits: None, zero_prefix: true, limit: u32::MAX }
}

/// The port that stands at a place behind a colon.
pub open spec fn port_at(content: Seq<char>, at: int) -> Option<(nat, int)> {
    match behind(content, at, ':') {
        Some(place) => number_at(content, place, port_form()),
        None => None,
    }
}

/// The zone that stands at a place behind a percent sign; zone zero, at the same
/// place, where there is none.
pub open spec fn scope_at(content: Seq<char>, at: int) -> (nat, int) {
    match behind(content, at, '%') {
        Some(place) => match number_at(content, place, scope_form()) {
            Some((value, end)) => (value, end),
            None => (0, at),
        },
        None => (0, at),
    }
}

/// An address of version 4 with a port at the front of a text, and where it ends.
pub open spec fn socket_v4(content: Seq<char>) -> Option<(SocketAddr, int)> {
    match ipv4_at(content, 0) {
        Some((value, place)) => match port_at(content, place) {
            Some((port, end)) => Some(
                (
                    SocketAddr { ip: IpAddr::V4(value as u32), port: port as u16, scope_id: 0 },
                    end,
                ),
            ),
            None => None,
        },
        None => None,
    }
}

/// An address of version 6 in brackets with a port at the front of a text, and
/// where it ends.
pub open spec fn socket_v6(content: Seq<char>) -> Option<(SocketAddr, int)> {
    match behind(content, 0, '[') {
        None => None,
        Some(start) => match ipv6_at(content, start) {
            None => None,
            Some((groups, place)) => {
                let (scope, after) = scope_at(content, place);
                match behind(content, after, ']') {
                    None => None,
                    Some(closed) => match port_at(content, closed) {
                        None => None,
                        Some((port, end)) => Some(
                            (
                                SocketAddr {
                                    ip: IpAddr::V6(joined(groups) as u128),
                                    port: port as u16,
                                    scope_id: scope as u32,
                                },
                                end,
                            ),
                        ),
                    },
                }
            },
        },
    }
}

/// The address and port that a text writes.
pub open spec fn parsed_socket(content: Seq<char>) -> Option<SocketAddr> {
    match socket_v4(content) {
        Some((address, end)) => if end == content.len() {
            Some(address)
        } else {
            None
        },
        None => match socket_v6(content) {
            Some((address, end)) => if end == content.len() {
                Some(address)
            } else {
                None
            },
            None => None,
        },
    }
}

fn read_port(list: &Vec<char>, at: usize) -> (port: Option<(u16, usize)>)
    ensures
        match port {
            Some((value, end)) => port_at(list@, at as int) == Some((value as nat, end as int)),
            None => port_at(list@, at as int) is None,
        },
{
    let form = NumberForm { radix: 10, max_digits: None, zero_prefix: true, limit: 65535 };
    assert(form == port_form());
    match read_character(list, at, ':') {
        Some(place) => match read_number(list, place, &form) {
            Some((value, end)) => Some((value as u16, end)),
            None => None,
        },
        None => None,
    }
}

fn read_scope(list: &Vec<char>, at: usize) -> (scope: (u32, usize))
    ensures
        scope_at(list@, at as int) == (scope.0 as nat, scope.1 as int),
{
    let form = NumberForm { radix: 10, max_digits: None, zero_prefix: true, limit: u32::MAX };
    assert(form == scope_form());
    match read_character(list, at, '%') {
        Some(place) => match read_number(list, place, &form) {
            Some((value, end)) => (value, end),
            None => (0, at),
        },
        None => (0, at),
    }
}

fn read_socket_v4(list: &Vec<char>) -> (address: Option<(SocketAddr, usize)>)
    ensures
        match address {
            Some((address, end)) => socket_v4(list@) == Some((address, end as int)),
            None => socket_v4(list@) is None,
        },
{
    match read_ipv4(list, 0) {
        Some((value, place)) => match read_port(list, place) {
            Some((port, end)) => Some(
                (SocketAddr { ip: IpAddr::V4(value), port, scope_id: 0 }, end),
            ),
            None => None,
        },
        None => None,
    }
}

fn read_socket_v6(list: &Vec<char>) -> (address: Option<(SocketAddr, usize)>)
    ensures
        match address {
            Some((address, end)) => socket_v6(list@) == Some((address, end as int)),
            None => socket_v6(list@) is None,
        },
{
    match read_character(list, 0, '[') {
        None => None,
        Some(start) => match read_ipv6(list, start) {
            None => None,
            Some((groups, place)) => {
                let (scope_id, after) = read_scope(list, place);
                match read_character(list, after, ']') {
                    None => None,
                    Some(closed) => match read_port(list, closed) {
                        None => None,
                        Some((port, end)) => Some(
                            (SocketAddr { ip: IpAddr::V6(join(&groups)), port, scope_id }, end),
                        ),
                    },
                }
            },
        },
    }
}

/// Reads an address and a port.
pub fn parse_socket(content: &str) -> (address: Option<SocketAddr>)
    ensures
        address == parsed_socket(content@),
{
    let list = characters(content);
    if let Some((address, end)) = read_socket_v4(&list) {
        if end == list.len() {
            return Some(address);
        }
        return None;
    }
    match read_socket_v6(&list) {
        Some((address, end)) => if end == list.len() {
            Some(address)
        } else {
            None
        },
        None => None,
    }
}

// ---------------------------------------------------------------------------
// Writing
// ---------------------------------------------------------------------------
/// The digit of a number below sixteen.
pub open spec fn hex_digit(value: nat) -> char {
    if value < 10 {
        (48 + value) as char
    } else {
        (87 + value) as char
    }
}

/// A number in base sixteen, without leading zeroes.
pub open spec fn hexadecimal(value: nat) -> Seq<char>
    decreases value,
{
    if value < 16 {
        seq![hex_digit(value)]
    } else {
        hexadecimal(value / 16).push(hex_digit(value % 16))
    }
}

/// The octets of an IPv4 address with dots between them.
pub open spec fn written_v4(address: nat) -> Seq<char> {
    text::decimal(address / 16777216) + "."@ + text::decimal(address / 65536 % 256) + "."@
        + text::decimal(address / 256 % 256) + "."@ + text::decimal(address % 256)
}

/// The last `count` groups of sixteen bits of a number.
pub open spec fn groups_of(address: nat, count: nat) -> Seq<u16>
    decreases count,
{
    if count == 0 {
        Seq::empty()
    } else {
        groups_of(address / 65536, (count - 1) as nat).push((address % 65536) as u16)
    }
}

/// How many groups from a place on are zero.
pub open spec fn zeroes_at(groups: Seq<u16>, at: int) -> int
    decreases groups.len() - at,
{
    if 0 <= at < groups.len() && groups[at] == 0 {
        1 + zeroes_at(groups, at + 1)
    } else {
        0
    }
}

/// The first of the longest stretches of zeroes that begin before a place, and
/// how long it is.
pub open spec fn longest_zeroes(groups: Seq<u16>, to: int) -> (int, int)
    decreases to,
{
    if to <= 0 {
        (0, 0)
    } else {
        let best = longest_zeroes(groups, to - 1);
        if zeroes_at(groups, to - 1) > best.1 {
            (to - 1, zeroes_at(groups, to - 1))
        } else {
            best
        }
    }
}

/// The groups between two places with colons between them.
pub open spec fn colon_groups(groups: Seq<u16>, from: int, to: int) -> Seq<char>
    decreases to - from,
{
    if from >= to {
        Seq::empty()
    } else if from == to - 1 {
        hexadecimal(groups[from] as nat)
    } else {
        colon_groups(groups, from, to - 1) + ":"@ + hexadecimal(groups[to - 1] as nat)
    }
}

/// An IPv6 address: an IPv4 address that it maps is written as such, and
/// otherwise the first of its longest stretches of at least two zero groups is
/// left out.
pub open spec fn written_v6(address: nat) -> Seq<char> {
    let groups = groups_of(address, 8);
    let zeroes = longest_zeroes(groups, 8);
    if address / 4294967296 == 65535 {
        "::ffff:"@ + written_v4(address % 4294967296)
    } else if zeroes.1 > 1 {
        colon_groups(groups, 0, zeroes.0) + "::"@ + colon_groups(groups, zeroes.0 + zeroes.1, 8)
    } else {
        colon_groups(groups, 0, 8)
    }
}

/// An address and a port as they are written.
pub open spec fn written_socket(socket: SocketAddr) -> Seq<char> {
    match socket.ip {
        IpAddr::V4(address) => written_v4(address as nat) + ":"@ + text::decimal(
            socket.port as nat,
        ),
        IpAddr::V6(address) => {
            let zone = if socket.scope_id == 0 {
                Seq::empty()
            } else {
                "%"@ + text::decimal(socket.scope_id as nat)
            };
            "["@ + written_v6(address as nat) + zone + "]:"@ + text::decimal(socket.port as nat)
        },
    }
}

fn hex_character(value: u16) -> (character: char)
    requires
        value < 16,
    ensures
        character == hex_digit(value as nat),
{
    match value {
        0 => '0',
        1 => '1',
        2 => '2',
        3 => '3',
        4 => '4',
        5 => '5',
        6 => '6',
        7 => '7',
        8 => '8',
        9 => '9',
        10 => 'a',
        11 => 'b',
        12 => 'c',
        13 => 'd',
        14 => 'e',
        _ => 'f',
    }
}

fn hex_text(value: u16) -> (written: String)
    ensures
        written@ == hexadecimal(value as nat),
    decreases value,
{
    let mut written = if value < 16 {
        String::new()
    } else {
        hex_text(value / 16)
    };
    written.push(hex_character(value % 16));
    assert(written@ =~= hexadecimal(value as nat));
    written
}

fn v4_text(address: u32) -> (written: String)
    ensures
        written@ == written_v4(address as nat),
{
    decimal_text((address / 16777216) as u64).concat(".").concat(
        decimal_text((address / 65536 % 256) as u64).as_str(),
    ).concat(".").concat(decimal_text((address / 256 % 256) as u64).as_str()).concat(".").concat(
        decimal_text((address % 256) as u64).as_str(),
    )
}

proof fn lemma_groups_split(address: nat, count: nat)
    ensures
        groups_of(address, count).len() == count,
    decreases count,
{
    if count > 0 {
        lemma_groups_split(address / 65536, (count - 1) as nat);
    }
}

fn split_groups(address: u128, count: u32) -> (groups: Vec<u16>)
    ensures
        groups@ == groups_of(address as nat, count as nat),
        groups@.len() == count,
    decreases count,
{
    proof {
        lemma_groups_split(address as nat, count as nat);
    }
    if count == 0 {
        return Vec::new();
    }
    let mut groups = split_groups(address / 65536, count - 1);
    groups.push((address % 65536) as u16);
    groups
}

fn count_zeroes(groups: &Vec<u16>, at: usize) -> (count: usize)
    requires
        at <= groups@.len(),
    ensures
        count == zeroes_at(groups@, at as int),
        at + count <= groups@.len(),
    decreases groups@.len() - at,
{
    if at < groups.len() && groups[at] == 0 {
        1 + count_zeroes(groups, at + 1)
    } else {
        0
    }
}

fn colon_text(groups: &Vec<u16>, from: usize, to: usize) -> (written: String)
    requires
        to <= groups@.len(),
    ensures
        written@ == colon_groups(groups@, from as int, to as int),
    decreases to,
{
    if from >= to {
        let written = String::new();
        assert(written@ =~= Seq::<char>::empty());
        written
    } else if from == to - 1 {
        hex_text(groups[from])
    } else {
        colon_text(groups, from, to - 1).concat(":").concat(hex_text(groups[to - 1]).as_str())
    }
}

fn v6_text(address: u128) -> (written: String)
    ensures
        written@ == written_v6(address as nat),
{
    if address / 4294967296 == 65535 {
        return "::ffff:".to_owned().concat(v4_text((address % 4294967296) as u32).as_str());
    }
    let groups = split_groups(address, 8);
    let mut start: usize = 0;
    let mut length: usize = 0;
    let mut at: usize = 0;
    while at < 8
        invariant
            at <= 8,
            groups@.len() == 8,
            (start as int, length as int) == longest_zeroes(groups@, at as int),
            start + length <= 8,
        decreases 8 - at,
    {
        let found: usize = count_zeroes(&groups, at);
        if found > length {
            start = at;
            length = found;
        }
        at = at + 1;
    }
    if length > 1 {
        colon_text(&groups, 0, start).concat("::").concat(
            colon_text(&groups, start + length, 8).as_str(),
        )
    } else {
        colon_text(&groups, 0, 8)
    }
}

/// Writes an address and a port.
pub fn socket_text(socket: SocketAddr) -> (written: String)
    ensures
        written@ == written_socket(socket),
{
    match socket.ip {
        IpAddr::V4(address) => v4_text(address).concat(":").concat(
            decimal_text(socket.port as u64).as_str(),
        ),
        IpAddr::V6(address) => {
            let zone = if socket.scope_id == 0 {
                String::new()
            } else {
                "%".to_owned().concat(decimal_text(socket.scope_id as u64).as_str())
            };
            assert(socket.scope_id == 0 ==> zone@ =~= Seq::<char>::empty());
            "[".to_owned().concat(v6_text(address).as_str()).concat(zone.as_str()).concat(
                "]:",
            ).concat(decimal_text(socket.port as u64).as_str())
        },
    }
}

} // verus!
