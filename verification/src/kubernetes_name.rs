//! Names that Kubernetes accepts, and names that belong to one instance.

use crate::ids::InstanceId;
use crate::text::{self, characters, shorten};
use vstd::prelude::*;
use vstd::string::*;

verus! {

/// The longest name that fits in a DNS label.
pub const DNS_LABEL_MAX: usize = 63;

/// What is left of the base of an instance-scoped name: the label without the
/// hyphen and the eight digits that follow.
pub const SCOPED_BASE_MAX: usize = 54;

/// A small letter or a decimal digit.
pub open spec fn small_alphanumeric(character: char) -> bool {
    'a' <= character <= 'z' || '0' <= character <= '9'
}

/// A DNS label: one to 63 small letters, digits and hyphens, with no hyphen at
/// either end.
pub open spec fn dns_label(name: Seq<char>) -> bool {
    &&& 1 <= name.len() <= DNS_LABEL_MAX
    &&& forall|i: int|
        0 <= i < name.len() ==> small_alphanumeric(#[trigger] name[i]) || name[i] == '-'
    &&& small_alphanumeric(name[0])
    &&& small_alphanumeric(name.last())
}

fn is_small_alphanumeric(character: char) -> (result: bool)
    ensures
        result == small_alphanumeric(character),
{
    ('a' <= character && character <= 'z') || ('0' <= character && character <= '9')
}

/// Whether a name is a DNS label.
pub fn is_dns_label(name: &str) -> (result: bool)
    ensures
        result == dns_label(name@),
{
    let list = characters(name);
    if list.len() == 0 || list.len() > DNS_LABEL_MAX {
        return false;
    }
    let mut index: usize = 0;
    while index < list.len()
        invariant
            index <= list.len(),
            list@ == name@,
            forall|i: int|
                0 <= i < index ==> small_alphanumeric(#[trigger] name@[i]) || name@[i] == '-',
        decreases list.len() - index,
    {
        if !is_small_alphanumeric(list[index]) && list[index] != '-' {
            return false;
        }
        index = index + 1;
    }
    is_small_alphanumeric(list[0]) && is_small_alphanumeric(list[list.len() - 1])
}

/// The SHA-256 digest of the UTF-8 bytes of a text.
pub uninterp spec fn sha256_of(content: Seq<char>) -> Seq<u8>;

/// `sha2::Sha256::digest` on the bytes of a text: thirty-two bytes that depend on
/// the text alone. How they come about is left unsaid.
#[verifier::external_body]
fn sha256(content: &str) -> (digest: Vec<u8>)
    ensures
        digest@ == sha256_of(content@),
        digest@.len() == 32,
{
    let digest = <sha2::Sha256 as sha2::Digest>::digest(content.as_bytes());
    digest.to_vec()
}

/// The hexadecimal digit of a number below sixteen.
pub open spec fn hex_digit(value: int) -> char {
    if value < 10 {
        (48 + value) as char
    } else {
        (87 + value) as char
    }
}

/// Bytes in hexadecimal, two small digits to the byte.
pub open spec fn hex(bytes: Seq<u8>) -> Seq<char>
    decreases bytes.len(),
{
    if bytes.len() == 0 {
        Seq::empty()
    } else {
        hex(bytes.drop_last()).push(hex_digit(bytes.last() as int / 16)).push(
            hex_digit(bytes.last() as int % 16),
        )
    }
}

/// The name that `base` gives for one instance: as much of it as leaves room,
/// then a hyphen and the first eight hexadecimal digits of the digest of the
/// instance's id.
pub open spec fn scoped_name(base: Seq<char>, id: Seq<char>) -> Seq<char> {
    text::shortened(base, SCOPED_BASE_MAX as int) + "-"@ + hex(sha256_of(id).take(4))
}

fn hex_character(value: u8) -> (character: char)
    requires
        value < 16,
    ensures
        character == hex_digit(value as int),
{
    if value < 10 {
        (48 + value) as char
    } else {
        (87 + value) as char
    }
}

/// The name that `base` gives for one instance. It fits in a DNS label whatever
/// its base, and ends with a hyphen and the instance's own eight digits.
pub fn render_instance_scoped_name(base: &str, id: &InstanceId) -> (name: String)
    ensures
        name@ == scoped_name(base@, id@),
        9 <= name@.len() <= DNS_LABEL_MAX,
        text::closes_with(name@, "-"@ + hex(sha256_of(id@).take(4))),
        small_alphanumeric(name@.last()),
{
    let digest = sha256(id.as_str());
    let mut suffix = String::new();
    let mut index: usize = 0;
    assert(digest@.take(0) =~= Seq::<u8>::empty());
    while index < 4
        invariant
            index <= 4,
            digest@.len() == 32,
            suffix@ == hex(digest@.take(index as int)),
        decreases 4 - index,
    {
        let byte: u8 = digest[index];
        suffix.push(hex_character(byte / 16));
        suffix.push(hex_character(byte % 16));
        index = index + 1;
        assert(digest@.take(index as int).drop_last() =~= digest@.take(index - 1));
    }
    let name = shorten(base, SCOPED_BASE_MAX).concat("-").concat(suffix.as_str());
    proof {
        reveal_strlit("-");
        lemma_hex_length(sha256_of(id@).take(4));
        let tail = "-"@ + hex(sha256_of(id@).take(4));
        assert(name@.skip(name@.len() - tail.len()) =~= tail);
    }
    name
}

proof fn lemma_hex_length(bytes: Seq<u8>)
    ensures
        hex(bytes).len() == 2 * bytes.len(),
        forall|i: int| 0 <= i < hex(bytes).len() ==> small_alphanumeric(#[trigger] hex(bytes)[i]),
    decreases bytes.len(),
{
    if bytes.len() > 0 {
        lemma_hex_length(bytes.drop_last());
    }
}

} // verus!
