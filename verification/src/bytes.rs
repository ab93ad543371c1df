//! Byte strings: comparison, concatenation and big-endian integers.
use vstd::prelude::*;
use vstd::utf8::*;

verus! {

/// The contents of each byte string of a list.
pub open spec fn views(list: Seq<Vec<u8>>) -> Seq<Seq<u8>> {
    Seq::new(list.len(), |i: int| list[i]@)
}

/// The two bytes of `value`, most significant first.
#[verifier::opaque]
pub open spec fn be16(value: u16) -> Seq<u8> {
    seq![(value / 256) as u8, (value % 256) as u8]
}

/// The four bytes of `value`, most significant first.
#[verifier::opaque]
pub open spec fn be32(value: u32) -> Seq<u8> {
    seq![
        (value / 0x100_0000) as u8,
        ((value / 0x1_0000) % 256) as u8,
        ((value / 0x100) % 256) as u8,
        (value % 256) as u8,
    ]
}

/// The number whose big-endian bytes are `bytes`.
#[verifier::opaque]
pub open spec fn from_be16(bytes: Seq<u8>) -> u16 {
    (bytes[0] * 256 + bytes[1]) as u16
}

/// The number whose big-endian bytes are `bytes`.
#[verifier::opaque]
pub open spec fn from_be32(bytes: Seq<u8>) -> u32 {
    (bytes[0] * 0x100_0000 + bytes[1] * 0x1_0000 + bytes[2] * 0x100 + bytes[3]) as u32
}

/// Reading the big-endian bytes of a number gives the number back.
pub broadcast proof fn be16_round_trip(value: u16)
    ensures
        #[trigger] be16(value).len() == 2,
        from_be16(be16(value)) == value,
{
    reveal(be16);
    reveal(from_be16);
}

/// Two bytes are the big-endian bytes of the number read from them.
pub proof fn from_be16_round_trip(bytes: Seq<u8>)
    requires
        bytes.len() == 2,
    ensures
        be16(from_be16(bytes)) == bytes,
{
    reveal(be16);
    reveal(from_be16);
    assert(be16(from_be16(bytes)) =~= bytes);
}

/// Reading the big-endian bytes of a number gives the number back.
pub broadcast proof fn be32_round_trip(value: u32)
    ensures
        #[trigger] be32(value).len() == 4,
        from_be32(be32(value)) == value,
{
    reveal(be32);
    reveal(from_be32);
    assert(((value / 0x100_0000) as u8) * 0x100_0000 + (((value / 0x1_0000) % 256) as u8) * 0x1_0000
        + (((value / 0x100) % 256) as u8) * 0x100 + ((value % 256) as u8) == value)
        by (bit_vector);
}

/// Four bytes are the big-endian bytes of the number read from them.
pub proof fn from_be32_round_trip(bytes: Seq<u8>)
    requires
        bytes.len() == 4,
    ensures
        be32(from_be32(bytes)) == bytes,
{
    reveal(be32);
    reveal(from_be32);
    let (a, b, c, d) = (bytes[0], bytes[1], bytes[2], bytes[3]);
    let value = from_be32(bytes);
    assert(value == a * 0x100_0000 + b * 0x1_0000 + c * 0x100 + d);
    assert((value / 0x100_0000) as u8 == a && ((value / 0x1_0000) % 256) as u8 == b
        && ((value / 0x100) % 256) as u8 == c && (value % 256) as u8 == d) by (bit_vector)
        requires
            value == a * 0x100_0000 + b * 0x1_0000 + c * 0x100 + d,
    ;
    assert(be32(value) =~= bytes);
}

/// Whether two byte strings hold the same bytes.
pub fn same_bytes(left: &[u8], right: &[u8]) -> (same: bool)
    ensures
        same == (left@ == right@),
{
    if left.len() != right.len() {
        return false;
    }
    let mut i: usize = 0;
    while i < left.len()
        invariant
            i <= left.len() == right.len(),
            forall|j: int| 0 <= j < i ==> left@[j] == right@[j],
        decreases left.len() - i,
    {
        if left[i] != right[i] {
            return false;
        }
        i += 1;
    }
    assert(left@ =~= right@);
    true
}

/// Whether `bytes` is the UTF-8 encoding of `text`.
pub fn is_text(bytes: &[u8], text: &str) -> (same: bool)
    ensures
        same == (bytes@ == encode_utf8(text@)),
{
    same_bytes(bytes, text.as_bytes())
}

/// Appends `tail` to `out`.
pub fn append(out: &mut Vec<u8>, tail: &[u8])
    ensures
        final(out)@ == old(out)@ + tail@,
{
    let ghost before = out@;
    out.extend_from_slice(tail);
    assert(out@ =~= before + tail@);
}

/// Appends the UTF-8 encoding of `tail` to `out`.
pub fn append_text(out: &mut Vec<u8>, tail: &str)
    ensures
        final(out)@ == old(out)@ + encode_utf8(tail@),
{
    append(out, tail.as_bytes());
}

/// A copy of `bytes`.
pub fn copy(bytes: &[u8]) -> (out: Vec<u8>)
    ensures
        out@ == bytes@,
{
    vstd::slice::slice_to_vec(bytes)
}

/// A copy of a list of byte strings.
pub fn copy_slice(list: &[Vec<u8>]) -> (out: Vec<Vec<u8>>)
    ensures
        views(out@) == views(list@),
{
    let mut out: Vec<Vec<u8>> = Vec::new();
    let mut i: usize = 0;
    while i < list.len()
        invariant
            i <= list.len(),
            out@.len() == i,
            forall|j: int| 0 <= j < out@.len() ==> out@[j]@ == list@[j]@,
        decreases list.len() - i,
    {
        out.push(copy(list[i].as_slice()));
        i += 1;
    }
    assert(views(out@) =~= views(list@));
    out
}

/// A copy of a list of byte strings.
pub fn copy_list(list: &Vec<Vec<u8>>) -> (out: Vec<Vec<u8>>)
    ensures
        views(out@) == views(list@),
{
    copy_slice(list.as_slice())
}

/// The number whose four big-endian bytes are `bytes`.
pub fn read_be32(bytes: &[u8]) -> (value: u32)
    requires
        bytes@.len() == 4,
    ensures
        value == from_be32(bytes@),
{
    proof {
        reveal(from_be32);
    }
    bytes[0] as u32 * 0x100_0000 + bytes[1] as u32 * 0x1_0000 + bytes[2] as u32 * 0x100
        + bytes[3] as u32
}

/// The number whose two big-endian bytes are `bytes`.
pub fn read_be16(bytes: &[u8]) -> (value: u16)
    requires
        bytes@.len() == 2,
    ensures
        value == from_be16(bytes@),
{
    proof {
        reveal(from_be16);
    }
    bytes[0] as u16 * 256 + bytes[1] as u16
}

/// Appends the big-endian bytes of `value` to `out`.
pub fn append_be16(out: &mut Vec<u8>, value: u16)
    ensures
        final(out)@ == old(out)@ + be16(value),
{
    let ghost before = out@;
    out.push((value / 256) as u8);
    out.push((value % 256) as u8);
    proof {
        reveal(be16);
        assert(out@ =~= before + be16(value));
    }
}

/// Appends the big-endian bytes of `value` to `out`.
pub fn append_be32(out: &mut Vec<u8>, value: u32)
    ensures
        final(out)@ == old(out)@ + be32(value),
{
    let ghost before = out@;
    out.push((value / 0x100_0000) as u8);
    out.push(((value / 0x1_0000) % 256) as u8);
    out.push(((value / 0x100) % 256) as u8);
    out.push((value % 256) as u8);
    proof {
        reveal(be32);
        assert(out@ =~= before + be32(value));
    }
}

} // verus!
