//! Encodings shared by the persisted records: little-endian integers, flags,
//! zero-padded text, and length-prefixed lists of addresses.

use vstd::prelude::*;
use vstd::bytes::*;
use vstd::slice::*;
use vstd::utf8::*;
use borsh::BorshDeserialize;
use borsh::BorshSerialize;
use solana_program::pubkey::Pubkey;
use crate::address::Address;

verus! {

/// `n` zero bytes.
pub open spec fn zeros(n: nat) -> Seq<u8> {
    Seq::new(n, |i: int| 0u8)
}

/// The unsigned number with the two's-complement bits of `x`.
pub open spec fn i64_bits(x: i64) -> u64 {
    if x >= 0 {
        x as u64
    } else {
        (x + 0x1_0000_0000_0000_0000) as u64
    }
}

/// The signed number with the bits of `u`.
pub open spec fn i64_of_bits(u: u64) -> i64 {
    if u < 0x8000_0000_0000_0000 {
        u as i64
    } else {
        (u - 0x1_0000_0000_0000_0000) as i64
    }
}

/// The eight bytes of a signed number, least significant first.
pub open spec fn i64_le_bytes(x: i64) -> Seq<u8> {
    spec_u64_to_le_bytes(i64_bits(x))
}

/// The signed number spelled by eight bytes, least significant first.
pub open spec fn i64_from_le(s: Seq<u8>) -> i64 {
    i64_of_bits(spec_u64_from_le_bytes(s))
}

/// Reading back what was written gives the number written.
pub proof fn lemma_i64_round_trip(x: i64)
    ensures
        i64_le_bytes(x).len() == 8,
        i64_from_le(i64_le_bytes(x)) == x,
{
    lemma_auto_spec_u64_to_from_le_bytes();
}

/// The eight bytes of a signed number, least significant first.
pub fn i64_to_le_bytes(x: i64) -> (v: Vec<u8>)
    ensures
        v@ == i64_le_bytes(x),
        v@.len() == 8,
{
    proof {
        lemma_auto_spec_u64_to_from_le_bytes();
    }
    let bits: u64 = if x >= 0 {
        x as u64
    } else {
        let above_min: u64 = (x - i64::MIN) as u64;
        above_min + 0x8000_0000_0000_0000u64
    };
    u64_to_le_bytes(bits)
}

/// The signed number spelled by eight bytes, least significant first.
pub fn i64_from_le_bytes(s: &[u8]) -> (x: i64)
    requires
        s@.len() == 8,
    ensures
        x == i64_from_le(s@),
{
    let bits: u64 = u64_from_le_bytes(s);
    if bits < 0x8000_0000_0000_0000u64 {
        bits as i64
    } else {
        let above_min: u64 = bits - 0x8000_0000_0000_0000u64;
        (above_min as i64) + i64::MIN
    }
}

/// The byte that stands for a flag.
pub open spec fn flag_byte(b: bool) -> u8 {
    if b {
        1
    } else {
        0
    }
}

/// The byte that stands for a flag.
pub fn flag_to_byte(b: bool) -> (byte: u8)
    ensures
        byte == flag_byte(b),
{
    if b {
        1
    } else {
        0
    }
}

/// The flag that a byte stands for; only 0 and 1 stand for one.
pub fn flag_from_byte(byte: u8) -> (r: Option<bool>)
    ensures
        r == (if byte == 0 {
            Some(false)
        } else if byte == 1 {
            Some(true)
        } else {
            None::<bool>
        }),
{
    if byte == 0 {
        Some(false)
    } else if byte == 1 {
        Some(true)
    } else {
        None
    }
}

/// The bytes of a text.
pub open spec fn text_bytes(s: Seq<char>) -> Seq<u8> {
    encode_utf8(s)
}

/// Whether a text takes at most `width` bytes.
pub fn text_fits(s: &String, width: usize) -> (r: bool)
    ensures
        r == (text_bytes(s@).len() <= width),
{
    s.as_str().as_bytes().len() <= width
}

/// Whether each of the texts takes at most `width` bytes.
pub open spec fn texts_fit(texts: Seq<Seq<char>>, width: nat) -> bool {
    forall|i: int| 0 <= i < texts.len() ==> text_bytes(#[trigger] texts[i]).len() <= width
}

/// Whether each of the texts takes at most `width` bytes.
pub fn all_texts_fit(texts: &Vec<String>, width: usize) -> (r: bool)
    ensures
        r == texts_fit(Seq::new(texts@.len(), |i: int| texts@[i]@), width as nat),
{
    let ghost views = Seq::new(texts@.len(), |i: int| texts@[i]@);
    let mut i: usize = 0;
    while i < texts.len()
        invariant
            i <= texts@.len(),
            views == Seq::new(texts@.len(), |i: int| texts@[i]@),
            forall|j: int| 0 <= j < i ==> text_bytes(#[trigger] views[j]).len() <= width,
        decreases texts@.len() - i,
    {
        if !text_fits(&texts[i], width) {
            assert(text_bytes(views[i as int]).len() > width);
            return false;
        }
        i += 1;
    }
    true
}

/// `String::from_utf8` of std: a text comes back exactly when the bytes are
/// well-formed UTF-8, and it is the text that they spell.
#[verifier::external_body]
pub(crate) fn string_from_utf8(bytes: Vec<u8>) -> (r: Option<String>)
    ensures
        r is Some <==> valid_utf8(bytes@),
        r is Some ==> r.unwrap()@ == decode_utf8(bytes@),
{
    String::from_utf8(bytes).ok()
}

/// The text held in `src[from..to]`, where those bytes are well-formed UTF-8.
pub fn read_text(src: &[u8], from: usize, to: usize) -> (r: Option<String>)
    requires
        from <= to <= src@.len(),
    ensures
        r is Some <==> valid_utf8(src@.subrange(from as int, to as int)),
        r is Some ==> r.unwrap()@ == decode_utf8(src@.subrange(from as int, to as int)),
        r is Some ==> text_bytes(r.unwrap()@) == src@.subrange(from as int, to as int),
{
    let part = slice_subrange(src, from, to);
    let r = string_from_utf8(slice_to_vec(part));
    proof {
        if r is Some {
            decode_utf8_encode_utf8(part@);
        }
    }
    r
}

/// `data` laid over the start of `prev`: what a field of fixed width holds
/// after a shorter value was written into it.
pub open spec fn overlay(prev: Seq<u8>, data: Seq<u8>) -> Seq<u8> {
    data + prev.subrange(data.len() as int, prev.len() as int)
}

/// Appends `data` laid over `prev`.
pub fn put_over(out: &mut Vec<u8>, data: &[u8], prev: &[u8])
    requires
        data@.len() <= prev@.len(),
    ensures
        final(out)@ == old(out)@ + overlay(prev@, data@),
        final(out)@.len() == old(out)@.len() + prev@.len(),
{
    out.extend_from_slice(data);
    out.extend_from_slice(slice_subrange(prev, data.len(), prev.len()));
    assert(out@ == old(out)@ + overlay(prev@, data@));
}

/// Appends `src`.
pub fn put(out: &mut Vec<u8>, src: &[u8])
    ensures
        final(out)@ == old(out)@ + src@,
{
    out.extend_from_slice(src);
    assert(out@ =~= old(out)@ + src@);
}

/// `data` followed by zero bytes up to `width`.
pub open spec fn padded(data: Seq<u8>, width: nat) -> Seq<u8> {
    data + zeros((width - data.len()) as nat)
}

/// Appends `data` followed by zero bytes up to `width`.
pub fn put_padded(out: &mut Vec<u8>, data: &[u8], width: usize)
    requires
        data@.len() <= width,
    ensures
        final(out)@ == old(out)@ + padded(data@, width as nat),
        final(out)@.len() == old(out)@.len() + width,
{
    out.extend_from_slice(data);
    let mut i: usize = data.len();
    while i < width
        invariant
            data@.len() <= i <= width,
            out@ == old(out)@ + data@ + zeros((i - data@.len()) as nat),
        decreases width - i,
    {
        out.push(0);
        assert(out@ =~= old(out)@ + data@ + zeros((i + 1 - data@.len()) as nat));
        i += 1;
    }
    assert(out@ =~= old(out)@ + padded(data@, width as nat));
}

/// The bytes of a list of byte strings, one after the other.
pub open spec fn concat(parts: Seq<Seq<u8>>) -> Seq<u8>
    decreases parts.len(),
{
    if parts.len() == 0 {
        Seq::<u8>::empty()
    } else {
        concat(parts.drop_last()) + parts.last()
    }
}

/// The concatenation of the first `i + 1` parts is that of the first `i`
/// followed by part `i`.
pub proof fn lemma_concat_step(parts: Seq<Seq<u8>>, i: int)
    requires
        0 <= i < parts.len(),
    ensures
        concat(parts.take(i + 1)) == concat(parts.take(i)) + parts[i],
        concat(parts.take(0)) == Seq::<u8>::empty(),
{
    assert(parts.take(i + 1).drop_last() == parts.take(i));
}

/// In a concatenation of strings of one width, part `i` stands at `i` times
/// the width.
pub proof fn lemma_concat_part(parts: Seq<Seq<u8>>, width: nat, i: int)
    requires
        forall|j: int| 0 <= j < parts.len() ==> (#[trigger] parts[j]).len() == width,
        0 <= i < parts.len(),
    ensures
        concat(parts).len() == width * parts.len(),
        width * i + width <= concat(parts).len(),
        concat(parts).subrange(width * i, width * i + width) == parts[i],
    decreases parts.len(),
{
    lemma_concat_len(parts, width);
    let init = parts.drop_last();
    lemma_concat_len(init, width);
    assert(width * i + width <= width * parts.len()) by (nonlinear_arith)
        requires
            0 <= i < parts.len(),
    ;
    assert(width * (parts.len() - 1) == width * parts.len() - width) by (nonlinear_arith);
    if i == parts.len() - 1 {
        assert(concat(parts).subrange(width * i, width * i + width) =~= parts[i]);
    } else {
        lemma_concat_part(init, width, i);
        assert(width * i + width <= width * init.len()) by (nonlinear_arith)
            requires
                0 <= i < init.len(),
        ;
        assert(concat(parts).subrange(width * i, width * i + width) =~= concat(init).subrange(
            width * i,
            width * i + width,
        ));
    }
}

/// The views of a list of addresses.
pub open spec fn keys_view(keys: Seq<Address>) -> Seq<Seq<u8>> {
    Seq::new(keys.len(), |i: int| keys[i]@)
}

/// The views of a list of pairs of addresses.
pub open spec fn pairs_view(pairs: Seq<(Address, Address)>) -> Seq<(Seq<u8>, Seq<u8>)> {
    Seq::new(pairs.len(), |i: int| (pairs[i].0@, pairs[i].1@))
}

/// Each pair as one string of 64 bytes.
pub open spec fn joined(pairs: Seq<(Seq<u8>, Seq<u8>)>) -> Seq<Seq<u8>> {
    Seq::new(pairs.len(), |i: int| pairs[i].0 + pairs[i].1)
}

/// A list of addresses as persisted: its length in four bytes, least
/// significant first, then the addresses.
pub open spec fn encode_keys(keys: Seq<Seq<u8>>) -> Seq<u8> {
    spec_u32_to_le_bytes(keys.len() as u32) + concat(keys)
}

/// A list of pairs of addresses as persisted: its length in four bytes, least
/// significant first, then each pair, first address first.
pub open spec fn encode_pairs(pairs: Seq<(Seq<u8>, Seq<u8>)>) -> Seq<u8> {
    spec_u32_to_le_bytes(pairs.len() as u32) + concat(joined(pairs))
}

/// Whether the bytes are a length followed by exactly that many items of
/// `width` bytes.
pub open spec fn items_decodable(bytes: Seq<u8>, width: nat) -> bool {
    &&& bytes.len() >= 4
    &&& bytes.len() == 4 + width * spec_u32_from_le_bytes(bytes.subrange(0, 4))
}

/// The addresses that decodable bytes hold.
pub open spec fn decode_keys(bytes: Seq<u8>) -> Seq<Seq<u8>> {
    Seq::new(
        spec_u32_from_le_bytes(bytes.subrange(0, 4)) as nat,
        |i: int| bytes.subrange(4 + 32 * i, 36 + 32 * i),
    )
}

/// The pairs of addresses that decodable bytes hold.
pub open spec fn decode_pairs(bytes: Seq<u8>) -> Seq<(Seq<u8>, Seq<u8>)> {
    Seq::new(
        spec_u32_from_le_bytes(bytes.subrange(0, 4)) as nat,
        |i: int| (bytes.subrange(4 + 64 * i, 36 + 64 * i), bytes.subrange(36 + 64 * i, 68 + 64 * i)),
    )
}

/// The length of a concatenation of strings of one width.
pub proof fn lemma_concat_len(parts: Seq<Seq<u8>>, width: nat)
    requires
        forall|i: int| 0 <= i < parts.len() ==> (#[trigger] parts[i]).len() == width,
    ensures
        concat(parts).len() == width * parts.len(),
    decreases parts.len(),
{
    if parts.len() > 0 {
        lemma_concat_len(parts.drop_last(), width);
        assert(width * parts.len() == width * (parts.len() - 1) + width) by (nonlinear_arith);
    }
}

/// borsh's `try_to_vec` on a `Vec<Pubkey>`: the length as a little-endian
/// `u32`, then the 32 bytes of each key in order. It gives nothing only
/// where the length does not fit a `u32`.
#[verifier::external_body]
pub(crate) fn borsh_encode_keys(keys: &Vec<Address>) -> (r: Option<Vec<u8>>)
    ensures
        r is Some <==> keys@.len() <= u32::MAX,
        r is Some ==> r.unwrap()@ == encode_keys(keys_view(keys@)),
{
    let list: Vec<Pubkey> = keys.iter().map(|k| Pubkey::new_from_array(k.bytes)).collect();
    list.try_to_vec().ok()
}

/// borsh's `try_from_slice` for a `Vec<Pubkey>`: it succeeds exactly on a
/// little-endian `u32` length followed by that many keys of 32 bytes and
/// nothing more, and gives the keys in order.
#[verifier::external_body]
pub(crate) fn borsh_decode_keys(bytes: &[u8]) -> (r: Option<Vec<Address>>)
    ensures
        r is Some <==> items_decodable(bytes@, 32),
        r is Some ==> keys_view(r.unwrap()@) == decode_keys(bytes@),
{
    let list = Vec::<Pubkey>::try_from_slice(bytes).ok()?;
    Some(list.iter().map(|k| Address { bytes: k.to_bytes() }).collect())
}

/// borsh's `try_to_vec` on a `Vec<(Pubkey, Pubkey)>`: the length as a
/// little-endian `u32`, then the 64 bytes of each pair in order. It gives
/// nothing only where the length does not fit a `u32`.
#[verifier::external_body]
pub(crate) fn borsh_encode_pairs(pairs: &Vec<(Address, Address)>) -> (r: Option<Vec<u8>>)
    ensures
        r is Some <==> pairs@.len() <= u32::MAX,
        r is Some ==> r.unwrap()@ == encode_pairs(pairs_view(pairs@)),
{
    let list: Vec<(Pubkey, Pubkey)> = pairs.iter().map(
        |p| (Pubkey::new_from_array(p.0.bytes), Pubkey::new_from_array(p.1.bytes)),
    ).collect();
    list.try_to_vec().ok()
}

/// borsh's `try_from_slice` for a `Vec<(Pubkey, Pubkey)>`: it succeeds
/// exactly on a little-endian `u32` length followed by that many pairs of 64
/// bytes and nothing more, and gives the pairs in order.
#[verifier::external_body]
pub(crate) fn borsh_decode_pairs(bytes: &[u8]) -> (r: Option<Vec<(Address, Address)>>)
    ensures
        r is Some <==> items_decodable(bytes@, 64),
        r is Some ==> pairs_view(r.unwrap()@) == decode_pairs(bytes@),
{
    let list = Vec::<(Pubkey, Pubkey)>::try_from_slice(bytes).ok()?;
    Some(list.iter().map(|p| (Address { bytes: p.0.to_bytes() }, Address { bytes: p.1.to_bytes() })).collect())
}

} // verus!
