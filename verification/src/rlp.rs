//! RLP encoding, through `alloy_rlp`, of the values that storage transactions carry.
use vstd::prelude::*;

use alloy_rlp::Error as AlloyRlpError;

verus! {

/// The big-endian bytes of `n` without leading zeros (none at all for zero).
pub open spec fn be_trimmed(n: nat) -> Seq<u8>
    decreases n,
{
    if n == 0 {
        seq![]
    } else {
        be_trimmed(n / 256).push((n % 256) as u8)
    }
}

/// The RLP header of a string (`list == false`) or list payload of `len` bytes.
pub open spec fn rlp_header(list: bool, len: nat) -> Seq<u8> {
    if len < 56 {
        seq![((if list {
            0xc0int
        } else {
            0x80int
        }) + len) as u8]
    } else {
        seq![((if list {
            0xf7int
        } else {
            0xb7int
        }) + be_trimmed(len).len()) as u8] + be_trimmed(len)
    }
}

/// The RLP encoding of a byte string: a single byte below `0x80` stands for
/// itself; any other string gets a string header.
pub open spec fn rlp_string(b: Seq<u8>) -> Seq<u8> {
    if b.len() == 1 && b[0] < 0x80 {
        b
    } else {
        rlp_header(false, b.len()) + b
    }
}

/// The RLP encoding of an unsigned integer: the string of its trimmed big-endian bytes.
pub open spec fn rlp_uint(x: u64) -> Seq<u8> {
    rlp_string(be_trimmed(x as nat))
}

/// The RLP encoding of a list whose items encode to `payload` (concatenated).
pub open spec fn rlp_list(payload: Seq<u8>) -> Seq<u8> {
    rlp_header(true, payload.len()) + payload
}

/// A 32-byte string encodes as `0xa0` followed by its bytes.
pub proof fn lemma_rlp_string_word(b: Seq<u8>)
    requires
        b.len() == 32,
    ensures
        rlp_string(b) == seq![0xa0u8] + b,
{
    assert(rlp_header(false, 32) =~= seq![0xa0u8]);
}

/// Calls `<[u8] as alloy_rlp::Encodable>::encode` on `b` into an empty vector:
/// a single byte below `0x80` stands for itself; any other string gets a string
/// header (`0x80 + len` below 56 bytes, else `0xb7` plus the length of the
/// trimmed big-endian length, then that length), then the bytes.
#[verifier::external_body]
pub(crate) fn rlp_encode_bytes(b: &[u8]) -> (r: Vec<u8>)
    ensures
        r@ == rlp_string(b@),
{
    let mut out: Vec<u8> = Vec::new();
    alloy_rlp::Encodable::encode(b, &mut out);
    out
}

/// Calls `<u64 as alloy_rlp::Encodable>::encode` on `x` into an empty vector:
/// `0x80` for zero, the byte itself below `0x80`, else `0x80` plus the number of
/// trimmed big-endian bytes, then those bytes; that is the string encoding of the
/// trimmed big-endian bytes.
#[verifier::external_body]
pub(crate) fn rlp_encode_u64(x: u64) -> (r: Vec<u8>)
    ensures
        r@ == rlp_uint(x),
{
    let mut out: Vec<u8> = Vec::new();
    alloy_rlp::Encodable::encode(&x, &mut out);
    out
}

/// Calls `alloy_rlp::Header::encode` for a list header of `payload_length` bytes
/// into an empty vector: `0xc0 + len` below 56 bytes, else `0xf7` plus the length
/// of the trimmed big-endian length, then that length.
#[verifier::external_body]
pub(crate) fn rlp_encode_list_header(payload_length: usize) -> (r: Vec<u8>)
    ensures
        r@ == rlp_header(true, payload_length as nat),
{
    let mut out: Vec<u8> = Vec::new();
    alloy_rlp::Header { list: true, payload_length }.encode(&mut out);
    out
}

/// Why bytes are not the RLP encoding of the expected value, as `alloy_rlp` reports it.
#[derive(Debug, Clone, Copy, PartialEq, Eq)]
pub enum RlpError {
    /// Numeric overflow.
    Overflow,
    /// A leading zero where none is allowed.
    LeadingZero,
    /// The input ended early.
    InputTooShort,
    /// A single byte encoded as a string of length one.
    NonCanonicalSingleByte,
    /// A length encoded in a longer form than needed.
    NonCanonicalSize,
    /// A payload of another size than expected.
    UnexpectedLength,
    /// A string where another item was expected.
    UnexpectedString,
    /// A list where another item was expected.
    UnexpectedList,
    /// A list with another number of items than expected.
    ListLengthMismatch { expected: usize, got: usize },
    /// Another error.
    Custom(&'static str),
}

/// Whether bytes start with the canonical RLP encoding of a 32-byte string:
/// the header `0xa0` and then 32 bytes.
pub open spec fn starts_with_word(buf: Seq<u8>) -> bool {
    buf.len() >= 33 && buf[0] == 0xa0
}

/// The error that decoding a 32-byte string from `buf` gives, where it does not
/// start with one.
pub uninterp spec fn rlp_word_error(buf: Seq<u8>) -> RlpError;

/// Calls `<[u8; 32] as alloy_rlp::Decodable>::decode` on `buf`. Where `buf` starts
/// with `0xa0` and 32 more bytes, the result is those 32 bytes and `buf` is left
/// with what follows them. Any other input is an error (a long-form header for 32
/// bytes is non-canonical, any other length or a list is refused), named
/// `rlp_word_error` here, which depends on the bytes alone; what is left of `buf`
/// after an error is not stated.
#[verifier::external_body]
pub(crate) fn rlp_decode_word(buf: &mut &[u8]) -> (r: Result<[u8; 32], RlpError>)
    ensures
        starts_with_word(old(buf)@) ==> (r matches Ok(w) && w@ == old(buf)@.subrange(1, 33)
            && final(buf)@ == old(buf)@.subrange(33, old(buf)@.len() as int)),
        !starts_with_word(old(buf)@) ==> r == Err::<[u8; 32], RlpError>(rlp_word_error(old(buf)@)),
{
    <[u8; 32] as alloy_rlp::Decodable>::decode(buf).map_err(|e| match e {
        AlloyRlpError::Overflow => RlpError::Overflow,
        AlloyRlpError::LeadingZero => RlpError::LeadingZero,
        AlloyRlpError::InputTooShort => RlpError::InputTooShort,
        AlloyRlpError::NonCanonicalSingleByte => RlpError::NonCanonicalSingleByte,
        AlloyRlpError::NonCanonicalSize => RlpError::NonCanonicalSize,
        AlloyRlpError::UnexpectedLength => RlpError::UnexpectedLength,
        AlloyRlpError::UnexpectedString => RlpError::UnexpectedString,
        AlloyRlpError::UnexpectedList => RlpError::UnexpectedList,
        AlloyRlpError::ListLengthMismatch { expected, got } => RlpError::ListLengthMismatch { expected, got },
        AlloyRlpError::Custom(m) => RlpError::Custom(m),
    })
}

/// Append the items of `b` to `a`.
pub fn extend_bytes(a: &mut Vec<u8>, b: &Vec<u8>)
    ensures
        final(a)@ == old(a)@ + b@,
{
    let n = b.len();
    let mut i: usize = 0;
    while i < n
        invariant
            n == b@.len(),
            i <= n,
            a@ == old(a)@ + b@.subrange(0, i as int),
        decreases n - i,
    {
        a.push(b[i]);
        i += 1;
        assert(a@ =~= old(a)@ + b@.subrange(0, i as int));
    }
    assert(b@.subrange(0, n as int) =~= b@);
}

/// The RLP encoding of a list whose items encode to `payload`.
pub fn encode_list(payload: &Vec<u8>) -> (r: Vec<u8>)
    ensures
        r@ == rlp_list(payload@),
{
    let mut out = rlp_encode_list_header(payload.len());
    extend_bytes(&mut out, payload);
    out
}

/// A value with an RLP encoding.
pub trait RlpEncode {
    /// The RLP encoding of the value.
    spec fn rlp(&self) -> Seq<u8>;

    /// Encode the value.
    fn rlp_bytes(&self) -> (r: Vec<u8>)
        ensures
            r@ == self.rlp(),
    ;
}

/// The concatenated encodings of `items`.
pub open spec fn rlp_concat<T: RlpEncode>(items: Seq<T>) -> Seq<u8>
    decreases items.len(),
{
    if items.len() == 0 {
        seq![]
    } else {
        rlp_concat(items.drop_last()) + items.last().rlp()
    }
}

/// The RLP encoding of a list of values.
pub open spec fn rlp_vec<T: RlpEncode>(items: Seq<T>) -> Seq<u8> {
    rlp_list(rlp_concat(items))
}

/// Encode a list of values.
pub fn encode_vec<T: RlpEncode>(items: &Vec<T>) -> (r: Vec<u8>)
    ensures
        r@ == rlp_vec(items@),
{
    let mut payload: Vec<u8> = Vec::new();
    let n = items.len();
    let mut i: usize = 0;
    while i < n
        invariant
            n == items@.len(),
            i <= n,
            payload@ == rlp_concat(items@.subrange(0, i as int)),
        decreases n - i,
    {
        let e = items[i].rlp_bytes();
        extend_bytes(&mut payload, &e);
        assert(items@.subrange(0, i + 1).drop_last() =~= items@.subrange(0, i as int));
        i += 1;
    }
    assert(items@.subrange(0, n as int) =~= items@);
    encode_list(&payload)
}

} // verus!
