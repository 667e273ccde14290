//! Wire-level encodings shared by MQTT control packets: big-endian 16-bit
//! integers, the variable-length Remaining Length, and length-prefixed
//! UTF-8 strings and binary data.

use vstd::prelude::*;
use vstd::utf8::{decode_utf8, encode_utf8, encode_utf8_decode_utf8, encode_utf8_valid_utf8, valid_utf8};

use crate::error::{ErrorKind, MqttError};
use crate::text::utf8_to_string;

verus! {

/// A big-endian 16-bit integer from its two bytes.
pub open spec fn be_u16(hi: u8, lo: u8) -> u16 {
    (hi as int * 256 + lo as int) as u16
}

/// 128 to the power `n`.
pub open spec fn pow128(n: nat) -> nat
    decreases n,
{
    if n == 0 {
        1
    } else {
        128 * pow128((n - 1) as nat)
    }
}

/// The value of the first `n` 7-bit groups of a variable-length integer,
/// least significant group first.
pub open spec fn vbi_sum(buf: Seq<u8>, n: nat) -> nat
    decreases n,
{
    if n == 0 {
        0
    } else {
        vbi_sum(buf, (n - 1) as nat) + (buf[n - 1] % 128) as nat * pow128((n - 1) as nat)
    }
}

/// The outcome of reading a Remaining Length field.
pub enum RemainingLength {
    /// The buffer ends before the field is complete.
    NeedMore,
    /// The field encodes `value` in `size` bytes.
    Length { value: nat, size: nat },
    /// The field does not end within four bytes; `value` is the sum of the first five groups.
    Overflow { value: nat },
}

/// Reads the Remaining Length field from byte `i` on; bytes before `i` all
/// carry the continuation bit.
pub open spec fn remaining_length_from(buf: Seq<u8>, i: nat) -> RemainingLength
    decreases 5 - i,
{
    if i >= buf.len() {
        RemainingLength::NeedMore
    } else if i >= 4 {
        RemainingLength::Overflow { value: vbi_sum(buf, 5) }
    } else if buf[i as int] < 128 {
        RemainingLength::Length { value: vbi_sum(buf, i + 1), size: i + 1 }
    } else {
        remaining_length_from(buf, i + 1)
    }
}

/// Reads the Remaining Length field at the start of `buf`: up to four bytes,
/// seven bits each, least significant first, the high bit marking continuation.
pub open spec fn remaining_length(buf: Seq<u8>) -> RemainingLength {
    remaining_length_from(buf, 0)
}

/// The encoding of a Remaining Length value: seven bits per byte, least
/// significant first, the high bit set on every byte but the last.
pub open spec fn encode_remaining_length(n: nat) -> Seq<u8>
    decreases n,
{
    if n < 128 {
        seq![n as u8]
    } else {
        seq![((n % 128) + 128) as u8] + encode_remaining_length(n / 128)
    }
}

/// Prepending a byte to a buffer shifts its 7-bit groups up by one place.
proof fn lemma_vbi_sum_cons(b: u8, s: Seq<u8>, m: nat)
    requires
        m <= s.len(),
    ensures
        vbi_sum(seq![b] + s, m + 1) == (b % 128) as nat + 128 * vbi_sum(s, m),
    decreases m,
{
    let c = seq![b] + s;
    assert(c[0] == b);
    assert(pow128(0) == 1);
    assert(vbi_sum(c, 1) == vbi_sum(c, 0) + (c[0] % 128) as nat * pow128(0));
    if m > 0 {
        lemma_vbi_sum_cons(b, s, (m - 1) as nat);
        assert(c[m as int] == s[m - 1]);
        let x = (s[m - 1] % 128) as nat;
        let p = pow128((m - 1) as nat);
        assert(pow128(m) == 128 * p);
        assert(vbi_sum(c, m + 1) == vbi_sum(c, m) + x * pow128(m));
        assert(vbi_sum(s, m) == vbi_sum(s, (m - 1) as nat) + x * p);
        assert(x * (128 * p) == 128 * (x * p)) by (nonlinear_arith);
    }
}

/// The shape of an encoded Remaining Length below 128 to the power four:
/// one to four bytes, the continuation bit on all but the last, and the
/// groups summing to the value, whatever bytes follow.
proof fn lemma_encode_remaining_length_shape(n: nat, rest: Seq<u8>)
    requires
        n < 268435456,
    ensures
        1 <= encode_remaining_length(n).len() <= 4,
        n < 128 ==> encode_remaining_length(n).len() == 1,
        n < 16384 ==> encode_remaining_length(n).len() <= 2,
        n < 2097152 ==> encode_remaining_length(n).len() <= 3,
        forall|j: int|
            0 <= j < encode_remaining_length(n).len() - 1 ==> #[trigger] encode_remaining_length(
                n,
            )[j] >= 128,
        encode_remaining_length(n)[encode_remaining_length(n).len() - 1] < 128,
        vbi_sum(encode_remaining_length(n) + rest, encode_remaining_length(n).len()) == n,
    decreases n,
{
    let e = encode_remaining_length(n);
    if n < 128 {
        assert(e == seq![n as u8]);
        assert((e + rest)[0] == n as u8);
        assert(pow128(0) == 1);
        assert(vbi_sum(e + rest, 1) == vbi_sum(e + rest, 0) + ((e + rest)[0] % 128) as nat * pow128(0));
    } else {
        let q = n / 128;
        let e2 = encode_remaining_length(q);
        lemma_encode_remaining_length_shape(q, rest);
        let b = ((n % 128) + 128) as u8;
        assert(e == seq![b] + e2);
        assert(e + rest =~= seq![b] + (e2 + rest));
        lemma_vbi_sum_cons(b, e2 + rest, e2.len());
        assert(n == n % 128 + 128 * q);
        assert forall|j: int| 0 <= j < e.len() - 1 implies #[trigger] e[j] >= 128 by {
            if j > 0 {
                assert(e[j] == e2[j - 1]);
            }
        }
        assert(e[e.len() - 1] == e2[e2.len() - 1]);
    }
}

/// Reading a Remaining Length from byte `i` on, over bytes that carry the
/// continuation bit up to a final byte without it.
proof fn lemma_remaining_length_from_ends(buf: Seq<u8>, i: nat, size: nat)
    requires
        i < size <= 4,
        size <= buf.len(),
        forall|j: int| i <= j < size - 1 ==> #[trigger] buf[j] >= 128,
        buf[size - 1] < 128,
    ensures
        remaining_length_from(buf, i) == (RemainingLength::Length {
            value: vbi_sum(buf, size),
            size,
        }),
    decreases size - i,
{
    if i + 1 < size {
        assert(buf[i as int] >= 128);
        lemma_remaining_length_from_ends(buf, i + 1, size);
    }
}

/// A Remaining Length field that the encoding wrote is read back as the
/// value it encodes, whatever bytes follow it.
pub proof fn lemma_remaining_length_roundtrip(n: nat, rest: Seq<u8>)
    requires
        n < 268435456,
    ensures
        remaining_length(encode_remaining_length(n) + rest) == (RemainingLength::Length {
            value: n,
            size: encode_remaining_length(n).len(),
        }),
        1 <= encode_remaining_length(n).len() <= 4,
{
    let e = encode_remaining_length(n);
    lemma_encode_remaining_length_shape(n, rest);
    let buf = e + rest;
    assert forall|j: int| 0 <= j < e.len() - 1 implies #[trigger] buf[j] >= 128 by {
        assert(buf[j] == e[j]);
    }
    assert(buf[e.len() - 1] == e[e.len() - 1]);
    lemma_remaining_length_from_ends(buf, 0, e.len());
}

/// Reads a length-prefixed UTF-8 string at the start of `s`; on success
/// gives the characters and the number of bytes consumed.
#[verifier::opaque]
pub open spec fn string_field(s: Seq<u8>) -> Result<(Seq<char>, nat), ErrorKind> {
    if s.len() < 2 {
        Err(ErrorKind::IncompletePacket { expected: 2, actual: s.len() as usize })
    } else {
        let len = be_u16(s[0], s[1]) as nat;
        if s.len() - 2 < len {
            Err(ErrorKind::IncompletePacket { expected: len as usize, actual: (s.len() - 2) as usize })
        } else if !valid_utf8(s.subrange(2, 2 + len as int)) {
            Err(ErrorKind::Utf8Error)
        } else {
            Ok((decode_utf8(s.subrange(2, 2 + len as int)), 2 + len))
        }
    }
}

/// Reads length-prefixed binary data at the start of `s`; on success gives
/// the bytes and the number of bytes consumed.
#[verifier::opaque]
pub open spec fn binary_field(s: Seq<u8>) -> Result<(Seq<u8>, nat), ErrorKind> {
    if s.len() < 2 {
        Err(ErrorKind::IncompletePacket { expected: 2, actual: s.len() as usize })
    } else {
        let len = be_u16(s[0], s[1]) as nat;
        if s.len() - 2 < len {
            Err(ErrorKind::IncompletePacket { expected: len as usize, actual: (s.len() - 2) as usize })
        } else {
            Ok((s.subrange(2, 2 + len as int), 2 + len))
        }
    }
}

/// The two big-endian bytes of a 16-bit integer.
pub open spec fn u16_bytes(v: u16) -> Seq<u8> {
    seq![(v / 256) as u8, (v % 256) as u8]
}

/// A length-prefixed UTF-8 string: its byte length as a 16-bit integer,
/// then its UTF-8 bytes.
pub open spec fn string_bytes(t: Seq<char>) -> Seq<u8> {
    u16_bytes(encode_utf8(t).len() as u16) + encode_utf8(t)
}

/// Length-prefixed binary data: its length as a 16-bit integer, then the bytes.
pub open spec fn binary_bytes(b: Seq<u8>) -> Seq<u8> {
    u16_bytes(b.len() as u16) + b
}

/// The two bytes of a 16-bit integer read back as that integer.
pub proof fn lemma_u16_bytes(v: u16)
    ensures
        be_u16(u16_bytes(v)[0], u16_bytes(v)[1]) == v,
        u16_bytes(v).len() == 2,
{
}

/// A length-prefixed string that was written is read back, whatever bytes follow.
pub proof fn lemma_string_roundtrip(t: Seq<char>, rest: Seq<u8>)
    requires
        encode_utf8(t).len() <= 65535,
    ensures
        string_field(string_bytes(t) + rest) == Ok::<(Seq<char>, nat), ErrorKind>(
            (t, 2 + encode_utf8(t).len()),
        ),
        string_bytes(t).len() == 2 + encode_utf8(t).len(),
{
    reveal(string_field);
    let e = encode_utf8(t);
    let s = string_bytes(t) + rest;
    lemma_u16_bytes(e.len() as u16);
    assert(s[0] == u16_bytes(e.len() as u16)[0]);
    assert(s[1] == u16_bytes(e.len() as u16)[1]);
    assert(s.subrange(2, 2 + e.len() as int) =~= e);
    encode_utf8_valid_utf8(t);
    encode_utf8_decode_utf8(t);
}

/// Length-prefixed binary data that was written is read back, whatever bytes follow.
pub proof fn lemma_binary_roundtrip(b: Seq<u8>, rest: Seq<u8>)
    requires
        b.len() <= 65535,
    ensures
        binary_field(binary_bytes(b) + rest) == Ok::<(Seq<u8>, nat), ErrorKind>((b, 2 + b.len())),
        binary_bytes(b).len() == 2 + b.len(),
{
    reveal(binary_field);
    let s = binary_bytes(b) + rest;
    lemma_u16_bytes(b.len() as u16);
    assert(s[0] == u16_bytes(b.len() as u16)[0]);
    assert(s[1] == u16_bytes(b.len() as u16)[1]);
    assert(s.subrange(2, 2 + b.len() as int) =~= b);
}

/// A string field that is read successfully consumes its two length bytes
/// and at most the whole input.
pub proof fn lemma_string_field_consumes(s: Seq<u8>)
    ensures
        string_field(s) matches Ok((_, n)) ==> 2 <= n <= s.len(),
{
    reveal(string_field);
}

/// A binary field that is read successfully consumes its two length bytes
/// and at most the whole input.
pub proof fn lemma_binary_field_consumes(s: Seq<u8>)
    ensures
        binary_field(s) matches Ok((_, n)) ==> 2 <= n <= s.len(),
{
    reveal(binary_field);
}

/// The value of the first `n` groups is below 128 to the power `n`.
pub proof fn lemma_vbi_sum_bound(buf: Seq<u8>, n: nat)
    requires
        n <= buf.len(),
    ensures
        vbi_sum(buf, n) < pow128(n),
    decreases n,
{
    if n > 0 {
        lemma_vbi_sum_bound(buf, (n - 1) as nat);
        let d = (buf[n - 1] % 128) as nat;
        let p = pow128((n - 1) as nat);
        assert(d * p <= 127 * p) by (nonlinear_arith)
            requires
                d <= 127,
        ;
    }
}

/// Reading a Remaining Length from `i` on ends within the first five bytes.
proof fn lemma_remaining_length_from_size(buf: Seq<u8>, i: nat)
    requires
        i <= 4,
    ensures
        remaining_length_from(buf, i) matches RemainingLength::Length { value, size } ==> i < size
            <= 4 && size <= buf.len() && value == vbi_sum(buf, size) && buf[size - 1] < 128,
    decreases 5 - i,
{
    if i < buf.len() && i < 4 && buf[i as int] >= 128 {
        lemma_remaining_length_from_size(buf, i + 1);
    }
}

/// Parses a Remaining Length field at the start of `buf`.
///
/// Returns `(length, field size)`; when the buffer ends before the field is
/// complete it returns `(0, 0)`.
pub fn parse_remaining_length(buf: &[u8]) -> (res: Result<(usize, usize), MqttError>)
    ensures
        match remaining_length(buf@) {
            RemainingLength::NeedMore => res == Ok::<(usize, usize), MqttError>((0, 0)),
            RemainingLength::Length { value, size } => res matches Ok((v, s)) && v == value
                && s == size,
            RemainingLength::Overflow { value } => res matches Err(e) && e.kind()
                == (ErrorKind::InvalidRemainingLength { length: value as usize }),
        },
        res matches Ok((v, s)) ==> v < 268435456 && s <= 4,
        remaining_length(buf@) matches RemainingLength::Length { size, .. } ==> 1 <= size,
{
    proof {
        lemma_remaining_length_from_size(buf@, 0);
    }
    let mut multiplier: u64 = 1;
    let mut remaining_length: u64 = 0;
    let mut idx: usize = 0;
    proof {
        reveal_with_fuel(pow128, 6);
        reveal_with_fuel(remaining_length_from, 1);
    }
    loop
        invariant
            idx <= 4,
            idx <= buf@.len(),
            multiplier == pow128(idx as nat),
            remaining_length == vbi_sum(buf@, idx as nat),
            remaining_length < pow128(idx as nat),
            pow128(0) == 1 && pow128(1) == 128 && pow128(2) == 16384 && pow128(3) == 2097152
                && pow128(4) == 268435456,
            remaining_length_from(buf@, 0) == remaining_length_from(buf@, idx as nat),
        decreases 5 - idx,
    {
        if idx >= buf.len() {
            return Ok((0, 0));
        }
        let encoded_byte = buf[idx];
        let digit = encoded_byte & 0x7F;
        assert(digit == encoded_byte % 128) by (bit_vector)
            requires
                digit == encoded_byte & 0x7F,
        ;
        assert((digit as u64) * multiplier <= 127 * 268435456) by (nonlinear_arith)
            requires
                digit <= 127,
                multiplier <= 268435456,
        ;
        remaining_length = remaining_length + (digit as u64) * multiplier;
        assert(vbi_sum(buf@, (idx + 1) as nat) == vbi_sum(buf@, idx as nat) + (buf@[idx as int]
            % 128) as nat * pow128(idx as nat));
        idx += 1;
        if multiplier > 2097152 {
            return Err(MqttError::InvalidRemainingLength { length: remaining_length as usize });
        }
        proof {
            lemma_vbi_sum_bound(buf@, idx as nat);
        }
        if (encoded_byte & 0x80) == 0 {
            assert(encoded_byte < 128) by (bit_vector)
                requires
                    (encoded_byte & 0x80) == 0,
            ;
            proof {
                lemma_vbi_sum_bound(buf@, idx as nat);
            }
            return Ok((remaining_length as usize, idx));
        }
        assert(encoded_byte >= 128) by (bit_vector)
            requires
                (encoded_byte & 0x80) != 0,
        ;
        multiplier = multiplier * 128;
    }
}

/// Reads a length-prefixed UTF-8 string at byte `pos` of `buf`.
pub fn parse_utf8_string(buf: &[u8], pos: usize) -> (res: Result<(String, usize), MqttError>)
    requires
        pos <= buf@.len(),
    ensures
        match string_field(buf@.skip(pos as int)) {
            Ok((s, n)) => res matches Ok((r, p)) && r@ == s && p == pos + n && pos + 2 <= p
                <= buf@.len(),
            Err(k) => res matches Err(e) && e.kind() == k,
        },
{
    reveal(string_field);
    reveal(binary_field);
    let ghost s = buf@.skip(pos as int);
    let avail = buf.len() - pos;
    if avail < 2 {
        return Err(MqttError::incomplete(2, avail));
    }
    let len = (buf[pos] as usize) * 256 + (buf[pos + 1] as usize);
    assert(len == be_u16(s[0], s[1]) as nat);
    if avail - 2 < len {
        return Err(MqttError::incomplete(len, avail - 2));
    }
    let start = pos + 2;
    let end = start + len;
    let bytes = slice_range(buf, start, end);
    assert(bytes@ =~= s.subrange(2, 2 + len as int));
    match utf8_to_string(bytes) {
        Ok(text) => Ok((text, end)),
        Err(e) => Err(MqttError::Utf8Error(e)),
    }
}

/// Reads length-prefixed binary data at byte `pos` of `buf`.
pub fn parse_binary_data(buf: &[u8], pos: usize) -> (res: Result<(Vec<u8>, usize), MqttError>)
    requires
        pos <= buf@.len(),
    ensures
        match binary_field(buf@.skip(pos as int)) {
            Ok((b, n)) => res matches Ok((r, p)) && r@ == b && p == pos + n && pos + 2 <= p
                <= buf@.len(),
            Err(k) => res matches Err(e) && e.kind() == k,
        },
{
    reveal(string_field);
    reveal(binary_field);
    let ghost s = buf@.skip(pos as int);
    let avail = buf.len() - pos;
    if avail < 2 {
        return Err(MqttError::incomplete(2, avail));
    }
    let len = (buf[pos] as usize) * 256 + (buf[pos + 1] as usize);
    assert(len == be_u16(s[0], s[1]) as nat);
    if avail - 2 < len {
        return Err(MqttError::incomplete(len, avail - 2));
    }
    let start = pos + 2;
    let end = start + len;
    let data = slice_to_vec(slice_range(buf, start, end));
    assert(data@ =~= s.subrange(2, 2 + len as int));
    Ok((data, end))
}

/// The sub-slice of `buf` from `start` up to `end`.
pub fn slice_range(buf: &[u8], start: usize, end: usize) -> (r: &[u8])
    requires
        start <= end <= buf@.len(),
    ensures
        r@ == buf@.subrange(start as int, end as int),
{
    &buf[start..end]
}

/// Copies a slice into a new vector.
pub fn slice_to_vec(s: &[u8]) -> (v: Vec<u8>)
    ensures
        v@ == s@,
{
    let mut v: Vec<u8> = Vec::new();
    let mut i: usize = 0;
    while i < s.len()
        invariant
            i <= s.len(),
            v@ == s@.subrange(0, i as int),
        decreases s.len() - i,
    {
        v.push(s[i]);
        i += 1;
        assert(v@ =~= s@.subrange(0, i as int));
    }
    assert(s@.subrange(0, s@.len() as int) =~= s@);
    v
}

} // verus!
