//! Positional wire format between host and guest.
//!
//! Host-side values are encoded into an ordered byte stream; the guest reads
//! them back in exactly the order they were written. There are no keys and no
//! self-describing schema: the write order is the contract. An unsigned
//! 32-bit value takes four little-endian bytes; a sequence of values takes a
//! 32-bit element count followed by the elements themselves.

use vstd::prelude::*;

verus! {

/// The four little-endian bytes of `v`.
pub open spec fn u32_le(v: u32) -> Seq<u8> {
    seq![
        (v % 256) as u8,
        ((v / 256) % 256) as u8,
        ((v / 65536) % 256) as u8,
        ((v / 16777216) % 256) as u8,
    ]
}

/// The `u32` read back from four little-endian bytes.
pub open spec fn u32_from_le(s: Seq<u8>) -> u32
    recommends
        s.len() == 4,
{
    (s[0] + s[1] * 256 + s[2] * 65536 + s[3] * 16777216) as u32
}

/// The encoding of the elements of `s`, in order, without the count prefix.
pub open spec fn u32s_payload(s: Seq<u32>) -> Seq<u8>
    decreases s.len(),
{
    if s.len() == 0 {
        Seq::empty()
    } else {
        u32s_payload(s.drop_last()) + u32_le(s.last())
    }
}

/// The full wire encoding of a sequence of values: the element count,
/// then each element, all little-endian.
pub open spec fn u32s_encoding(s: Seq<u32>) -> Seq<u8>
    recommends
        s.len() <= u32::MAX,
{
    u32_le(s.len() as u32) + u32s_payload(s)
}

/// Byte length of the wire encoding of a sequence of `n` values.
pub open spec fn u32s_encoding_len(n: nat) -> nat {
    4 + 4 * n
}

/// Decoding the four little-endian bytes of a value yields the value back:
/// the positional write/read round trip is exact for every `u32`.
pub proof fn lemma_u32_le_roundtrip(v: u32)
    ensures
        u32_from_le(u32_le(v)) == v,
{
    assert(v % 256 + ((v / 256) % 256) * 256 + ((v / 65536) % 256) * 65536 + ((v / 16777216)
        % 256) * 16777216 == v) by (bit_vector);
}

/// The payload of `n` values takes `4 * n` bytes.
pub proof fn lemma_u32s_payload_len(s: Seq<u32>)
    ensures
        u32s_payload(s).len() == 4 * s.len(),
    decreases s.len(),
{
    if s.len() > 0 {
        lemma_u32s_payload_len(s.drop_last());
    }
}

/// A value appended to any already-written prefix is read back unchanged
/// from its own position: writes are positional and order-preserving.
pub proof fn lemma_positional_read(prefix: Seq<u8>, v: u32)
    ensures
        u32_from_le((prefix + u32_le(v)).subrange(prefix.len() as int, prefix.len() as int + 4)) == v,
{
    assert((prefix + u32_le(v)).subrange(prefix.len() as int, prefix.len() as int + 4) =~= u32_le(v));
    lemma_u32_le_roundtrip(v);
}

/// An error raised when an encoding would exceed the stream's declared
/// capacity, or when a sequence is too long for its 32-bit count prefix.
#[derive(Clone, Copy, Debug, PartialEq, Eq, Structural)]
pub struct SerializeError;

/// An ordered byte stream under construction, bounded by a declared
/// capacity. Writes append at the end; a write that would overflow the
/// capacity fails and leaves the stream unchanged.
pub struct SerializedStream {
    bytes: Vec<u8>,
    capacity: usize,
}

impl View for SerializedStream {
    type V = Seq<u8>;

    closed spec fn view(&self) -> Seq<u8> {
        self.bytes@
    }
}

impl SerializedStream {
    /// The declared capacity in bytes.
    pub closed spec fn spec_capacity(&self) -> nat {
        self.capacity as nat
    }

    /// The stream never holds more bytes than its declared capacity.
    pub open spec fn wf(&self) -> bool {
        self@.len() <= self.spec_capacity()
    }

    /// An empty stream that will accept at most `capacity` bytes.
    pub fn new(capacity: usize) -> (r: SerializedStream)
        ensures
            r@ == Seq::<u8>::empty(),
            r.spec_capacity() == capacity,
            r.wf(),
    {
        SerializedStream { bytes: Vec::new(), capacity }
    }

    /// Number of bytes written so far.
    pub fn len(&self) -> (r: usize)
        ensures
            r == self@.len(),
    {
        self.bytes.len()
    }

    /// Append one value as four little-endian bytes. Fails, leaving the
    /// stream unchanged, exactly when the four bytes do not fit within
    /// the declared capacity.
    pub fn write_u32(&mut self, v: u32) -> (r: Result<(), SerializeError>)
        requires
            old(self).wf(),
        ensures
            final(self).wf(),
            final(self).spec_capacity() == old(self).spec_capacity(),
            r is Ok <==> old(self)@.len() + 4 <= old(self).spec_capacity(),
            r is Ok ==> final(self)@ == old(self)@ + u32_le(v),
            r is Err ==> final(self)@ == old(self)@,
    {
        if self.capacity - self.bytes.len() < 4 {
            return Err(SerializeError);
        }
        self.push_u32_le(v);
        Ok(())
    }

    /// Append a sequence of values: the element count as one 32-bit value,
    /// then each element in order. Fails, leaving the stream unchanged, when
    /// the count does not fit 32 bits or the encoding does not fit the
    /// remaining capacity.
    pub fn write_u32s(&mut self, vals: &Vec<u32>) -> (r: Result<(), SerializeError>)
        requires
            old(self).wf(),
        ensures
            final(self).wf(),
            final(self).spec_capacity() == old(self).spec_capacity(),
            r is Ok <==> vals@.len() <= u32::MAX && old(self)@.len() + u32s_encoding_len(
                vals@.len(),
            ) <= old(self).spec_capacity(),
            r is Ok ==> final(self)@ == old(self)@ + u32s_encoding(vals@),
            r is Err ==> final(self)@ == old(self)@,
    {
        let avail: usize = self.capacity - self.bytes.len();
        if avail < 4 || vals.len() > (avail - 4) / 4 {
            proof {
                if vals@.len() * 4 + 4 <= avail {
                    assert(vals@.len() <= (avail - 4) / 4) by (nonlinear_arith)
                        requires
                            vals@.len() * 4 <= avail - 4,
                    ;
                }
            }
            return Err(SerializeError);
        }
        proof {
            assert(vals@.len() * 4 <= avail - 4) by (nonlinear_arith)
            requires
                vals@.len() <= (avail - 4) / 4,
                avail >= 4,
            ;
        }
        if vals.len() > u32::MAX as usize {
            return Err(SerializeError);
        }
        let ghost start = self@;
        let ghost cap0 = self.spec_capacity();
        self.push_u32_le(vals.len() as u32);
        for i in 0..vals.len()
            invariant
                self@ == start + u32_le(vals@.len() as u32) + u32s_payload(vals@.take(i as int)),
                self.spec_capacity() == cap0,
                start.len() + u32s_encoding_len(vals@.len()) <= cap0,
                vals@.len() <= u32::MAX,
        {
            proof {
                lemma_u32s_payload_len(vals@.take(i as int));
            }
            self.push_u32_le(vals[i]);
            proof {
                assert(vals@.take(i + 1).drop_last() =~= vals@.take(i as int));
                assert(vals@.take(i + 1).last() == vals@[i as int]);
                assert(self@ =~= start + u32_le(vals@.len() as u32) + u32s_payload(
                    vals@.take(i + 1),
                ));
            }
        }
        proof {
            assert(vals@.take(vals@.len() as int) =~= vals@);
            lemma_u32s_payload_len(vals@);
            assert(self@ =~= start + u32s_encoding(vals@));
        }
        Ok(())
    }

    /// Hand the finished byte stream over in write order.
    pub fn finalize(self) -> (r: Vec<u8>)
        ensures
            r@ == self@,
    {
        self.bytes
    }

    /// A read-only view of the bytes written so far, in write order.
    pub fn as_bytes(&self) -> (r: &Vec<u8>)
        ensures
            r@ == self@,
    {
        &self.bytes
    }

    /// Append the four little-endian bytes of `v`, capacity already checked.
    fn push_u32_le(&mut self, v: u32)
        requires
            old(self)@.len() + 4 <= old(self).spec_capacity(),
        ensures
            final(self)@ == old(self)@ + u32_le(v),
            final(self).spec_capacity() == old(self).spec_capacity(),
            final(self).wf(),
    {
        self.bytes.push((v % 256) as u8);
        self.bytes.push(((v / 256) % 256) as u8);
        self.bytes.push(((v / 65536) % 256) as u8);
        self.bytes.push(((v / 16777216) % 256) as u8);
        proof {
            assert(self@ =~= old(self)@ + u32_le(v));
        }
    }
}

/// Read the positional value at byte offset `pos`: the guest-side half of
/// the round trip. Returns the decoded value and the offset just past it.
pub fn read_u32_at(bytes: &Vec<u8>, pos: usize) -> (r: Option<(u32, usize)>)
    ensures
        r is Some <==> pos + 4 <= bytes@.len(),
        r matches Some(p) ==> p.0 == u32_from_le(bytes@.subrange(pos as int, pos + 4)) && p.1
            == pos + 4,
{
    if bytes.len() < 4 || pos > bytes.len() - 4 {
        return None;
    }
    let b0 = bytes[pos] as u32;
    let b1 = bytes[pos + 1] as u32;
    let b2 = bytes[pos + 2] as u32;
    let b3 = bytes[pos + 3] as u32;
    let v = b0 + b1 * 256 + b2 * 65536 + b3 * 16777216;
    proof {
        let s = bytes@.subrange(pos as int, pos + 4);
        assert(s[0] == bytes@[pos as int] && s[1] == bytes@[pos + 1] && s[2] == bytes@[pos + 2]
            && s[3] == bytes@[pos + 3]);
    }
    Some((v, pos + 4))
}

} // verus!
