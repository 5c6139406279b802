//! The instruction decoder: little-endian integer fields, the registered
//! operation table, and the two wire formats (a single-byte opcode followed by
//! a fixed-width size field, and an eight-byte discriminator with no further
//! payload), together with their encoders and round-trip laws.

use vstd::prelude::*;
use crate::ExecError;

verus! {

/// The single registered privileged operation.
#[derive(Clone, Copy, Debug, PartialEq, Eq, Structural)]
pub enum Operation {
    /// Create one new account.
    Create,
}

/// A decoded instruction: the operation selector and, where the wire format
/// carries one, the requested data size.
#[derive(Clone, Copy, Debug)]
pub struct Decoded {
    /// The operation the payload selects.
    pub op: Operation,
    /// The requested size field, where the format carries one.
    pub space: Option<u64>,
}

/// The opcode of the create operation in the minimal single-byte format.
pub const CREATE_OPCODE: u8 = 0;

/// The eight-byte discriminator of the create operation in the fixed-width
/// format.
pub open spec fn create_discriminator() -> Seq<u8> {
    seq![67u8, 82u8, 69u8, 65u8, 84u8, 65u8, 67u8, 67u8]
}

/// The four-byte little-endian operation index the privileged allocator's own
/// wire format opens a create request with.
pub open spec fn create_account_payload_index() -> Seq<u8> {
    seq![0u8, 0u8, 0u8, 0u8]
}

/// The value of eight little-endian bytes.
pub open spec fn u64_from_le(s: Seq<u8>) -> u64
    recommends
        s.len() == 8,
{
    (s[0] as u64) | ((s[1] as u64) << 8) | ((s[2] as u64) << 16) | ((s[3] as u64) << 24)
        | ((s[4] as u64) << 32) | ((s[5] as u64) << 40) | ((s[6] as u64) << 48) | ((
    s[7] as u64) << 56)
}

/// The eight little-endian bytes of a value.
pub open spec fn u64_le_bytes(x: u64) -> Seq<u8> {
    seq![
        (x & 0xff) as u8,
        ((x >> 8) & 0xff) as u8,
        ((x >> 16) & 0xff) as u8,
        ((x >> 24) & 0xff) as u8,
        ((x >> 32) & 0xff) as u8,
        ((x >> 40) & 0xff) as u8,
        ((x >> 48) & 0xff) as u8,
        ((x >> 56) & 0xff) as u8,
    ]
}

/// Reading back the bytes of a value gives the value.
pub proof fn lemma_u64_le_identity(x: u64)
    ensures
        u64_from_le(u64_le_bytes(x)) == x,
{
    assert(((x & 0xff) as u8 as u64) | ((((x >> 8) & 0xff) as u8 as u64) << 8) | ((((x >> 16)
        & 0xff) as u8 as u64) << 16) | ((((x >> 24) & 0xff) as u8 as u64) << 24) | ((((x >> 32)
        & 0xff) as u8 as u64) << 32) | ((((x >> 40) & 0xff) as u8 as u64) << 40) | ((((x >> 48)
        & 0xff) as u8 as u64) << 48) | ((((x >> 56) & 0xff) as u8 as u64) << 56) == x)
        by (bit_vector);
}

/// Writing back the value of eight bytes gives the bytes.
pub proof fn lemma_u64_le_bytes_identity(s: Seq<u8>)
    requires
        s.len() == 8,
    ensures
        u64_le_bytes(u64_from_le(s)) =~= s,
{
    let b0 = s[0];
    let b1 = s[1];
    let b2 = s[2];
    let b3 = s[3];
    let b4 = s[4];
    let b5 = s[5];
    let b6 = s[6];
    let b7 = s[7];
    let x = u64_from_le(s);
    assert((x & 0xff) as u8 == b0 && ((x >> 8) & 0xff) as u8 == b1 && ((x >> 16) & 0xff) as u8
        == b2 && ((x >> 24) & 0xff) as u8 == b3 && ((x >> 32) & 0xff) as u8 == b4 && ((x >> 40)
        & 0xff) as u8 == b5 && ((x >> 48) & 0xff) as u8 == b6 && ((x >> 56) & 0xff) as u8 == b7)
        by (bit_vector)
        requires
            x == (b0 as u64) | ((b1 as u64) << 8) | ((b2 as u64) << 16) | ((b3 as u64) << 24) | ((
            b4 as u64) << 32) | ((b5 as u64) << 40) | ((b6 as u64) << 48) | ((b7 as u64) << 56),
    ;
}

/// Reads the eight-byte little-endian field starting at `off`.
pub fn read_u64_le(data: &[u8], off: usize) -> (r: u64)
    requires
        off + 8 <= data@.len(),
    ensures
        r == u64_from_le(data@.subrange(off as int, off as int + 8)),
{
    let r = (data[off] as u64) | ((data[off + 1] as u64) << 8) | ((data[off + 2] as u64) << 16)
        | ((data[off + 3] as u64) << 24) | ((data[off + 4] as u64) << 32) | ((data[off + 5] as u64)
        << 40) | ((data[off + 6] as u64) << 48) | ((data[off + 7] as u64) << 56);
    proof {
        let s = data@.subrange(off as int, off as int + 8);
        assert(s[0] == data@[off as int] && s[1] == data@[off as int + 1] && s[2] == data@[off
            as int + 2] && s[3] == data@[off as int + 3] && s[4] == data@[off as int + 4] && s[5]
            == data@[off as int + 5] && s[6] == data@[off as int + 6] && s[7] == data@[off as int
            + 7]);
    }
    r
}

/// Appends the eight little-endian bytes of `x`.
pub fn write_u64_le(out: &mut Vec<u8>, x: u64)
    ensures
        final(out)@ == old(out)@ + u64_le_bytes(x),
{
    out.push((x & 0xff) as u8);
    out.push(((x >> 8) & 0xff) as u8);
    out.push(((x >> 16) & 0xff) as u8);
    out.push(((x >> 24) & 0xff) as u8);
    out.push(((x >> 32) & 0xff) as u8);
    out.push(((x >> 40) & 0xff) as u8);
    out.push(((x >> 48) & 0xff) as u8);
    out.push(((x >> 56) & 0xff) as u8);
    proof {
        assert(out@ =~= old(out)@ + u64_le_bytes(x));
    }
}

/// What decoding a minimal-format payload yields: the opcode byte selects the
/// operation, and the eight bytes after it carry the requested size.
pub open spec fn spec_decode_minimal(data: Seq<u8>) -> Result<Decoded, ExecError> {
    if data.len() < 1 {
        Err(ExecError::InvalidPayload)
    } else if data[0] != CREATE_OPCODE {
        Err(ExecError::UnknownOperation)
    } else if data.len() < 9 {
        Err(ExecError::InvalidPayload)
    } else {
        Ok(Decoded { op: Operation::Create, space: Some(u64_from_le(data.subrange(1, 9))) })
    }
}

/// The minimal-format bytes for a create request of the given size.
pub open spec fn spec_encode_minimal(space: u64) -> Seq<u8> {
    seq![CREATE_OPCODE] + u64_le_bytes(space)
}

/// Decodes a minimal-format payload.
pub fn decode_minimal(data: &[u8]) -> (r: Result<Decoded, ExecError>)
    ensures
        r == spec_decode_minimal(data@),
{
    if data.len() < 1 {
        Err(ExecError::InvalidPayload)
    } else if data[0] != CREATE_OPCODE {
        Err(ExecError::UnknownOperation)
    } else if data.len() < 9 {
        Err(ExecError::InvalidPayload)
    } else {
        let space = read_u64_le(data, 1);
        Ok(Decoded { op: Operation::Create, space: Some(space) })
    }
}

/// Encodes a minimal-format create payload for the given size.
pub fn encode_minimal(space: u64) -> (r: Vec<u8>)
    ensures
        r@ == spec_encode_minimal(space),
{
    let mut out: Vec<u8> = Vec::new();
    out.push(CREATE_OPCODE);
    write_u64_le(&mut out, space);
    proof {
        assert(out@ =~= spec_encode_minimal(space));
    }
    out
}

/// What decoding a fixed-width payload yields: the first eight bytes must
/// match a registered discriminator; anything after them is ignored for the
/// zero-argument form.
pub open spec fn spec_decode_fixed(data: Seq<u8>) -> Result<Decoded, ExecError> {
    if data.len() < 8 {
        Err(ExecError::InvalidPayload)
    } else if data.subrange(0, 8) != create_discriminator() {
        Err(ExecError::UnknownOperation)
    } else {
        Ok(Decoded { op: Operation::Create, space: None })
    }
}

/// The fixed-width bytes of the create operation.
pub fn encode_fixed() -> (r: Vec<u8>)
    ensures
        r@ == create_discriminator(),
{
    let mut out: Vec<u8> = Vec::new();
    out.push(67u8);
    out.push(82u8);
    out.push(69u8);
    out.push(65u8);
    out.push(84u8);
    out.push(65u8);
    out.push(67u8);
    out.push(67u8);
    proof {
        assert(out@ =~= create_discriminator());
    }
    out
}

/// Decodes a fixed-width payload.
pub fn decode_fixed(data: &[u8]) -> (r: Result<Decoded, ExecError>)
    ensures
        r == spec_decode_fixed(data@),
{
    if data.len() < 8 {
        return Err(ExecError::InvalidPayload);
    }
    let disc = encode_fixed();
    let mut i: usize = 0;
    while i < 8
        invariant
            i <= 8,
            data@.len() >= 8,
            disc@ == create_discriminator(),
            forall|k: int| 0 <= k < i ==> data@[k] == create_discriminator()[k],
        decreases 8 - i,
    {
        if data[i] != disc[i] {
            proof {
                assert(data@.subrange(0, 8)[i as int] != create_discriminator()[i as int]);
            }
            return Err(ExecError::UnknownOperation);
        }
        i += 1;
    }
    proof {
        assert(data@.subrange(0, 8) =~= create_discriminator());
    }
    Ok(Decoded { op: Operation::Create, space: None })
}

/// Law: decoding a well-formed minimal payload and re-encoding the decoded
/// field reproduces the original bytes exactly.
pub proof fn lemma_minimal_round_trip(data: Seq<u8>)
    requires
        data.len() == 9,
        data[0] == CREATE_OPCODE,
    ensures
        spec_decode_minimal(data) is Ok,
        spec_decode_minimal(data)->Ok_0.space is Some,
        spec_encode_minimal(spec_decode_minimal(data)->Ok_0.space->Some_0) =~= data,
{
    let field = data.subrange(1, 9);
    lemma_u64_le_bytes_identity(field);
    assert(spec_encode_minimal(u64_from_le(field)) =~= data);
}

/// Law: encoding a size and decoding the result yields that size back.
pub proof fn lemma_minimal_decode_of_encode(space: u64)
    ensures
        spec_decode_minimal(spec_encode_minimal(space)) == Ok::<Decoded, ExecError>(Decoded {
            op: Operation::Create,
            space: Some(space),
        }),
{
    let data = spec_encode_minimal(space);
    assert(data.subrange(1, 9) =~= u64_le_bytes(space));
    lemma_u64_le_identity(space);
}

/// Law: decoding a well-formed fixed-width payload and re-encoding the decoded
/// operation reproduces the original bytes exactly.
pub proof fn lemma_fixed_round_trip(data: Seq<u8>)
    requires
        data.len() == 8,
        data =~= create_discriminator(),
    ensures
        spec_decode_fixed(data) == Ok::<Decoded, ExecError>(Decoded {
            op: Operation::Create,
            space: None,
        }),
{
    assert(data.subrange(0, 8) =~= create_discriminator());
}

} // verus!
