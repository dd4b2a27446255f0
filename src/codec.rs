//! The swap payload: swap parameters carried in the application-defined tail
//! of a transfer, in a fixed big-endian layout.
use crate::bytes::{
    be_bytes, be_value, lemma_be_value_append, lemma_be_bytes_of_value, lemma_be_value_bound,
    lemma_be_value_of_bytes, lemma_pow256_facts, pow256, read_array32, read_be, write_array32,
    write_be,
};
use vstd::prelude::*;

verus! {

/// The layout version that this codec reads and writes.
pub const SWAP_PAYLOAD_VERSION: u8 = 1;

/// Length of an encoded swap payload: the version byte, eight 32-byte
/// fields, a 3-byte pool fee and two 1-byte selectors.
pub const SWAP_PAYLOAD_LEN: usize = 262;

/// A 32-byte address on another chain.
pub type ForeignAddr = [u8; 32];

/// A 256-bit magnitude as (high 128 bits, middle 64 bits, low 64 bits).
pub type Unum256 = (u128, u64, u64);

/// A 24-bit magnitude as (high 8 bits, low 16 bits).
pub type Unum24 = (u8, u16);

/// The number that a 256-bit magnitude stands for.
pub open spec fn unum256_value(x: Unum256) -> nat {
    x.0 as nat * pow256(16) + x.1 as nat * pow256(8) + x.2 as nat
}

/// A 256-bit magnitude as 32 big-endian bytes.
pub open spec fn unum256_bytes(x: Unum256) -> Seq<u8> {
    be_bytes(x.0 as nat, 16) + be_bytes(x.1 as nat, 8) + be_bytes(x.2 as nat, 8)
}

/// The words of a 256-bit magnitude read from 32 big-endian bytes.
pub open spec fn unum256_of(s: Seq<u8>) -> Unum256 {
    (
        be_value(s.subrange(0, 16)) as u128,
        be_value(s.subrange(16, 24)) as u64,
        be_value(s.subrange(24, 32)) as u64,
    )
}

/// A 24-bit magnitude as 3 big-endian bytes.
pub open spec fn unum24_bytes(x: Unum24) -> Seq<u8> {
    seq![x.0] + be_bytes(x.1 as nat, 2)
}

/// Swap parameters decoded from a transfer's application payload.
#[derive(Clone, Copy, Debug, PartialEq, Eq)]
pub struct DecodedVaaParameters {
    pub version: u8,
    pub swap_amount: Unum256,
    pub contract_address: ForeignAddr,
    pub relayer_fee: Unum256,
    pub estimated_amount: Unum256,
    pub recipient_address: ForeignAddr,
    pub path: [ForeignAddr; 2],
    pub deadline: Unum256,
    pub pool_fee: Unum24,
    pub swap_function_type: u8,
    pub swap_currency_type: u8,
}

/// Why a byte string is not a swap payload.
#[derive(Clone, Copy, Debug, PartialEq, Eq, Structural)]
pub enum CodecError {
    /// Fewer bytes than the layout needs.
    Truncated,
    /// The version byte names a layout this codec does not know.
    UnsupportedVersion,
    /// More bytes than the layout of the version holds.
    TrailingBytes,
}

/// Whether `s` is the encoding of a swap payload.
pub open spec fn is_decodable(s: Seq<u8>) -> bool {
    s.len() == SWAP_PAYLOAD_LEN && s[0] == SWAP_PAYLOAD_VERSION
}

/// The error that decoding `s` reports when `s` is not decodable: length
/// first, then the version, then trailing bytes.
pub open spec fn decode_error(s: Seq<u8>) -> CodecError {
    if s.len() < SWAP_PAYLOAD_LEN {
        CodecError::Truncated
    } else if s[0] != SWAP_PAYLOAD_VERSION {
        CodecError::UnsupportedVersion
    } else {
        CodecError::TrailingBytes
    }
}

impl DecodedVaaParameters {
    /// The encoding: every field in declaration order, numbers big-endian.
    pub open spec fn spec_encode(self) -> Seq<u8> {
        seq![self.version] + unum256_bytes(self.swap_amount) + self.contract_address@
            + unum256_bytes(self.relayer_fee) + unum256_bytes(self.estimated_amount)
            + self.recipient_address@ + self.path[0]@ + self.path[1]@ + unum256_bytes(
            self.deadline,
        ) + unum24_bytes(self.pool_fee) + seq![self.swap_function_type, self.swap_currency_type]
    }

    /// Whether this payload has the layout that `encode` writes.
    pub open spec fn is_valid(self) -> bool {
        self.version == SWAP_PAYLOAD_VERSION
    }

    /// Encodes the payload.
    pub fn encode(&self) -> (r: Vec<u8>)
        ensures
            r@ == self.spec_encode(),
    {
        let mut out: Vec<u8> = Vec::new();
        out.push(self.version);
        write_unum256(&mut out, self.swap_amount);
        write_array32(&mut out, &self.contract_address);
        write_unum256(&mut out, self.relayer_fee);
        write_unum256(&mut out, self.estimated_amount);
        write_array32(&mut out, &self.recipient_address);
        write_array32(&mut out, &self.path[0]);
        write_array32(&mut out, &self.path[1]);
        write_unum256(&mut out, self.deadline);
        out.push(self.pool_fee.0);
        write_be(&mut out, self.pool_fee.1 as u128, 2);
        out.push(self.swap_function_type);
        out.push(self.swap_currency_type);
        assert(out@ =~= self.spec_encode());
        out
    }

    /// Decodes a payload: the buffer must hold exactly one payload of the
    /// known version.
    pub fn decode(buf: &[u8]) -> (r: Result<DecodedVaaParameters, CodecError>)
        ensures
            match r {
                Ok(p) => is_decodable(buf@) && p.spec_encode() == buf@,
                Err(e) => !is_decodable(buf@) && e == decode_error(buf@),
            },
    {
        if buf.len() < SWAP_PAYLOAD_LEN {
            return Err(CodecError::Truncated);
        }
        if buf[0] != SWAP_PAYLOAD_VERSION {
            return Err(CodecError::UnsupportedVersion);
        }
        if buf.len() > SWAP_PAYLOAD_LEN {
            return Err(CodecError::TrailingBytes);
        }
        let fee_low = read_be(buf, 258, 2);
        proof {
            lemma_be_value_bound(buf@.subrange(258, 260));
            lemma_pow256_facts();
            lemma_be_bytes_of_value(buf@.subrange(258, 260));
        }
        let p = DecodedVaaParameters {
            version: buf[0],
            swap_amount: read_unum256(buf, 1),
            contract_address: read_array32(buf, 33),
            relayer_fee: read_unum256(buf, 65),
            estimated_amount: read_unum256(buf, 97),
            recipient_address: read_array32(buf, 129),
            path: [read_array32(buf, 161), read_array32(buf, 193)],
            deadline: read_unum256(buf, 225),
            pool_fee: (buf[257], fee_low as u16),
            swap_function_type: buf[260],
            swap_currency_type: buf[261],
        };
        assert(p.spec_encode() =~= buf@);
        Ok(p)
    }
}

/// Reads the 32 big-endian bytes at `start` as a 256-bit magnitude.
pub(crate) fn read_unum256(buf: &[u8], start: usize) -> (r: Unum256)
    requires
        start + 32 <= buf.len(),
    ensures
        unum256_bytes(r) == buf@.subrange(start as int, start + 32),
{
    let hi = read_be(buf, start, 16);
    let mid = read_be(buf, start + 16, 8);
    let lo = read_be(buf, start + 24, 8);
    let ghost s = buf@;
    proof {
        lemma_pow256_facts();
        lemma_be_value_bound(s.subrange(start + 16, start + 24));
        lemma_be_value_bound(s.subrange(start + 24, start + 32));
        lemma_be_bytes_of_value(s.subrange(start as int, start + 16));
        lemma_be_bytes_of_value(s.subrange(start + 16, start + 24));
        lemma_be_bytes_of_value(s.subrange(start + 24, start + 32));
        assert(unum256_bytes((hi, mid as u64, lo as u64)) =~= s.subrange(
            start as int,
            start + 32,
        ));
    }
    (hi, mid as u64, lo as u64)
}

/// Appends a 256-bit magnitude as 32 big-endian bytes.
fn write_unum256(out: &mut Vec<u8>, x: Unum256)
    ensures
        final(out)@ == old(out)@ + unum256_bytes(x),
{
    write_be(out, x.0, 16);
    write_be(out, x.1 as u128, 8);
    write_be(out, x.2 as u128, 8);
    assert(final(out)@ =~= old(out)@ + unum256_bytes(x));
}

/// The 32 bytes of a 256-bit magnitude give its words back.
pub proof fn lemma_unum256_round_trip(x: Unum256)
    ensures
        unum256_bytes(x).len() == 32,
        unum256_of(unum256_bytes(x)) == x,
{
    lemma_pow256_facts();
    lemma_be_value_of_bytes(x.0 as nat, 16);
    lemma_be_value_of_bytes(x.1 as nat, 8);
    lemma_be_value_of_bytes(x.2 as nat, 8);
    let s = unum256_bytes(x);
    assert(s.subrange(0, 16) =~= be_bytes(x.0 as nat, 16));
    assert(s.subrange(16, 24) =~= be_bytes(x.1 as nat, 8));
    assert(s.subrange(24, 32) =~= be_bytes(x.2 as nat, 8));
}

/// The 32 bytes of a 256-bit magnitude are its value, big-endian.
pub proof fn lemma_unum256_big_endian(x: Unum256)
    ensures
        be_value(unum256_bytes(x)) == unum256_value(x),
{
    lemma_pow256_facts();
    lemma_be_value_of_bytes(x.0 as nat, 16);
    lemma_be_value_of_bytes(x.1 as nat, 8);
    lemma_be_value_of_bytes(x.2 as nat, 8);
    let (h, m, l) = (be_bytes(x.0 as nat, 16), be_bytes(x.1 as nat, 8), be_bytes(x.2 as nat, 8));
    lemma_be_value_append(h, m);
    lemma_be_value_append(h + m, l);
    let (vh, vm) = (x.0 as nat, x.1 as nat);
    assert((vh * pow256(8) + vm) * pow256(8) == vh * pow256(16) + vm * pow256(8))
        by (nonlinear_arith)
        requires
            pow256(8) * pow256(8) == pow256(16),
    ;
}

/// Where each field of a payload stands in its encoding.
pub proof fn lemma_encode_fields(p: DecodedVaaParameters)
    ensures
        p.spec_encode().len() == SWAP_PAYLOAD_LEN,
        p.spec_encode()[0] == p.version,
        unum256_of(p.spec_encode().subrange(1, 33)) == p.swap_amount,
        p.spec_encode().subrange(33, 65) == p.contract_address@,
        unum256_of(p.spec_encode().subrange(65, 97)) == p.relayer_fee,
        unum256_of(p.spec_encode().subrange(97, 129)) == p.estimated_amount,
        p.spec_encode().subrange(129, 161) == p.recipient_address@,
        p.spec_encode().subrange(161, 193) == p.path[0]@,
        p.spec_encode().subrange(193, 225) == p.path[1]@,
        unum256_of(p.spec_encode().subrange(225, 257)) == p.deadline,
        p.spec_encode()[257] == p.pool_fee.0,
        be_value(p.spec_encode().subrange(258, 260)) == p.pool_fee.1,
        p.spec_encode()[260] == p.swap_function_type,
        p.spec_encode()[261] == p.swap_currency_type,
{
    lemma_pow256_facts();
    lemma_unum256_round_trip(p.swap_amount);
    lemma_unum256_round_trip(p.relayer_fee);
    lemma_unum256_round_trip(p.estimated_amount);
    lemma_unum256_round_trip(p.deadline);
    lemma_be_value_of_bytes(p.pool_fee.1 as nat, 2);
    let s = p.spec_encode();
    assert(s.subrange(1, 33) =~= unum256_bytes(p.swap_amount));
    assert(s.subrange(33, 65) =~= p.contract_address@);
    assert(s.subrange(65, 97) =~= unum256_bytes(p.relayer_fee));
    assert(s.subrange(97, 129) =~= unum256_bytes(p.estimated_amount));
    assert(s.subrange(129, 161) =~= p.recipient_address@);
    assert(s.subrange(161, 193) =~= p.path[0]@);
    assert(s.subrange(193, 225) =~= p.path[1]@);
    assert(s.subrange(225, 257) =~= unum256_bytes(p.deadline));
    assert(s.subrange(258, 260) =~= be_bytes(p.pool_fee.1 as nat, 2));
}

/// Codec round trip: the encoding of a valid payload decodes, and the only
/// payload that decodes from it is the payload itself.
pub proof fn lemma_decode_encode(p: DecodedVaaParameters, q: DecodedVaaParameters)
    requires
        p.is_valid(),
    ensures
        is_decodable(p.spec_encode()),
        q.spec_encode() == p.spec_encode() ==> q == p,
{
    lemma_encode_fields(p);
    lemma_encode_fields(q);
    if q.spec_encode() == p.spec_encode() {
        assert(q.contract_address =~= p.contract_address);
        assert(q.recipient_address =~= p.recipient_address);
        assert(q.path[0] =~= p.path[0]);
        assert(q.path[1] =~= p.path[1]);
        assert(q.path =~= p.path);
    }
}

} // verus!
