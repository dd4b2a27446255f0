//! The message envelope that the attestation layer delivers, and the
//! transfer it carries.
use crate::bytes::{
    be_value, le_value, lemma_be_value_bound, lemma_pow256_facts, read_array32, read_be,
    read_le,
};
use crate::codec::{unum256_bytes, ForeignAddr, Unum256};
use crate::ledger::ClaimKey;
use vstd::prelude::*;
use vstd::slice::{slice_subrange, slice_to_vec};

verus! {

/// Length of the framing prefix that the attestation layer puts before a
/// posted message.
pub const FRAMING_LEN: usize = 3;

/// Offset of the payload in a framed envelope: the prefix, the fixed
/// header fields and the 4-byte payload length.
pub const ENVELOPE_HEADER_LEN: usize = 95;

/// Offset of the application payload in a transfer.
pub const TRANSFER_HEADER_LEN: usize = 132;

/// A message posted by the attestation layer.
#[derive(Clone, Debug, PartialEq, Eq)]
pub struct MessageData {
    pub vaa_version: u8,
    pub consistency_level: u8,
    pub vaa_time: u32,
    pub vaa_signature_account: [u8; 32],
    pub submission_time: u32,
    pub nonce: u32,
    pub sequence: u64,
    pub emitter_chain: u16,
    pub emitter_address: ForeignAddr,
    pub payload: Vec<u8>,
}

/// Why bytes are not an envelope or a transfer.
#[derive(Clone, Copy, Debug, PartialEq, Eq, Structural)]
pub enum ParseError {
    /// Fewer bytes than the fixed fields need.
    Truncated,
    /// The declared payload length is not the number of bytes that follow.
    PayloadLengthMismatch,
}

/// Whether `m` holds the fields of the framed envelope `raw`: after the
/// prefix, the header fields little-endian, then the length and the payload.
pub open spec fn message_fields(m: MessageData, raw: Seq<u8>) -> bool {
    &&& m.vaa_version == raw[3]
    &&& m.consistency_level == raw[4]
    &&& m.vaa_time as nat == le_value(raw.subrange(5, 9))
    &&& m.vaa_signature_account@ == raw.subrange(9, 41)
    &&& m.submission_time as nat == le_value(raw.subrange(41, 45))
    &&& m.nonce as nat == le_value(raw.subrange(45, 49))
    &&& m.sequence as nat == le_value(raw.subrange(49, 57))
    &&& m.emitter_chain as nat == le_value(raw.subrange(57, 59))
    &&& m.emitter_address@ == raw.subrange(59, 91)
    &&& m.payload@ == raw.subrange(ENVELOPE_HEADER_LEN as int, raw.len() as int)
}

/// What parsing the framed envelope `raw` fails with, if it fails.
pub open spec fn message_error(raw: Seq<u8>) -> Option<ParseError> {
    if raw.len() < ENVELOPE_HEADER_LEN {
        Some(ParseError::Truncated)
    } else if le_value(raw.subrange(91, 95)) != raw.len() - ENVELOPE_HEADER_LEN {
        Some(ParseError::PayloadLengthMismatch)
    } else {
        None
    }
}

impl MessageData {
    /// Parses a framed envelope: strips the prefix, reads the header and
    /// takes the payload, whose declared length must match what remains.
    pub fn parse(raw: &[u8]) -> (r: Result<MessageData, ParseError>)
        ensures
            match r {
                Ok(m) => message_error(raw@) is None && message_fields(m, raw@),
                Err(e) => message_error(raw@) == Some(e),
            },
    {
        if raw.len() < ENVELOPE_HEADER_LEN {
            return Err(ParseError::Truncated);
        }
        let declared = read_le(raw, 91, 4);
        if declared != (raw.len() - ENVELOPE_HEADER_LEN) as u64 {
            return Err(ParseError::PayloadLengthMismatch);
        }
        proof {
            crate::bytes::lemma_le_value_bound(raw@.subrange(5, 9));
            crate::bytes::lemma_le_value_bound(raw@.subrange(41, 45));
            crate::bytes::lemma_le_value_bound(raw@.subrange(45, 49));
            crate::bytes::lemma_le_value_bound(raw@.subrange(57, 59));
            lemma_pow256_facts();
        }
        let payload = slice_to_vec(slice_subrange(raw, ENVELOPE_HEADER_LEN, raw.len()));
        Ok(
            MessageData {
                vaa_version: raw[3],
                consistency_level: raw[4],
                vaa_time: read_le(raw, 5, 4) as u32,
                vaa_signature_account: read_array32(raw, 9),
                submission_time: read_le(raw, 41, 4) as u32,
                nonce: read_le(raw, 45, 4) as u32,
                sequence: read_le(raw, 49, 8),
                emitter_chain: read_le(raw, 57, 2) as u16,
                emitter_address: read_array32(raw, 59),
                payload,
            },
        )
    }

    /// The identity of the message, under which it is claimed.
    pub open spec fn spec_key(&self) -> ClaimKey {
        ClaimKey {
            emitter_chain: self.emitter_chain,
            emitter_address: self.emitter_address,
            sequence: self.sequence,
        }
    }

    /// The identity of the message, under which it is claimed.
    pub fn key(&self) -> (r: ClaimKey)
        ensures
            r == self.spec_key(),
    {
        ClaimKey {
            emitter_chain: self.emitter_chain,
            emitter_address: self.emitter_address,
            sequence: self.sequence,
        }
    }
}

/// A token transfer that carries an application payload.
#[derive(Debug, PartialEq, Eq)]
pub struct PayloadTransferWithPayload {
    /// Amount being transferred.
    pub amount: Unum256,
    /// Address of the token on its home chain, left-padded with zeros.
    pub token_address: ForeignAddr,
    /// Chain of the token.
    pub token_chain: u16,
    /// Recipient, left-padded with zeros.
    pub to: ForeignAddr,
    /// Chain of the recipient.
    pub to_chain: u16,
    /// Sender on the origin chain.
    pub from_address: ForeignAddr,
    /// The application payload.
    pub payload: Vec<u8>,
}

/// Whether `t` holds the fields of the transfer bytes `s`, all big-endian.
pub open spec fn transfer_fields(t: PayloadTransferWithPayload, s: Seq<u8>) -> bool {
    &&& unum256_bytes(t.amount) == s.subrange(0, 32)
    &&& t.token_address@ == s.subrange(32, 64)
    &&& t.token_chain as nat == be_value(s.subrange(64, 66))
    &&& t.to@ == s.subrange(66, 98)
    &&& t.to_chain as nat == be_value(s.subrange(98, 100))
    &&& t.from_address@ == s.subrange(100, 132)
    &&& t.payload@ == s.subrange(TRANSFER_HEADER_LEN as int, s.len() as int)
}

impl PayloadTransferWithPayload {
    /// Parses a transfer; every byte after the fixed fields is the
    /// application payload.
    pub fn parse(s: &[u8]) -> (r: Result<PayloadTransferWithPayload, ParseError>)
        ensures
            match r {
                Ok(t) => s@.len() >= TRANSFER_HEADER_LEN && transfer_fields(t, s@),
                Err(e) => s@.len() < TRANSFER_HEADER_LEN && e == ParseError::Truncated,
            },
    {
        if s.len() < TRANSFER_HEADER_LEN {
            return Err(ParseError::Truncated);
        }
        proof {
            lemma_be_value_bound(s@.subrange(64, 66));
            lemma_be_value_bound(s@.subrange(98, 100));
            lemma_pow256_facts();
        }
        let payload = slice_to_vec(slice_subrange(s, TRANSFER_HEADER_LEN, s.len()));
        Ok(
            PayloadTransferWithPayload {
                amount: crate::codec::read_unum256(s, 0),
                token_address: read_array32(s, 32),
                token_chain: read_be(s, 64, 2) as u16,
                to: read_array32(s, 66),
                to_chain: read_be(s, 98, 2) as u16,
                from_address: read_array32(s, 100),
                payload,
            },
        )
    }
}

} // verus!
