use vstd::prelude::*;
use crate::models::mrt::{CommonHeader, MrtMessage, MrtMessageView, MrtRecord, MrtRecordView};
use crate::mrt_dump::bgp::bgp4mp_bytes;
use crate::mrt_dump::encoding::{bytes_of, cat, put_bytes, Encoded};
use crate::mrt_dump::error::DumpError;
use crate::mrt_dump::table_dump::table_dump_v2_bytes;
use crate::mrt_dump::utils::{be16, be32, WriteUtils};
use crate::MrtDump;

verus! {

/// The header of a record whose payload takes `payload_len` octets:
/// timestamp, type, subtype and length. For a type with an extended
/// timestamp the microseconds follow the length and are counted in it.
/// A header whose type asks for microseconds and has none, or has them
/// unasked, is malformed; a length beyond four octets is too large.
pub open spec fn header_bytes(h: CommonHeader, payload_len: int) -> Encoded {
    if h.entry_type.is_extended() != (h.microsecond_timestamp is Some) {
        Err(DumpError::MalformedInput)
    } else {
        match h.microsecond_timestamp {
            Some(microseconds) => if payload_len + 4 > 0xFFFF_FFFF {
                Err(DumpError::ValueTooLarge)
            } else {
                Ok(
                    be32(h.timestamp) + be16(h.entry_type.code()) + be16(h.entry_subtype) + be32(
                        (payload_len + 4) as u32,
                    ) + be32(microseconds),
                )
            },
            None => if payload_len > 0xFFFF_FFFF {
                Err(DumpError::ValueTooLarge)
            } else {
                Ok(
                    be32(h.timestamp) + be16(h.entry_type.code()) + be16(h.entry_subtype) + be32(
                        payload_len as u32,
                    ),
                )
            },
        }
    }
}

/// The length that a header states is the length of the payload, and four
/// more where the header carries microseconds, which are counted with it.
pub proof fn lemma_header_length(h: CommonHeader, payload_len: int)
    requires
        0 <= payload_len,
    ensures
        header_bytes(h, payload_len) matches Ok(bytes) ==> {
            &&& bytes.len() == if h.entry_type.is_extended() {
                16int
            } else {
                12int
            }
            &&& bytes.subrange(8, 12) == be32(
                (payload_len + if h.entry_type.is_extended() {
                    4int
                } else {
                    0int
                }) as u32,
            )
            &&& payload_len + bytes.len() - 12 <= 0xFFFF_FFFF
        },
{
    if let Ok(bytes) = header_bytes(h, payload_len) {
        match h.microsecond_timestamp {
            Some(microseconds) => {
                assert(bytes.subrange(8, 12) =~= be32((payload_len + 4) as u32));
            },
            None => {
                assert(bytes.subrange(8, 12) =~= be32(payload_len as u32));
            },
        }
    }
}

/// The payload of a record on the wire, in a record of subtype `subtype`.
/// Tables of the first version are refused.
pub open spec fn message_bytes(m: MrtMessageView, subtype: u16) -> Encoded {
    match m {
        MrtMessageView::TableDumpMessage(_) => Err(DumpError::UnsupportedMessage),
        MrtMessageView::TableDumpV2Message(t) => table_dump_v2_bytes(t, subtype),
        MrtMessageView::Bgp4Mp(b) => bgp4mp_bytes(b),
    }
}

/// A record on the wire: the payload, in the form that the header's
/// subtype asks for, behind the header that counts it.
#[verifier::opaque]
pub open spec fn record_bytes(r: MrtRecordView) -> Encoded {
    match message_bytes(r.message, r.common_header.entry_subtype) {
        Err(e) => Err(e),
        Ok(payload) => cat(header_bytes(r.common_header, payload.len() as int), Ok(payload)),
    }
}

/// A record whose payload can be written is the payload behind the header
/// that counts it.
pub proof fn lemma_record_bytes(r: MrtRecordView, payload: Seq<u8>)
    requires
        message_bytes(r.message, r.common_header.entry_subtype) == Ok::<Seq<u8>, DumpError>(
            payload,
        ),
    ensures
        record_bytes(r) == cat(header_bytes(r.common_header, payload.len() as int), Ok(payload)),
{
    reveal(record_bytes);
}

/// In every record that is written, the length that the header states
/// counts all that follows the first twelve octets: the payload, and before
/// it the microseconds where the header carries them.
pub proof fn lemma_record_length(r: MrtRecordView)
    ensures
        record_bytes(r) matches Ok(bytes) ==> {
            &&& bytes.len() >= 12
            &&& bytes.subrange(8, 12) == be32((bytes.len() - 12) as u32)
        },
{
    reveal(record_bytes);
    if let Ok(bytes) = record_bytes(r) {
        let payload = message_bytes(r.message, r.common_header.entry_subtype)->Ok_0;
        let head = header_bytes(r.common_header, payload.len() as int)->Ok_0;
        lemma_header_length(r.common_header, payload.len() as int);
        assert(bytes.subrange(8, 12) =~= head.subrange(8, 12));
    }
}

/// The header of a record whose payload takes `payload_len` octets.
pub fn encode_header(header: &CommonHeader, payload_len: usize) -> (r: Result<Vec<u8>, DumpError>)
    ensures
        bytes_of(r) == header_bytes(*header, payload_len as int),
{
    let mut buf: Vec<u8> = Vec::new();
    let _ = buf.write_32b(header.timestamp);
    let _ = buf.write_16b(header.entry_type.to_u16());
    let _ = buf.write_16b(header.entry_subtype);
    let extended = header.entry_type.is_extended();
    match header.microsecond_timestamp {
        Some(microseconds) => {
            if !extended {
                return Err(DumpError::MalformedInput);
            }
            if payload_len > 0xFFFF_FFFF - 4 {
                return Err(DumpError::ValueTooLarge);
            }
            let _ = buf.write_32b((payload_len + 4) as u32);
            let _ = buf.write_32b(microseconds);
        },
        None => {
            if extended {
                return Err(DumpError::MalformedInput);
            }
            if payload_len > 0xFFFF_FFFF {
                return Err(DumpError::ValueTooLarge);
            }
            let _ = buf.write_32b(payload_len as u32);
        },
    }
    assert(buf@ =~= header_bytes(*header, payload_len as int)->Ok_0);
    Ok(buf)
}

impl MrtDump for CommonHeader {
    /// The header of a record whose payload takes `size` octets.
    open spec fn encoding(&self, size: u16) -> Encoded {
        header_bytes(*self, size as int)
    }

    fn to_bytes(&self, size: u16) -> (r: Result<Vec<u8>, DumpError>) {
        encode_header(self, size as usize)
    }
}

impl MrtDump for MrtMessage {
    open spec fn encoding(&self, subtype: u16) -> Encoded {
        message_bytes(self@, subtype)
    }

    fn to_bytes(&self, subtype: u16) -> (r: Result<Vec<u8>, DumpError>) {
        match self {
            MrtMessage::TableDumpMessage(m) => m.to_bytes(subtype),
            MrtMessage::TableDumpV2Message(m) => m.to_bytes(subtype),
            MrtMessage::Bgp4Mp(m) => m.to_bytes(subtype),
        }
    }
}

/// A payload behind the header that counts it.
pub fn frame_record(header: &CommonHeader, payload: &Vec<u8>) -> (r: Result<Vec<u8>, DumpError>)
    ensures
        bytes_of(r) == cat(header_bytes(*header, payload@.len() as int), Ok(payload@)),
{
    match encode_header(header, payload.len()) {
        Err(e) => Err(e),
        Ok(head) => {
            let mut buf = head;
            put_bytes(&mut buf, payload.as_slice());
            Ok(buf)
        },
    }
}

impl MrtDump for MrtRecord {
    /// The record on the wire. The subtype is that of the record's own
    /// header, whatever the argument.
    open spec fn encoding(&self, subtype: u16) -> Encoded {
        record_bytes(self@)
    }

    fn to_bytes(&self, subtype: u16) -> (r: Result<Vec<u8>, DumpError>) {
        reveal(record_bytes);
        match self.message.to_bytes(self.common_header.entry_subtype) {
            Err(e) => Err(e),
            Ok(payload) => frame_record(&self.common_header, &payload),
        }
    }
}

} // verus!
