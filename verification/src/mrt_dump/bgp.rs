use vstd::prelude::*;
use crate::models::bgp::{
    BgpKeepAliveMessage, BgpMessage, BgpMessageType, BgpMessageView, BgpNotificationMessage,
    BgpNotificationMessageView, BgpOpenMessage, BgpOpenMessageView, BgpUpdateMessage,
    BgpUpdateMessageView,
};
use crate::models::mrt::{Bgp4Mp, Bgp4MpMessage, Bgp4MpMessageView, Bgp4MpStateChange, Bgp4MpView};
use crate::models::network::IpAddress;
use crate::mrt_dump::attributes::{
    attribute_parts, encode_attributes, encode_prefixes, prefix_parts,
};
use crate::mrt_dump::encoding::{bytes_of, cat, counted16, join, put_bytes, with_count16, Encoded};
use crate::mrt_dump::error::DumpError;
use crate::mrt_dump::utils::{asn_bytes, be16, be32, ip_bytes, WriteUtils};
use crate::MrtDump;

verus! {

/// The length of the header of a BGP message: marker, length and type.
pub const BGP_HEADER_LEN: usize = 19;

/// The marker that a BGP message starts with: sixteen octets of ones.
pub open spec fn bgp_marker() -> Seq<u8> {
    Seq::new(16, |i: int| 0xFFu8)
}

/// The body of an OPEN message. Optional parameters are not written: a
/// message that has any is refused.
pub open spec fn open_bytes(m: BgpOpenMessageView) -> Encoded {
    if m.opt_params.len() > 0 {
        Err(DumpError::UnsupportedMessage)
    } else {
        Ok(
            seq![m.version] + be16((m.asn.asn % 0x1_0000) as u16) + be16(m.hold_time) + be32(
                m.sender_ip,
            ) + seq![0u8],
        )
    }
}

/// The body of an UPDATE message: the withdrawn prefixes behind their
/// length, the attributes behind theirs, then the announced prefixes.
pub open spec fn update_bytes(m: BgpUpdateMessageView, add_path: bool) -> Encoded {
    cat(
        counted16(join(prefix_parts(m.withdrawn_prefixes, add_path))),
        cat(
            counted16(join(attribute_parts(m.attributes, add_path, true, true, true))),
            join(prefix_parts(m.announced_prefixes, add_path)),
        ),
    )
}

/// The body of a NOTIFICATION message.
pub open spec fn notification_bytes(m: BgpNotificationMessageView) -> Encoded {
    Ok(seq![m.error_code, m.error_subcode] + m.data)
}

/// The type of a message.
pub open spec fn message_type(m: BgpMessageView) -> BgpMessageType {
    match m {
        BgpMessageView::Open(_) => BgpMessageType::OPEN,
        BgpMessageView::Update(_) => BgpMessageType::UPDATE,
        BgpMessageView::Notification(_) => BgpMessageType::NOTIFICATION,
        BgpMessageView::KeepAlive => BgpMessageType::KEEPALIVE,
    }
}

/// The body of a message, without its header. A `subtype` above zero puts
/// a path identifier before each prefix of an UPDATE.
pub open spec fn message_body(m: BgpMessageView, subtype: u16) -> Encoded {
    match m {
        BgpMessageView::Open(o) => open_bytes(o),
        BgpMessageView::Update(u) => update_bytes(u, subtype > 0),
        BgpMessageView::Notification(n) => notification_bytes(n),
        BgpMessageView::KeepAlive => Ok(Seq::<u8>::empty()),
    }
}

/// A body behind the header of a BGP message: the marker, the length of
/// the whole message in two octets, and the type. A message of more than
/// 65535 octets cannot be counted and is too large.
pub open spec fn framed_message(code: u8, body: Seq<u8>) -> Encoded {
    if BGP_HEADER_LEN + body.len() > 0xFFFF {
        Err(DumpError::ValueTooLarge)
    } else {
        Ok(bgp_marker() + be16((BGP_HEADER_LEN + body.len()) as u16) + seq![code] + body)
    }
}

/// A message that is written starts with the marker; the length that it
/// states is the length of the whole message, header and all; and its type
/// follows the length.
pub proof fn lemma_message_length(m: BgpMessageView, subtype: u16)
    ensures
        bgp_message_bytes(m, subtype) matches Ok(bytes) ==> {
            &&& BGP_HEADER_LEN <= bytes.len() <= 0xFFFF
            &&& bytes.subrange(0, 16) == bgp_marker()
            &&& bytes.subrange(16, 18) == be16(bytes.len() as u16)
            &&& bytes[18] == message_type(m).code()
            &&& message_body(m, subtype) == Ok::<Seq<u8>, DumpError>(
                bytes.subrange(BGP_HEADER_LEN as int, bytes.len() as int),
            )
        },
{
    if let Ok(bytes) = bgp_message_bytes(m, subtype) {
        let body = message_body(m, subtype)->Ok_0;
        assert(bytes.subrange(0, 16) =~= bgp_marker());
        assert(bytes.subrange(16, 18) =~= be16(bytes.len() as u16));
        assert(bytes.subrange(BGP_HEADER_LEN as int, bytes.len() as int) =~= body);
    }
}

/// A BGP message on the wire.
pub open spec fn bgp_message_bytes(m: BgpMessageView, subtype: u16) -> Encoded {
    match message_body(m, subtype) {
        Err(e) => Err(e),
        Ok(body) => framed_message(message_type(m).code(), body),
    }
}

/// A change of state on the wire.
pub open spec fn state_change_bytes(m: Bgp4MpStateChange) -> Encoded {
    Ok(
        asn_bytes(m.peer_asn) + asn_bytes(m.local_asn) + be16(m.interface_index) + be16(
            m.address_family.code(),
        ) + ip_bytes(m.peer_addr) + ip_bytes(m.local_addr) + be16(m.old_state.code()) + be16(
            m.new_state.code(),
        ),
    )
}

/// What comes before the BGP message in a BGP4MP message record.
pub open spec fn bgp4mp_head(m: Bgp4MpMessageView) -> Seq<u8> {
    asn_bytes(m.peer_asn) + asn_bytes(m.local_asn) + be16(m.interface_index) + be16(m.afi.code())
        + ip_bytes(m.peer_ip) + ip_bytes(m.local_ip)
}

/// A BGP4MP message on the wire. The prefixes of the BGP message carry a
/// path identifier where the message's own subtype is an add-path one.
pub open spec fn bgp4mp_message_bytes(m: Bgp4MpMessageView) -> Encoded {
    cat(
        Ok(bgp4mp_head(m)),
        bgp_message_bytes(
            m.bgp_message,
            if m.msg_type.is_add_path() {
                1
            } else {
                0
            },
        ),
    )
}

/// A BGP4MP payload on the wire.
pub open spec fn bgp4mp_bytes(m: Bgp4MpView) -> Encoded {
    match m {
        Bgp4MpView::Bgp4MpStateChange(v) => state_change_bytes(v),
        Bgp4MpView::Bgp4MpStateChangeAs4(v) => state_change_bytes(v),
        Bgp4MpView::Bgp4MpMessage(v) => bgp4mp_message_bytes(v),
        Bgp4MpView::Bgp4MpMessageLocal(v) => bgp4mp_message_bytes(v),
        Bgp4MpView::Bgp4MpMessageAs4(v) => bgp4mp_message_bytes(v),
        Bgp4MpView::Bgp4MpMessageAs4Local(v) => bgp4mp_message_bytes(v),
    }
}

impl MrtDump for BgpOpenMessage {
    open spec fn encoding(&self, subtype: u16) -> Encoded {
        open_bytes(self@)
    }

    fn to_bytes(&self, subtype: u16) -> (r: Result<Vec<u8>, DumpError>) {
        if self.opt_params.len() > 0 {
            return Err(DumpError::UnsupportedMessage);
        }
        let mut buf: Vec<u8> = Vec::new();
        buf.push(self.version);
        let _ = buf.write_16b((self.asn.asn % 0x1_0000) as u16);
        let _ = buf.write_16b(self.hold_time);
        let _ = buf.write_ip(&IpAddress::V4(self.sender_ip));
        buf.push(0);
        assert(buf@ =~= open_bytes(self@)->Ok_0);
        Ok(buf)
    }
}

impl MrtDump for BgpUpdateMessage {
    open spec fn encoding(&self, subtype: u16) -> Encoded {
        update_bytes(self@, subtype > 0)
    }

    fn to_bytes(&self, subtype: u16) -> (r: Result<Vec<u8>, DumpError>) {
        let add_path = subtype > 0;
        let withdrawn = match with_count16(encode_prefixes(&self.withdrawn_prefixes, add_path)) {
            Err(e) => {
                return Err(e);
            },
            Ok(bytes) => bytes,
        };
        let attributes = match with_count16(
            encode_attributes(&self.attributes, add_path, true, true, true),
        ) {
            Err(e) => {
                return Err(e);
            },
            Ok(bytes) => bytes,
        };
        let announced = match encode_prefixes(&self.announced_prefixes, add_path) {
            Err(e) => {
                return Err(e);
            },
            Ok(bytes) => bytes,
        };
        let mut buf: Vec<u8> = Vec::new();
        put_bytes(&mut buf, withdrawn.as_slice());
        put_bytes(&mut buf, attributes.as_slice());
        put_bytes(&mut buf, announced.as_slice());
        assert(buf@ =~= withdrawn@ + (attributes@ + announced@));
        Ok(buf)
    }
}

impl MrtDump for BgpNotificationMessage {
    open spec fn encoding(&self, subtype: u16) -> Encoded {
        notification_bytes(self@)
    }

    fn to_bytes(&self, subtype: u16) -> (r: Result<Vec<u8>, DumpError>) {
        let mut buf: Vec<u8> = Vec::new();
        buf.push(self.error_code);
        buf.push(self.error_subcode);
        put_bytes(&mut buf, self.data.as_slice());
        assert(buf@ =~= seq![self.error_code, self.error_subcode] + self.data@);
        Ok(buf)
    }
}

impl MrtDump for BgpKeepAliveMessage {
    open spec fn encoding(&self, subtype: u16) -> Encoded {
        Ok(Seq::<u8>::empty())
    }

    fn to_bytes(&self, subtype: u16) -> (r: Result<Vec<u8>, DumpError>) {
        Ok(Vec::new())
    }
}

/// A body behind the header of a BGP message.
fn frame_message(code: u8, body: &Vec<u8>) -> (r: Result<Vec<u8>, DumpError>)
    ensures
        bytes_of(r) == framed_message(code, body@),
{
    if body.len() > 0xFFFF - BGP_HEADER_LEN {
        return Err(DumpError::ValueTooLarge);
    }
    let mut buf: Vec<u8> = Vec::new();
    let mut i: usize = 0;
    while i < 16
        invariant
            i <= 16,
            buf@ == Seq::new(i as nat, |k: int| 0xFFu8),
        decreases 16 - i,
    {
        buf.push(0xFF);
        i = i + 1;
        assert(buf@ =~= Seq::new(i as nat, |k: int| 0xFFu8));
    }
    let _ = buf.write_16b((BGP_HEADER_LEN + body.len()) as u16);
    buf.push(code);
    put_bytes(&mut buf, body.as_slice());
    assert(buf@ =~= framed_message(code, body@)->Ok_0);
    Ok(buf)
}

impl MrtDump for BgpMessage {
    open spec fn encoding(&self, subtype: u16) -> Encoded {
        bgp_message_bytes(self@, subtype)
    }

    fn to_bytes(&self, subtype: u16) -> (r: Result<Vec<u8>, DumpError>) {
        let (code, body): (u8, Result<Vec<u8>, DumpError>) = match self {
            BgpMessage::Open(m) => (BgpMessageType::OPEN.to_u8(), m.to_bytes(subtype)),
            BgpMessage::Update(m) => (BgpMessageType::UPDATE.to_u8(), m.to_bytes(subtype)),
            BgpMessage::Notification(m) => (
                BgpMessageType::NOTIFICATION.to_u8(),
                m.to_bytes(subtype),
            ),
            BgpMessage::KeepAlive(m) => (BgpMessageType::KEEPALIVE.to_u8(), m.to_bytes(subtype)),
        };
        match body {
            Err(e) => Err(e),
            Ok(b) => frame_message(code, &b),
        }
    }
}

impl MrtDump for Bgp4MpStateChange {
    open spec fn encoding(&self, subtype: u16) -> Encoded {
        state_change_bytes(*self)
    }

    fn to_bytes(&self, subtype: u16) -> (r: Result<Vec<u8>, DumpError>) {
        let mut buf: Vec<u8> = Vec::new();
        let _ = buf.write_asn(&self.peer_asn);
        let _ = buf.write_asn(&self.local_asn);
        let _ = buf.write_16b(self.interface_index);
        let _ = buf.write_16b(self.address_family.to_u16());
        let _ = buf.write_ip(&self.peer_addr);
        let _ = buf.write_ip(&self.local_addr);
        let _ = buf.write_16b(self.old_state.to_u16());
        let _ = buf.write_16b(self.new_state.to_u16());
        assert(buf@ =~= state_change_bytes(*self)->Ok_0);
        Ok(buf)
    }
}

impl MrtDump for Bgp4MpMessage {
    open spec fn encoding(&self, subtype: u16) -> Encoded {
        bgp4mp_message_bytes(self@)
    }

    fn to_bytes(&self, subtype: u16) -> (r: Result<Vec<u8>, DumpError>) {
        let mut buf: Vec<u8> = Vec::new();
        let _ = buf.write_asn(&self.peer_asn);
        let _ = buf.write_asn(&self.local_asn);
        let _ = buf.write_16b(self.interface_index);
        let _ = buf.write_16b(self.afi.to_u16());
        let _ = buf.write_ip(&self.peer_ip);
        let _ = buf.write_ip(&self.local_ip);
        assert(buf@ =~= bgp4mp_head(self@));
        let add_path: u16 = if self.msg_type.is_add_path() {
            1
        } else {
            0
        };
        match self.bgp_message.to_bytes(add_path) {
            Err(e) => Err(e),
            Ok(bytes) => {
                put_bytes(&mut buf, bytes.as_slice());
                Ok(buf)
            },
        }
    }
}

impl MrtDump for Bgp4Mp {
    open spec fn encoding(&self, subtype: u16) -> Encoded {
        bgp4mp_bytes(self@)
    }

    fn to_bytes(&self, subtype: u16) -> (r: Result<Vec<u8>, DumpError>) {
        match self {
            Bgp4Mp::Bgp4MpStateChange(v) => v.to_bytes(subtype),
            Bgp4Mp::Bgp4MpStateChangeAs4(v) => v.to_bytes(subtype),
            Bgp4Mp::Bgp4MpMessage(v) => v.to_bytes(subtype),
            Bgp4Mp::Bgp4MpMessageLocal(v) => v.to_bytes(subtype),
            Bgp4Mp::Bgp4MpMessageAs4(v) => v.to_bytes(subtype),
            Bgp4Mp::Bgp4MpMessageAs4Local(v) => v.to_bytes(subtype),
        }
    }
}

} // verus!
