use vstd::prelude::*;
use crate::models::attributes::{attribute_views, Attribute, AttributeView};
use crate::models::network::{Asn, NetworkPrefix};

verus! {

/// The type of a BGP message.
#[allow(non_camel_case_types)]
#[derive(Debug, Clone, Copy, PartialEq, Eq, Structural)]
pub enum BgpMessageType {
    OPEN,
    UPDATE,
    NOTIFICATION,
    KEEPALIVE,
}

/// An optional parameter of an OPEN message, with its value as raw octets.
#[derive(Debug, Clone, PartialEq, Eq)]
pub struct OptParam {
    pub param_type: u8,
    pub param_value: Vec<u8>,
}

/// A BGP OPEN message. The sender's identifier is an IPv4 address, held as
/// a number.
#[derive(Debug, Clone, PartialEq, Eq)]
pub struct BgpOpenMessage {
    pub version: u8,
    pub asn: Asn,
    pub hold_time: u16,
    pub sender_ip: u32,
    pub extended_length: bool,
    pub opt_params: Vec<OptParam>,
}

/// A BGP UPDATE message.
#[derive(Debug, Clone, PartialEq, Eq)]
pub struct BgpUpdateMessage {
    pub withdrawn_prefixes: Vec<NetworkPrefix>,
    pub attributes: Vec<Attribute>,
    pub announced_prefixes: Vec<NetworkPrefix>,
}

/// A BGP NOTIFICATION message.
#[derive(Debug, Clone, PartialEq, Eq)]
pub struct BgpNotificationMessage {
    pub error_code: u8,
    pub error_subcode: u8,
    pub data: Vec<u8>,
}

/// A BGP KEEPALIVE message: it has no body.
#[derive(Debug, Clone, Copy, PartialEq, Eq, Structural)]
pub struct BgpKeepAliveMessage {}

/// A BGP message of any of the four types.
#[derive(Debug, Clone, PartialEq, Eq)]
pub enum BgpMessage {
    Open(BgpOpenMessage),
    Update(BgpUpdateMessage),
    Notification(BgpNotificationMessage),
    KeepAlive(BgpKeepAliveMessage),
}

/// An optional parameter as a value of mathematics.
pub struct OptParamView {
    pub param_type: u8,
    pub param_value: Seq<u8>,
}

/// An OPEN message as a value of mathematics.
pub struct BgpOpenMessageView {
    pub version: u8,
    pub asn: Asn,
    pub hold_time: u16,
    pub sender_ip: u32,
    pub extended_length: bool,
    pub opt_params: Seq<OptParamView>,
}

/// An UPDATE message as a value of mathematics.
pub struct BgpUpdateMessageView {
    pub withdrawn_prefixes: Seq<NetworkPrefix>,
    pub attributes: Seq<AttributeView>,
    pub announced_prefixes: Seq<NetworkPrefix>,
}

/// A NOTIFICATION message as a value of mathematics.
pub struct BgpNotificationMessageView {
    pub error_code: u8,
    pub error_subcode: u8,
    pub data: Seq<u8>,
}

/// A BGP message as a value of mathematics.
pub enum BgpMessageView {
    Open(BgpOpenMessageView),
    Update(BgpUpdateMessageView),
    Notification(BgpNotificationMessageView),
    KeepAlive,
}

impl BgpMessageType {
    /// The number of the message type on the wire.
    pub open spec fn code(self) -> u8 {
        match self {
            BgpMessageType::OPEN => 1,
            BgpMessageType::UPDATE => 2,
            BgpMessageType::NOTIFICATION => 3,
            BgpMessageType::KEEPALIVE => 4,
        }
    }

    /// The number of the message type on the wire.
    pub fn to_u8(&self) -> (r: u8)
        ensures
            r == self.code(),
    {
        match self {
            BgpMessageType::OPEN => 1,
            BgpMessageType::UPDATE => 2,
            BgpMessageType::NOTIFICATION => 3,
            BgpMessageType::KEEPALIVE => 4,
        }
    }
}

impl View for OptParam {
    type V = OptParamView;

    open spec fn view(&self) -> OptParamView {
        OptParamView { param_type: self.param_type, param_value: self.param_value@ }
    }
}

impl View for BgpOpenMessage {
    type V = BgpOpenMessageView;

    open spec fn view(&self) -> BgpOpenMessageView {
        BgpOpenMessageView {
            version: self.version,
            asn: self.asn,
            hold_time: self.hold_time,
            sender_ip: self.sender_ip,
            extended_length: self.extended_length,
            opt_params: self.opt_params@.map_values(|p: OptParam| p@),
        }
    }
}

impl View for BgpUpdateMessage {
    type V = BgpUpdateMessageView;

    open spec fn view(&self) -> BgpUpdateMessageView {
        BgpUpdateMessageView {
            withdrawn_prefixes: self.withdrawn_prefixes@,
            attributes: attribute_views(self.attributes@),
            announced_prefixes: self.announced_prefixes@,
        }
    }
}

impl View for BgpNotificationMessage {
    type V = BgpNotificationMessageView;

    open spec fn view(&self) -> BgpNotificationMessageView {
        BgpNotificationMessageView {
            error_code: self.error_code,
            error_subcode: self.error_subcode,
            data: self.data@,
        }
    }
}

impl View for BgpMessage {
    type V = BgpMessageView;

    open spec fn view(&self) -> BgpMessageView {
        match self {
            BgpMessage::Open(m) => BgpMessageView::Open(m@),
            BgpMessage::Update(m) => BgpMessageView::Update(m@),
            BgpMessage::Notification(m) => BgpMessageView::Notification(m@),
            BgpMessage::KeepAlive(_) => BgpMessageView::KeepAlive,
        }
    }
}

} // verus!
