//! The decoded sentence value.

use vstd::prelude::*;
use crate::fields::identity::Talker;
use crate::fields::parameter::SentenceType;
use crate::messages::gll::GLLMessage;
use crate::messages::glq::GLQMessage;
use crate::messages::glq::GLQMessageV;
use crate::messages::gnq::GNQMessage;
use crate::messages::gnq::GNQMessageV;
use crate::messages::gns::GNSMessage;
use crate::messages::gns::GNSMessageV;
use crate::messages::grs::GRSMessage;
use crate::messages::grs::GRSMessageV;
use crate::messages::gst::GSTMessage;
use crate::messages::rmc::RMCMessage;
use crate::messages::vtg::VTGMessage;

verus! {

/// The tagged union of the supported sentence kinds.
#[derive(Debug, PartialEq, Eq, Clone)]
pub enum Message {
    GLL(GLLMessage),
    GLQ(GLQMessage),
    GNQ(GNQMessage),
    GNS(GNSMessage),
    GRS(GRSMessage),
    GST(GSTMessage),
    RMC(RMCMessage),
    VTG(VTGMessage),
}

/// The mathematical image of a [`Message`].
pub enum MessageV {
    GLL(GLLMessage),
    GLQ(GLQMessageV),
    GNQ(GNQMessageV),
    GNS(GNSMessageV),
    GRS(GRSMessageV),
    GST(GSTMessage),
    RMC(RMCMessage),
    VTG(VTGMessage),
}

impl View for Message {
    type V = MessageV;

    open spec fn view(&self) -> MessageV {
        match self {
            Message::GLL(m) => MessageV::GLL(*m),
            Message::GLQ(m) => MessageV::GLQ(m@),
            Message::GNQ(m) => MessageV::GNQ(m@),
            Message::GNS(m) => MessageV::GNS(m@),
            Message::GRS(m) => MessageV::GRS(m@),
            Message::GST(m) => MessageV::GST(*m),
            Message::RMC(m) => MessageV::RMC(*m),
            Message::VTG(m) => MessageV::VTG(*m),
        }
    }
}

/// One successfully decoded sentence: its envelope kind, the talker that
/// produced it and the decoded message.  A value of this type exists only
/// as the output of a successful decode, so its checksum matched and its
/// payload was fully consumed.
#[derive(Debug, PartialEq, Eq, Clone)]
pub struct Sentence {
    pub sentence_type: SentenceType,
    pub talker: Talker,
    pub message: Message,
}

/// The mathematical image of a [`Sentence`].
pub struct SentenceV {
    pub sentence_type: SentenceType,
    pub talker: Talker,
    pub message: MessageV,
}

impl View for Sentence {
    type V = SentenceV;

    open spec fn view(&self) -> SentenceV {
        SentenceV {
            sentence_type: self.sentence_type,
            talker: self.talker,
            message: self.message@,
        }
    }
}

} // verus!
