//! Message decoders: one fixed, ordered pipeline of field decoders per
//! supported sentence kind.

pub mod gll;
pub mod glq;
pub mod gnq;
pub mod gns;
pub mod grs;
pub mod gst;
pub mod rmc;
pub mod vtg;
