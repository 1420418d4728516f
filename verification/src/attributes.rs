//! Attributes: the named pieces of data a client can request about a
//! notification, each identified on the wire by a single-byte code.

pub mod notification;
