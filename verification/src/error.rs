//! What can go wrong, as plain values.

use vstd::prelude::*;

use crate::text::{decimal_text, join2, join4};

verus! {

/// An error of the daemon.
#[derive(Debug)]
pub enum Error {
    /// A certificate that is malformed, unexpected or does not match.
    CertificateError(String),
    /// A failure of the TLS machinery.
    TlsError(String),
    /// A link that cannot be made or used.
    ConnectionError(String),
    /// A link that did not answer in time.
    ConnectionTimeout(String),
    /// A packet that does not belong where it arrived.
    InvalidPacket(String),
    /// A request that cannot be served as it stands.
    InvalidRequest(String),
    /// A failure of device discovery.
    DiscoveryError(String),
    /// Bytes that are no packet.
    DeserializationError(String),
    /// A value that breaks a rule, with the field that holds it.
    Validation { message: String, field: Option<String> },
    /// A failed file or process operation, with its path.
    Io { message: String, path: Option<String> },
    /// Something that is not there, with its name.
    NotFound { resource: String, id: Option<String> },
    /// A line over the size cap.
    PacketTooLarge { size: usize, max: usize },
    /// A packet type that the peer does not take.
    CapabilityNotSupported { device_id: String, packet_type: String },
}

/// An error by its texts.
pub enum ErrorView {
    CertificateError(Seq<char>),
    TlsError(Seq<char>),
    ConnectionError(Seq<char>),
    ConnectionTimeout(Seq<char>),
    InvalidPacket(Seq<char>),
    InvalidRequest(Seq<char>),
    DiscoveryError(Seq<char>),
    DeserializationError(Seq<char>),
    Validation { message: Seq<char>, field: Option<Seq<char>> },
    Io { message: Seq<char>, path: Option<Seq<char>> },
    NotFound { resource: Seq<char>, id: Option<Seq<char>> },
    PacketTooLarge { size: nat, max: nat },
    CapabilityNotSupported { device_id: Seq<char>, packet_type: Seq<char> },
}

/// An optional string by its text.
pub open spec fn text_of(s: Option<String>) -> Option<Seq<char>> {
    match s {
        Some(t) => Some(t@),
        None => None,
    }
}

impl View for Error {
    type V = ErrorView;

    open spec fn view(&self) -> ErrorView {
        match self {
            Error::CertificateError(m) => ErrorView::CertificateError(m@),
            Error::TlsError(m) => ErrorView::TlsError(m@),
            Error::ConnectionError(m) => ErrorView::ConnectionError(m@),
            Error::ConnectionTimeout(m) => ErrorView::ConnectionTimeout(m@),
            Error::InvalidPacket(m) => ErrorView::InvalidPacket(m@),
            Error::InvalidRequest(m) => ErrorView::InvalidRequest(m@),
            Error::DiscoveryError(m) => ErrorView::DiscoveryError(m@),
            Error::DeserializationError(m) => ErrorView::DeserializationError(m@),
            Error::Validation { message, field } => ErrorView::Validation {
                message: message@,
                field: text_of(*field),
            },
            Error::Io { message, path } => ErrorView::Io { message: message@, path: text_of(*path) },
            Error::NotFound { resource, id } => ErrorView::NotFound {
                resource: resource@,
                id: text_of(*id),
            },
            Error::PacketTooLarge { size, max } => ErrorView::PacketTooLarge {
                size: *size as nat,
                max: *max as nat,
            },
            Error::CapabilityNotSupported { device_id, packet_type } =>
                ErrorView::CapabilityNotSupported {
                device_id: device_id@,
                packet_type: packet_type@,
            },
        }
    }
}

impl ErrorView {
    /// What the error says.
    pub open spec fn message(self) -> Seq<char> {
        match self {
            ErrorView::CertificateError(m) => m,
            ErrorView::TlsError(m) => m,
            ErrorView::ConnectionError(m) => m,
            ErrorView::ConnectionTimeout(m) => m,
            ErrorView::InvalidPacket(m) => m,
            ErrorView::InvalidRequest(m) => m,
            ErrorView::DiscoveryError(m) => m,
            ErrorView::DeserializationError(m) => m,
            ErrorView::Validation { message, field } => message,
            ErrorView::Io { message, path } => message,
            ErrorView::NotFound { resource, id } => match id {
                Some(i) => resource + ": "@ + i,
                None => resource,
            },
            ErrorView::PacketTooLarge { size, max } => "Packet of "@ + crate::text::decimal(size)
                + " bytes is over the cap of "@ + crate::text::decimal(max),
            ErrorView::CapabilityNotSupported { device_id, packet_type } => "Device "@ + device_id
                + " does not take packets of type "@ + packet_type,
        }
    }
}

impl Error {
    /// What the error says.
    pub fn message(&self) -> (r: String)
        ensures
            r@ == self@.message(),
    {
        match self {
            Error::CertificateError(m) => m.clone(),
            Error::TlsError(m) => m.clone(),
            Error::ConnectionError(m) => m.clone(),
            Error::ConnectionTimeout(m) => m.clone(),
            Error::InvalidPacket(m) => m.clone(),
            Error::InvalidRequest(m) => m.clone(),
            Error::DiscoveryError(m) => m.clone(),
            Error::DeserializationError(m) => m.clone(),
            Error::Validation { message, field } => message.clone(),
            Error::Io { message, path } => message.clone(),
            Error::NotFound { resource, id } => match id {
                Some(i) => {
                    let head = join2(resource.as_str(), ": ");
                    join2(head.as_str(), i.as_str())
                },
                None => resource.clone(),
            },
            Error::PacketTooLarge { size, max } => {
                let s = decimal_text(*size as u64);
                let m = decimal_text(*max as u64);
                join4("Packet of ", s.as_str(), " bytes is over the cap of ", m.as_str())
            },
            Error::CapabilityNotSupported { device_id, packet_type } => join4(
                "Device ",
                device_id.as_str(),
                " does not take packets of type ",
                packet_type.as_str(),
            ),
        }
    }
}

} // verus!
