//! The leaf values of the protocol: gateway addresses and packet kinds.
use vstd::prelude::*;
use crate::error::Error;

verus! {

/// Protocol version of the baseline packet kinds.
pub const PROTOCOL_VERSION: u8 = 2;

/// Protocol version that adds signed uplink metadata.
pub const PROTOCOL_VERSION_3: u8 = 3;

/// A gateway's hardware address: six opaque bytes.
#[derive(Clone, Copy, Debug, PartialEq, Eq, Hash)]
pub struct MacAddress {
    bytes: [u8; 6],
}

impl View for MacAddress {
    type V = Seq<u8>;

    closed spec fn view(&self) -> Seq<u8> {
        self.bytes@
    }
}

impl MacAddress {
    /// The address made of the six given bytes.
    pub fn new(bytes: &[u8; 6]) -> (r: MacAddress)
        ensures
            r@ == bytes@,
    {
        MacAddress { bytes: *bytes }
    }

    /// The six bytes, in wire order.
    pub fn as_bytes(&self) -> (r: &[u8; 6])
        ensures
            r@ == self@,
    {
        &self.bytes
    }

    /// An address always has six bytes.
    pub proof fn lemma_len(self)
        ensures
            self@.len() == 6,
    {
    }
}

/// The packet kinds, each a single byte on the wire.
#[derive(Clone, Copy, Debug, PartialEq, Eq, Hash, Structural)]
pub enum Identifier {
    PushData,
    PushAck,
    PullData,
    PullResp,
    PullAck,
    PushDataSig,
}

/// Whether `version` is a protocol version this codec speaks.
pub open spec fn supported_version(version: u8) -> bool {
    version == PROTOCOL_VERSION || version == PROTOCOL_VERSION_3
}

impl Identifier {
    /// The wire byte of this packet kind.
    pub open spec fn spec_code(self) -> u8 {
        match self {
            Identifier::PushData => 0u8,
            Identifier::PushAck => 1u8,
            Identifier::PullData => 2u8,
            Identifier::PullResp => 3u8,
            Identifier::PullAck => 4u8,
            Identifier::PushDataSig => 6u8,
        }
    }

    /// Whether this packet kind exists in protocol version `version`.
    pub open spec fn in_version(self, version: u8) -> bool {
        supported_version(version) && (self == Identifier::PushDataSig ==> version
            == PROTOCOL_VERSION_3)
    }

    /// The packet kind that `code` names in protocol version `version`.
    pub open spec fn spec_from_code(version: u8, code: u8) -> Option<Identifier> {
        if code == 0 {
            Some(Identifier::PushData)
        } else if code == 1 {
            Some(Identifier::PushAck)
        } else if code == 2 {
            Some(Identifier::PullData)
        } else if code == 3 {
            Some(Identifier::PullResp)
        } else if code == 4 {
            Some(Identifier::PullAck)
        } else if code == 6 && version == PROTOCOL_VERSION_3 {
            Some(Identifier::PushDataSig)
        } else {
            None
        }
    }

    /// Whether a gateway address follows the four fixed header bytes.
    pub open spec fn spec_carries_mac(self) -> bool {
        self == Identifier::PushData || self == Identifier::PullData || self
            == Identifier::PushDataSig
    }

    /// Whether a JSON body follows the header.
    pub open spec fn spec_carries_body(self) -> bool {
        self == Identifier::PushData || self == Identifier::PushDataSig
    }

    /// The wire byte of this packet kind.
    pub fn code(&self) -> (r: u8)
        ensures
            r == self.spec_code(),
    {
        match self {
            Identifier::PushData => 0,
            Identifier::PushAck => 1,
            Identifier::PullData => 2,
            Identifier::PullResp => 3,
            Identifier::PullAck => 4,
            Identifier::PushDataSig => 6,
        }
    }

    /// Looks up the packet kind of a wire byte; a byte that names none in
    /// this version is refused, never mapped to a default.
    pub fn from_code(version: u8, code: u8) -> (r: Result<Identifier, Error>)
        ensures
            match r {
                Ok(id) => Identifier::spec_from_code(version, code) == Some(id),
                Err(e) => Identifier::spec_from_code(version, code) is None && e
                    == Error::UnknownIdentifier,
            },
    {
        match code {
            0 => Ok(Identifier::PushData),
            1 => Ok(Identifier::PushAck),
            2 => Ok(Identifier::PullData),
            3 => Ok(Identifier::PullResp),
            4 => Ok(Identifier::PullAck),
            6 => if version == PROTOCOL_VERSION_3 {
                Ok(Identifier::PushDataSig)
            } else {
                Err(Error::UnknownIdentifier)
            },
            _ => Err(Error::UnknownIdentifier),
        }
    }

    /// Whether a gateway address follows the four fixed header bytes.
    pub fn carries_mac(&self) -> (r: bool)
        ensures
            r == self.spec_carries_mac(),
    {
        match self {
            Identifier::PushData | Identifier::PullData | Identifier::PushDataSig => true,
            _ => false,
        }
    }

    /// Whether a JSON body follows the header.
    pub fn carries_body(&self) -> (r: bool)
        ensures
            r == self.spec_carries_body(),
    {
        match self {
            Identifier::PushData | Identifier::PushDataSig => true,
            _ => false,
        }
    }

    /// The byte-to-kind lookup undoes `code`, in every version that has the kind.
    pub proof fn lemma_code_round_trip(self, version: u8)
        requires
            self.in_version(version),
        ensures
            Identifier::spec_from_code(version, self.spec_code()) == Some(self),
    {
    }

    /// `code` undoes the byte-to-kind lookup, and a kind that was looked up
    /// exists in the version it was looked up in.
    pub proof fn lemma_from_code_inverse(version: u8, code: u8)
        requires
            supported_version(version),
        ensures
            match Identifier::spec_from_code(version, code) {
                Some(id) => id.spec_code() == code && id.in_version(version),
                None => true,
            },
    {
    }
}

} // verus!
