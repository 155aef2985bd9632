//! The binary prefix that every datagram starts with: protocol version,
//! correlation token, packet kind and, for the kinds a gateway sends, the
//! gateway's address.
use vstd::prelude::*;
use crate::error::{Error, ErrorModel};
use crate::types::{
    supported_version, Identifier, MacAddress, PROTOCOL_VERSION, PROTOCOL_VERSION_3,
};

verus! {

/// Number of header bytes that every packet kind has.
pub const FIXED_LEN: usize = 4;

/// Number of header bytes of a packet kind that carries a gateway address.
pub const ADDRESSED_LEN: usize = 10;

/// The decoded header of one datagram.
#[derive(Clone, Copy, Debug, PartialEq, Eq)]
pub struct Header {
    pub version: u8,
    pub token: u16,
    pub identifier: Identifier,
    pub mac: Option<MacAddress>,
}

/// The mathematical content of a [`Header`].
pub struct HeaderModel {
    pub version: u8,
    pub token: u16,
    pub identifier: Identifier,
    pub mac: Option<Seq<u8>>,
}

/// The bytes of a gateway address that may be absent.
pub open spec fn mac_model(mac: Option<MacAddress>) -> Option<Seq<u8>> {
    match mac {
        Some(address) => Some(address@),
        None => None,
    }
}

impl View for Header {
    type V = HeaderModel;

    open spec fn view(&self) -> HeaderModel {
        HeaderModel {
            version: self.version,
            token: self.token,
            identifier: self.identifier,
            mac: mac_model(self.mac),
        }
    }
}

impl HeaderModel {
    /// A header is consistent when its packet kind exists in its version
    /// and a six-byte address is there exactly for the kinds that carry one.
    pub open spec fn wf(self) -> bool {
        &&& self.identifier.in_version(self.version)
        &&& self.mac is Some <==> self.identifier.spec_carries_mac()
        &&& self.mac is Some ==> self.mac->Some_0.len() == 6
    }
}

/// The correlation token made of its two wire bytes, high byte first.
pub open spec fn token_of(hi: u8, lo: u8) -> u16 {
    (hi as u16) << 8 | (lo as u16)
}

/// The high wire byte of a token.
pub open spec fn token_hi(token: u16) -> u8 {
    (token >> 8) as u8
}

/// The low wire byte of a token.
pub open spec fn token_lo(token: u16) -> u8 {
    (token & 0xff) as u8
}

/// Number of header bytes of a packet kind.
pub open spec fn header_len(identifier: Identifier) -> int {
    if identifier.spec_carries_mac() {
        10
    } else {
        4
    }
}

/// What the first bytes of a datagram decode to. The version is judged
/// first, then the packet kind, then whether the header is all there.
pub open spec fn decode_header_spec(bytes: Seq<u8>) -> Result<HeaderModel, ErrorModel> {
    if bytes.len() < 1 {
        Err(ErrorModel::TruncatedInput)
    } else if !supported_version(bytes[0]) {
        Err(ErrorModel::UnsupportedVersion)
    } else if bytes.len() < 4 {
        Err(ErrorModel::TruncatedInput)
    } else {
        match Identifier::spec_from_code(bytes[0], bytes[3]) {
            None => Err(ErrorModel::UnknownIdentifier),
            Some(identifier) => if bytes.len() < header_len(identifier) {
                Err(ErrorModel::TruncatedInput)
            } else {
                Ok(
                    HeaderModel {
                        version: bytes[0],
                        token: token_of(bytes[1], bytes[2]),
                        identifier,
                        mac: if identifier.spec_carries_mac() {
                            Some(bytes.subrange(4, 10))
                        } else {
                            None
                        },
                    },
                )
            },
        }
    }
}

/// The wire bytes of a header.
pub open spec fn header_bytes(header: HeaderModel) -> Seq<u8> {
    seq![
        header.version,
        token_hi(header.token),
        token_lo(header.token),
        header.identifier.spec_code(),
    ] + match header.mac {
        Some(address) => address,
        None => Seq::<u8>::empty(),
    }
}

/// Appends a run of bytes to a byte vector.
pub fn append(out: &mut Vec<u8>, bytes: &[u8])
    ensures
        final(out)@ == old(out)@ + bytes@,
{
    let mut i: usize = 0;
    while i < bytes.len()
        invariant
            0 <= i <= bytes.len(),
            out@ == old(out)@ + bytes@.take(i as int),
        decreases bytes.len() - i,
    {
        out.push(bytes[i]);
        assert(bytes@.take(i + 1) =~= bytes@.take(i as int).push(bytes@[i as int]));
        i = i + 1;
    }
    assert(bytes@.take(i as int) =~= bytes@);
}

/// Overwrites the start of a buffer with a run of bytes that fits in it.
pub fn copy_into(buffer: &mut [u8], bytes: &[u8])
    requires
        bytes@.len() <= old(buffer)@.len(),
    ensures
        final(buffer)@.len() == old(buffer)@.len(),
        final(buffer)@ == bytes@ + old(buffer)@.skip(bytes@.len() as int),
{
    let mut i: usize = 0;
    while i < bytes.len()
        invariant
            0 <= i <= bytes.len(),
            bytes@.len() <= buffer@.len(),
            buffer@.len() == old(buffer)@.len(),
            forall|k: int| 0 <= k < i ==> buffer@[k] == bytes@[k],
            forall|k: int| i <= k < buffer@.len() ==> buffer@[k] == old(buffer)@[k],
        decreases bytes.len() - i,
    {
        buffer[i] = bytes[i];
        i = i + 1;
    }
    assert(buffer@ =~= bytes@ + old(buffer)@.skip(bytes@.len() as int));
}

/// Decodes the header at the start of a datagram.
pub fn decode_header(bytes: &[u8]) -> (r: Result<Header, Error>)
    ensures
        match r {
            Ok(header) => decode_header_spec(bytes@) == Ok::<HeaderModel, ErrorModel>(header@),
            Err(e) => decode_header_spec(bytes@) == Err::<HeaderModel, ErrorModel>(e@),
        },
{
    if bytes.len() < 1 {
        return Err(Error::TruncatedInput);
    }
    let version = bytes[0];
    if version != PROTOCOL_VERSION && version != PROTOCOL_VERSION_3 {
        return Err(Error::UnsupportedVersion);
    }
    if bytes.len() < FIXED_LEN {
        return Err(Error::TruncatedInput);
    }
    let identifier = match Identifier::from_code(version, bytes[3]) {
        Ok(identifier) => identifier,
        Err(e) => {
            return Err(e);
        },
    };
    let token = (bytes[1] as u16) << 8 | bytes[2] as u16;
    if identifier.carries_mac() {
        if bytes.len() < ADDRESSED_LEN {
            return Err(Error::TruncatedInput);
        }
        let raw: [u8; 6] = [bytes[4], bytes[5], bytes[6], bytes[7], bytes[8], bytes[9]];
        let address = MacAddress::new(&raw);
        assert(address@ =~= bytes@.subrange(4, 10));
        Ok(Header { version, token, identifier, mac: Some(address) })
    } else {
        Ok(Header { version, token, identifier, mac: None })
    }
}

/// Encodes a header: version, token high byte, token low byte, packet kind,
/// then the gateway address where one is given. Giving an address to a
/// packet kind that carries none, or none to one that carries one, is the
/// caller's error and is ruled out here.
pub fn encode_header(version: u8, token: u16, identifier: Identifier, mac: Option<&MacAddress>) -> (r: Vec<u8>)
    requires
        mac is Some <==> identifier.spec_carries_mac(),
    ensures
        r@ == header_bytes(
            (HeaderModel {
                version,
                token,
                identifier,
                mac: match mac {
                    Some(address) => Some(address@),
                    None => None,
                },
            }),
        ),
{
    let mut out: Vec<u8> = Vec::new();
    out.push(version);
    out.push((token >> 8) as u8);
    out.push((token & 0xff) as u8);
    out.push(identifier.code());
    match mac {
        Some(address) => {
            let raw = address.as_bytes();
            append(&mut out, raw.as_slice());
        },
        None => {},
    }
    assert(out@ =~= header_bytes(
        (HeaderModel {
            version,
            token,
            identifier,
            mac: match mac {
                Some(address) => Some(address@),
                None => None,
            },
        }),
    ));
    out
}

/// Splitting a token into its wire bytes and joining them again gives the token.
pub proof fn lemma_token_round_trip(token: u16)
    ensures
        token_of(token_hi(token), token_lo(token)) == token,
{
    assert((((token >> 8) as u8) as u16) << 8 | (((token & 0xff) as u8) as u16) == token)
        by (bit_vector);
}

/// Joining two wire bytes into a token and splitting it again gives the bytes.
pub proof fn lemma_token_bytes(hi: u8, lo: u8)
    ensures
        token_hi(token_of(hi, lo)) == hi,
        token_lo(token_of(hi, lo)) == lo,
{
    assert(((((hi as u16) << 8 | (lo as u16)) >> 8) as u8) == hi) by (bit_vector);
    assert(((((hi as u16) << 8 | (lo as u16)) & 0xff) as u8) == lo) by (bit_vector);
}

/// Decoding undoes encoding: the bytes of a consistent header, whatever
/// follows them, decode to that header.
pub proof fn lemma_header_round_trip(header: HeaderModel, rest: Seq<u8>)
    requires
        header.wf(),
    ensures
        decode_header_spec(header_bytes(header) + rest) == Ok::<HeaderModel, ErrorModel>(header),
{
    let bytes = header_bytes(header) + rest;
    lemma_token_round_trip(header.token);
    header.identifier.lemma_code_round_trip(header.version);
    assert(bytes[0] == header.version);
    assert(bytes[1] == token_hi(header.token));
    assert(bytes[2] == token_lo(header.token));
    assert(bytes[3] == header.identifier.spec_code());
    if header.identifier.spec_carries_mac() {
        assert(bytes.subrange(4, 10) =~= header.mac->Some_0);
    }
}

/// Encoding undoes decoding: the header that a datagram decodes to
/// is consistent, and its bytes are the datagram's first bytes.
pub proof fn lemma_header_prefix(bytes: Seq<u8>)
    requires
        decode_header_spec(bytes) is Ok,
    ensures
        decode_header_spec(bytes)->Ok_0.wf(),
        header_bytes(decode_header_spec(bytes)->Ok_0) == bytes.take(
            header_len(decode_header_spec(bytes)->Ok_0.identifier),
        ),
{
    let header = decode_header_spec(bytes)->Ok_0;
    lemma_token_bytes(bytes[1], bytes[2]);
    Identifier::lemma_from_code_inverse(bytes[0], bytes[3]);
    assert(header_bytes(header) =~= bytes.take(header_len(header.identifier)));
}

/// A datagram whose first byte is no supported version is refused for its
/// version, whatever else it holds.
pub proof fn lemma_header_rejects_version(bytes: Seq<u8>)
    requires
        bytes.len() >= 1,
        !supported_version(bytes[0]),
    ensures
        decode_header_spec(bytes) == Err::<HeaderModel, ErrorModel>(ErrorModel::UnsupportedVersion),
{
}

/// A datagram of a supported version whose fourth byte names no packet
/// kind of that version is refused for its identifier.
pub proof fn lemma_header_rejects_identifier(bytes: Seq<u8>)
    requires
        bytes.len() >= 4,
        supported_version(bytes[0]),
        Identifier::spec_from_code(bytes[0], bytes[3]) is None,
    ensures
        decode_header_spec(bytes) == Err::<HeaderModel, ErrorModel>(ErrorModel::UnknownIdentifier),
{
}

/// Cutting a datagram with a good header to fewer bytes than its
/// header has leaves a datagram that is refused as truncated.
pub proof fn lemma_header_rejects_truncation(bytes: Seq<u8>, len: int)
    requires
        decode_header_spec(bytes) is Ok,
        0 <= len < header_len(decode_header_spec(bytes)->Ok_0.identifier),
    ensures
        decode_header_spec(bytes.take(len)) == Err::<HeaderModel, ErrorModel>(ErrorModel::TruncatedInput),
{
}

} // verus!
