//! Codec for the UDP protocol between LoRa packet forwarders and a network
//! server: one datagram in, one typed packet out, and back.
use vstd::prelude::*;

pub mod error;
pub mod header;
pub mod json;
pub mod packet;
pub mod payload;
pub mod types;

pub use crate::error::{Error, ErrorKind, ErrorModel, PayloadFault};
pub use crate::header::{decode_header, encode_header, token_of, Header};
pub use crate::packet::push_data_sig;
pub use crate::payload::{PushData, RxPk, Stat};
pub use crate::types::{
    supported_version, Identifier, MacAddress, PROTOCOL_VERSION, PROTOCOL_VERSION_3,
};

use crate::header::{
    append, copy_into, decode_header_spec, header_bytes, header_len, lemma_header_round_trip,
    mac_model, HeaderModel, ADDRESSED_LEN,
};
use crate::packet::push_data_sig::{
    data_body, data_json, decode_data, lemma_data_body_round_trip, Data, DataModel,
};
use crate::json::Json;
use crate::payload::{
    base64_faithful, body_bytes, decode_push_data, encode_body, frames_faithful, json_faithful,
    lemma_push_data_body_round_trip, push_data_body, push_data_json, PushDataModel,
};

verus! {

/// Reads the correlation token from the header bytes.
pub fn random_token(buffer: &[u8]) -> (r: u16)
    requires
        buffer@.len() >= 3,
    ensures
        r == token_of(buffer@[1], buffer@[2]),
{
    (buffer[1] as u16) << 8 | buffer[2] as u16
}

/// Reads the gateway address from the six bytes that follow the fixed header.
pub fn gateway_mac(buffer: &[u8]) -> (r: MacAddress)
    requires
        buffer@.len() >= 10,
    ensures
        r@ == buffer@.subrange(4, 10),
{
    let bytes: [u8; 6] = [buffer[4], buffer[5], buffer[6], buffer[7], buffer[8], buffer[9]];
    let r = MacAddress::new(&bytes);
    assert(r@ =~= buffer@.subrange(4, 10));
    r
}

/// What a packet carries besides token and gateway address, by packet kind.
#[derive(Clone, Debug, PartialEq)]
pub enum PacketData {
    PushData(PushData),
    PushAck,
    PullData,
    PullResp,
    PullAck,
    PushDataSig(Data),
}

/// The mathematical content of a [`PacketData`].
pub enum PacketDataModel {
    PushData(PushDataModel),
    PushAck,
    PullData,
    PullResp,
    PullAck,
    PushDataSig(DataModel),
}

impl View for PacketData {
    type V = PacketDataModel;

    open spec fn view(&self) -> PacketDataModel {
        match self {
            PacketData::PushData(data) => PacketDataModel::PushData(data@),
            PacketData::PushAck => PacketDataModel::PushAck,
            PacketData::PullData => PacketDataModel::PullData,
            PacketData::PullResp => PacketDataModel::PullResp,
            PacketData::PullAck => PacketDataModel::PullAck,
            PacketData::PushDataSig(data) => PacketDataModel::PushDataSig(data@),
        }
    }
}

impl PacketDataModel {
    /// The packet kind.
    pub open spec fn identifier(self) -> Identifier {
        match self {
            PacketDataModel::PushData(_) => Identifier::PushData,
            PacketDataModel::PushAck => Identifier::PushAck,
            PacketDataModel::PullData => Identifier::PullData,
            PacketDataModel::PullResp => Identifier::PullResp,
            PacketDataModel::PullAck => Identifier::PullAck,
            PacketDataModel::PushDataSig(_) => Identifier::PushDataSig,
        }
    }

    /// The JSON document of the body; `null` for a packet kind without one.
    pub open spec fn doc(self) -> Json {
        match self {
            PacketDataModel::PushData(data) => push_data_json(data),
            PacketDataModel::PushDataSig(data) => data_json(data),
            _ => Json::Null,
        }
    }

    /// The bytes of the JSON body; none for a packet kind without one.
    pub open spec fn body(self) -> Seq<u8> {
        if self.identifier().spec_carries_body() {
            body_bytes(self.doc())
        } else {
            Seq::<u8>::empty()
        }
    }
}

impl PacketData {
    /// The packet kind.
    pub fn identifier(&self) -> (r: Identifier)
        ensures
            r == self@.identifier(),
    {
        match self {
            PacketData::PushData(_) => Identifier::PushData,
            PacketData::PushAck => Identifier::PushAck,
            PacketData::PullData => Identifier::PullData,
            PacketData::PullResp => Identifier::PullResp,
            PacketData::PullAck => Identifier::PullAck,
            PacketData::PushDataSig(_) => Identifier::PushDataSig,
        }
    }
}

/// One datagram, decoded.
#[derive(Clone, Debug, PartialEq)]
pub struct Packet {
    /// The sender's correlation token.
    pub random_token: u16,
    /// The gateway's address, for the packet kinds that a gateway sends.
    pub gateway_mac: Option<MacAddress>,
    /// The packet kind and its payload.
    pub data: PacketData,
}

/// The mathematical content of a [`Packet`].
pub struct PacketModel {
    pub random_token: u16,
    pub gateway_mac: Option<Seq<u8>>,
    pub data: PacketDataModel,
}

impl View for Packet {
    type V = PacketModel;

    open spec fn view(&self) -> PacketModel {
        PacketModel {
            random_token: self.random_token,
            gateway_mac: mac_model(self.gateway_mac),
            data: self.data@,
        }
    }
}

/// The protocol version that a packet kind is written in.
pub open spec fn wire_version(identifier: Identifier) -> u8 {
    if identifier == Identifier::PushDataSig {
        PROTOCOL_VERSION_3
    } else {
        PROTOCOL_VERSION
    }
}

/// The payload of a packet kind that the bytes after the header hold. A
/// packet kind without a body ignores them.
pub open spec fn payload_spec(identifier: Identifier, body: Seq<u8>) -> Result<
    PacketDataModel,
    ErrorModel,
> {
    match identifier {
        Identifier::PushData => match push_data_body(body) {
            Ok(data) => Ok(PacketDataModel::PushData(data)),
            Err(e) => Err(e),
        },
        Identifier::PushDataSig => match data_body(body) {
            Ok(data) => Ok(PacketDataModel::PushDataSig(data)),
            Err(e) => Err(e),
        },
        Identifier::PushAck => Ok(PacketDataModel::PushAck),
        Identifier::PullData => Ok(PacketDataModel::PullData),
        Identifier::PullResp => Ok(PacketDataModel::PullResp),
        Identifier::PullAck => Ok(PacketDataModel::PullAck),
    }
}

/// What a datagram decodes to: the header first, with its own order of
/// failures, then, for the packet kinds that have a body, all that follows
/// the header.
pub open spec fn parse_spec(datagram: Seq<u8>) -> Result<PacketModel, ErrorModel> {
    match decode_header_spec(datagram) {
        Err(e) => Err(e),
        Ok(header) => match payload_spec(
            header.identifier,
            datagram.skip(header_len(header.identifier)),
        ) {
            Ok(data) => Ok(
                PacketModel { random_token: header.token, gateway_mac: header.mac, data },
            ),
            Err(e) => Err(e),
        },
    }
}

impl PacketModel {
    /// A packet is consistent when it has a six-byte gateway address
    /// exactly if its packet kind carries one.
    pub open spec fn wf(self) -> bool {
        &&& self.gateway_mac is Some <==> self.data.identifier().spec_carries_mac()
        &&& self.gateway_mac is Some ==> self.gateway_mac->Some_0.len() == 6
    }

    /// The header of the packet's datagram.
    pub open spec fn header(self) -> HeaderModel {
        HeaderModel {
            version: wire_version(self.data.identifier()),
            token: self.random_token,
            identifier: self.data.identifier(),
            mac: self.gateway_mac,
        }
    }

    /// The packet's datagram: the header, then the body.
    pub open spec fn wire(self) -> Seq<u8> {
        header_bytes(self.header()) + self.data.body()
    }
}

impl Packet {
    /// A packet of the given parts, if they are consistent: a gateway
    /// address exactly for the packet kinds that carry one.
    pub fn new(random_token: u16, gateway_mac: Option<MacAddress>, data: PacketData) -> (r: Option<Packet>)
        ensures
            match r {
                Some(packet) => packet@.wf() && packet.random_token == random_token
                    && packet.gateway_mac == gateway_mac && packet.data == data,
                None => gateway_mac.is_some() != data@.identifier().spec_carries_mac(),
            },
    {
        if gateway_mac.is_some() == data.identifier().carries_mac() {
            proof {
                if gateway_mac is Some {
                    gateway_mac->Some_0.lemma_len();
                }
            }
            Some(Packet { random_token, gateway_mac, data })
        } else {
            None
        }
    }

    /// The signed uplink as a packet: the same datagram, under the general type.
    pub fn from_signed(signed: push_data_sig::Packet) -> (r: Packet)
        ensures
            r@.wf(),
            r@.wire() == signed@.wire(),
            r.random_token == signed.random_token,
            r.gateway_mac == Some(signed.gateway_mac),
            r.data == PacketData::PushDataSig(signed.data),
    {
        proof {
            signed.gateway_mac.lemma_len();
        }
        let r = Packet {
            random_token: signed.random_token,
            gateway_mac: Some(signed.gateway_mac),
            data: PacketData::PushDataSig(signed.data),
        };
        assert(r@.wire() =~= signed@.wire());
        r
    }

    /// Whether the packet is consistent.
    pub fn is_consistent(&self) -> (r: bool)
        ensures
            r == self@.wf(),
    {
        proof {
            if self.gateway_mac is Some {
                self.gateway_mac->Some_0.lemma_len();
            }
        }
        self.gateway_mac.is_some() == self.data.identifier().carries_mac()
    }

    /// Decodes the datagram in the first `num_recv` bytes of `buffer`.
    pub fn parse(buffer: &[u8], num_recv: usize) -> (r: Result<Packet, Error>)
        requires
            num_recv <= buffer@.len(),
        ensures
            match r {
                Ok(packet) => parse_spec(buffer@.take(num_recv as int)) == Ok::<
                    PacketModel,
                    ErrorModel,
                >(packet@),
                Err(e) => parse_spec(buffer@.take(num_recv as int)) == Err::<
                    PacketModel,
                    ErrorModel,
                >(e@),
            },
            r is Ok ==> r->Ok_0@.wf(),
    {
        let datagram = vstd::slice::slice_subrange(buffer, 0, num_recv);
        assert(datagram@ =~= buffer@.take(num_recv as int));
        let header = match decode_header(datagram) {
            Ok(header) => header,
            Err(e) => {
                return Err(e);
            },
        };
        proof {
            if header.mac is Some {
                header.mac->Some_0.lemma_len();
            }
        }
        let data = match header.identifier {
            Identifier::PushData => {
                let body = vstd::slice::slice_subrange(buffer, ADDRESSED_LEN, num_recv);
                assert(body@ =~= datagram@.skip(10));
                match decode_push_data(body) {
                    Ok(data) => PacketData::PushData(data),
                    Err(e) => {
                        return Err(e);
                    },
                }
            },
            Identifier::PushDataSig => {
                let body = vstd::slice::slice_subrange(buffer, ADDRESSED_LEN, num_recv);
                assert(body@ =~= datagram@.skip(10));
                match decode_data(body) {
                    Ok(data) => PacketData::PushDataSig(data),
                    Err(e) => {
                        return Err(e);
                    },
                }
            },
            Identifier::PushAck => PacketData::PushAck,
            Identifier::PullData => PacketData::PullData,
            Identifier::PullResp => PacketData::PullResp,
            Identifier::PullAck => PacketData::PullAck,
        };
        Ok(Packet { random_token: header.token, gateway_mac: header.mac, data })
    }

    /// The datagram of a consistent packet. Its byte strings read back from
    /// their base64, and it decodes to the packet again wherever the packet's
    /// JSON document parses back from its text; a packet without a body
    /// always does.
    pub fn to_bytes(&self) -> (r: Vec<u8>)
        requires
            self@.wf(),
        ensures
            r@ == self@.wire(),
            r@.len() == header_len(self@.data.identifier()) + self@.data.body().len(),
            bytes_faithful(self@.data),
            reads_back(self@.data) ==> parse_spec(r@) == Ok::<PacketModel, ErrorModel>(self@),
    {
        let identifier = self.data.identifier();
        let version = match identifier {
            Identifier::PushDataSig => PROTOCOL_VERSION_3,
            _ => PROTOCOL_VERSION,
        };
        let mac = match &self.gateway_mac {
            Some(address) => Some(address),
            None => None,
        };
        let mut out = encode_header(version, self.random_token, identifier, mac);
        match &self.data {
            PacketData::PushData(data) => {
                let value = data.to_json();
                let body = encode_body(&value);
                append(&mut out, body.as_slice());
            },
            PacketData::PushDataSig(data) => {
                let value = data.to_json();
                let body = encode_body(&value);
                append(&mut out, body.as_slice());
            },
            _ => {},
        }
        assert(out@ =~= self@.wire());
        proof {
            lemma_round_trip(self@);
        }
        out
    }

    /// Writes the datagram of a consistent packet to the start of
    /// `buffer` and reports its length. The buffer keeps its length. One
    /// that cannot hold the datagram, and only such a one, is refused and
    /// left as it is. What was written decodes to the packet again, wherever
    /// the packet's JSON document parses back from its text.
    pub fn serialize(&self, buffer: &mut [u8]) -> (r: Result<u64, Error>)
        requires
            self@.wf(),
        ensures
            final(buffer)@.len() == old(buffer)@.len(),
            self@.wire().len() == header_len(self@.data.identifier()) + self@.data.body().len(),
            r is Err <==> old(buffer)@.len() < self@.wire().len(),
            match r {
                Ok(n) => n == self@.wire().len() && n <= old(buffer)@.len() && final(buffer)@
                    == self@.wire() + old(buffer)@.skip(n as int),
                Err(e) => e == Error::BufferTooSmall && final(buffer)@ == old(buffer)@,
            },
            r is Ok && reads_back(self@.data) ==> parse_spec(
                final(buffer)@.take(r->Ok_0 as int),
            ) == Ok::<PacketModel, ErrorModel>(self@),
    {
        let bytes = self.to_bytes();
        if bytes.len() > buffer.len() {
            return Err(Error::BufferTooSmall);
        }
        copy_into(buffer, bytes.as_slice());
        assert(buffer@.take(bytes@.len() as int) =~= bytes@);
        Ok(bytes.len() as u64)
    }
}

/// The header and the body of a consistent packet can be read off its
/// datagram: the header decodes to the packet's header, and the bytes from
/// the end of the header on are the packet's body.
pub proof fn lemma_frame_round_trip(packet: PacketModel)
    requires
        packet.wf(),
    ensures
        decode_header_spec(packet.wire()) == Ok::<HeaderModel, ErrorModel>(packet.header()),
        packet.wire().len() >= header_len(packet.data.identifier()),
        packet.wire().skip(header_len(packet.data.identifier())) == packet.data.body(),
{
    let identifier = packet.data.identifier();
    lemma_header_round_trip(packet.header(), packet.data.body());
    assert(packet.wire().skip(header_len(identifier)) =~= packet.data.body());
}

/// Whether the JSON document of a payload parses back from its text. A
/// packet kind without a body has no document, and nothing to read back.
pub open spec fn reads_back(data: PacketDataModel) -> bool {
    data.identifier().spec_carries_body() ==> json_faithful(data.doc())
}

/// Whether the byte strings of a payload read back from their base64.
pub open spec fn bytes_faithful(data: PacketDataModel) -> bool {
    match data {
        PacketDataModel::PushData(body) => frames_faithful(body),
        PacketDataModel::PushDataSig(body) => base64_faithful(body.sig),
        _ => true,
    }
}

/// Whether the outside text forms give back what a payload puts into
/// them: its JSON document parses back from its text, and its byte strings
/// read back from base64. A packet kind without a body uses neither.
pub open spec fn text_faithful(data: PacketDataModel) -> bool {
    json_faithful(data.doc()) && bytes_faithful(data)
}

/// Decoding undoes encoding for the payload of every packet kind, as far
/// as the outside text forms do.
pub proof fn lemma_payload_round_trip(data: PacketDataModel)
    ensures
        (data.identifier().spec_carries_body() ==> text_faithful(data)) ==> payload_spec(
            data.identifier(),
            data.body(),
        ) == Ok::<PacketDataModel, ErrorModel>(data),
{
    match data {
        PacketDataModel::PushData(body) => {
            lemma_push_data_body_round_trip(body);
        },
        PacketDataModel::PushDataSig(body) => {
            lemma_data_body_round_trip(body);
        },
        _ => {},
    }
}

/// Decoding undoes encoding. A consistent packet of any kind is what its
/// datagram decodes to, as far as the outside text forms do; for a packet
/// kind without a body that is always.
pub proof fn lemma_round_trip(packet: PacketModel)
    requires
        packet.wf(),
    ensures
        (packet.data.identifier().spec_carries_body() ==> text_faithful(packet.data))
            ==> parse_spec(packet.wire()) == Ok::<PacketModel, ErrorModel>(packet),
{
    lemma_frame_round_trip(packet);
    lemma_payload_round_trip(packet.data);
}

/// A datagram that decodes has a good header, and no datagram decodes
/// to a packet that is not consistent.
pub proof fn lemma_parse_consistent(datagram: Seq<u8>)
    requires
        parse_spec(datagram) is Ok,
    ensures
        decode_header_spec(datagram) is Ok,
        parse_spec(datagram)->Ok_0.wf(),
        parse_spec(datagram)->Ok_0.random_token == token_of(datagram[1], datagram[2]),
{
}

/// A failure of the header is the failure of the datagram: the body is
/// not looked at before the header is good.
pub proof fn lemma_header_failure_first(datagram: Seq<u8>)
    requires
        decode_header_spec(datagram) is Err,
    ensures
        parse_spec(datagram) == Err::<PacketModel, ErrorModel>(decode_header_spec(datagram)->Err_0),
{
}

/// A body that does not decode spoils the datagram: behind a good
/// header, the failure of the body is the failure of the datagram, it is a
/// malformed payload, and no packet comes out.
pub proof fn lemma_malformed_body(datagram: Seq<u8>)
    requires
        decode_header_spec(datagram) is Ok,
    ensures
        ({
            let identifier = decode_header_spec(datagram)->Ok_0.identifier;
            let payload = payload_spec(identifier, datagram.skip(header_len(identifier)));
            payload is Err ==> {
                &&& identifier.spec_carries_body()
                &&& payload->Err_0 is MalformedPayload
                &&& parse_spec(datagram) == Err::<PacketModel, ErrorModel>(payload->Err_0)
            }
        }),
{
}

/// A datagram whose first byte is no supported version is refused for
/// its version, whatever else it holds.
pub proof fn lemma_rejects_version(datagram: Seq<u8>)
    requires
        datagram.len() >= 1,
        !supported_version(datagram[0]),
    ensures
        parse_spec(datagram) == Err::<PacketModel, ErrorModel>(ErrorModel::UnsupportedVersion),
{
}

/// A datagram of a supported version whose fourth byte names no packet
/// kind of that version is refused for its identifier, whatever else it holds.
pub proof fn lemma_rejects_identifier(datagram: Seq<u8>)
    requires
        datagram.len() >= 4,
        supported_version(datagram[0]),
        Identifier::spec_from_code(datagram[0], datagram[3]) is None,
    ensures
        parse_spec(datagram) == Err::<PacketModel, ErrorModel>(ErrorModel::UnknownIdentifier),
{
}

/// Cutting a datagram that decodes to fewer bytes than the header of
/// its packet kind has leaves a datagram that is refused as truncated.
pub proof fn lemma_rejects_truncation(datagram: Seq<u8>, len: int)
    requires
        parse_spec(datagram) is Ok,
        0 <= len < header_len(parse_spec(datagram)->Ok_0.data.identifier()),
    ensures
        parse_spec(datagram.take(len)) == Err::<PacketModel, ErrorModel>(ErrorModel::TruncatedInput),
{
}

} // verus!
