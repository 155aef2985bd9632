//! Signed uplink metadata, the packet kind that protocol version 3 adds:
//! the number of a key and a signature made with it.
use vstd::prelude::*;
use crate::error::{shape_error, Error, ErrorModel};
use crate::header::{append, copy_into, encode_header, header_bytes, HeaderModel};
use crate::json::{json_from_map, json_from_u64, json_map_new, json_model, no_fields, Json};
use crate::payload::{
    base64_faithful, body_bytes, body_doc, bytes_to_json, encode_body, json_faithful,
    json_of_bytes, json_of_u64, member_bytes, member_u64, parse_body, put, read_bytes, read_u64,
};
use crate::types::{Identifier, MacAddress, PROTOCOL_VERSION_3};

verus! {

/// The body of a signed uplink datagram.
#[derive(Debug, Clone, PartialEq)]
pub struct Data {
    /// Number of the key that signed.
    pub key: u32,
    /// The signature; base64 text in the JSON body.
    pub sig: Vec<u8>,
}

/// The mathematical content of a [`Data`].
pub struct DataModel {
    pub key: u32,
    pub sig: Seq<u8>,
}

impl View for Data {
    type V = DataModel;

    open spec fn view(&self) -> DataModel {
        DataModel { key: self.key, sig: self.sig@ }
    }
}

/// Whether a document has a key number that fits 32 bits and a signature
/// in standard base64. Other members are ignored.
pub open spec fn data_fits(doc: Json) -> bool {
    &&& member_u64(doc, "key"@) is Some
    &&& member_u64(doc, "key"@)->Some_0 <= u32::MAX
    &&& member_bytes(doc, "sig"@) is Some
}

/// The signed metadata that a document stands for, if it stands for any.
pub open spec fn data_of(doc: Json) -> Option<DataModel> {
    if data_fits(doc) {
        Some(
            DataModel {
                key: member_u64(doc, "key"@)->Some_0 as u32,
                sig: member_bytes(doc, "sig"@)->Some_0,
            },
        )
    } else {
        None
    }
}

/// The document that signed metadata becomes.
pub open spec fn data_json(data: DataModel) -> Json {
    Json::Object(
        no_fields()
            .insert("key"@, json_of_u64(data.key as u64))
            .insert("sig"@, json_of_bytes(data.sig)),
    )
}

/// The signed metadata in the bytes of a body, or why there is none.
pub open spec fn data_body(body: Seq<u8>) -> Result<DataModel, ErrorModel> {
    match body_doc(body) {
        Ok(doc) => match data_of(doc) {
            Some(data) => Ok(data),
            None => Err(shape_error()),
        },
        Err(e) => Err(e),
    }
}

impl Data {
    /// Reads signed metadata from a JSON document.
    pub fn from_json(value: &serde_json::Value) -> (r: Option<Data>)
        ensures
            match r {
                Some(data) => data_of(json_model(*value)) == Some(data@),
                None => data_of(json_model(*value)) is None,
            },
    {
        let key = match read_u64(value, "key") {
            Some(key) => key,
            None => {
                return None;
            },
        };
        if key > 0xffff_ffff {
            return None;
        }
        let sig = match read_bytes(value, "sig") {
            Some(sig) => sig,
            None => {
                return None;
            },
        };
        Some(Data { key: key as u32, sig })
    }

    /// Writes the signed metadata as a JSON object, from which it reads back.
    pub fn to_json(&self) -> (r: serde_json::Value)
        ensures
            json_model(r) == data_json(self@),
            base64_faithful(self@.sig),
            data_of(json_model(r)) == Some(self@),
    {
        proof {
            lemma_data_round_trip(self@);
        }
        let mut fields = json_map_new();
        put(&mut fields, "key", json_from_u64(self.key as u64));
        put(&mut fields, "sig", bytes_to_json(&self.sig));
        json_from_map(fields)
    }
}

/// Decodes the body of a signed uplink datagram: UTF-8, then JSON, then
/// the shape of the record, and the first of these that fails is reported.
pub fn decode_data(body: &[u8]) -> (r: Result<Data, Error>)
    ensures
        match r {
            Ok(data) => data_body(body@) == Ok::<DataModel, ErrorModel>(data@),
            Err(e) => data_body(body@) == Err::<DataModel, ErrorModel>(e@),
        },
{
    match parse_body(body) {
        Ok(value) => match Data::from_json(&value) {
            Some(data) => Ok(data),
            None => Err(Error::shape()),
        },
        Err(e) => Err(e),
    }
}

/// A signed uplink datagram.
#[derive(Debug, Clone, PartialEq)]
pub struct Packet {
    pub random_token: u16,
    pub gateway_mac: MacAddress,
    pub data: Data,
}

/// The mathematical content of a signed uplink datagram.
pub struct PacketModel {
    pub random_token: u16,
    pub gateway_mac: Seq<u8>,
    pub data: DataModel,
}

impl View for Packet {
    type V = PacketModel;

    open spec fn view(&self) -> PacketModel {
        PacketModel {
            random_token: self.random_token,
            gateway_mac: self.gateway_mac@,
            data: self.data@,
        }
    }
}

impl PacketModel {
    /// The header of the datagram: version 3, the token, the packet
    /// kind and the gateway address.
    pub open spec fn header(self) -> HeaderModel {
        HeaderModel {
            version: PROTOCOL_VERSION_3,
            token: self.random_token,
            identifier: Identifier::PushDataSig,
            mac: Some(self.gateway_mac),
        }
    }

    /// The datagram: the header, then the JSON body.
    pub open spec fn wire(self) -> Seq<u8> {
        header_bytes(self.header()) + body_bytes(data_json(self.data))
    }
}

impl Packet {
    /// The datagram of this packet. The signature in it reads back from
    /// its base64.
    pub fn to_bytes(&self) -> (r: Vec<u8>)
        ensures
            r@ == self@.wire(),
            r@.len() == 10 + body_bytes(data_json(self@.data)).len(),
            base64_faithful(self@.data.sig),
    {
        proof {
            self.gateway_mac.lemma_len();
        }
        let mut out = encode_header(
            PROTOCOL_VERSION_3,
            self.random_token,
            Identifier::PushDataSig,
            Some(&self.gateway_mac),
        );
        let value = self.data.to_json();
        let body = encode_body(&value);
        append(&mut out, body.as_slice());
        out
    }

    /// Writes the datagram to the start of `buffer` and reports its
    /// length. The buffer keeps its length. One that cannot hold the
    /// datagram, and only such a one, is refused and left as it is.
    pub fn serialize(&self, buffer: &mut [u8]) -> (r: Result<u64, Error>)
        ensures
            final(buffer)@.len() == old(buffer)@.len(),
            self@.wire().len() == 10 + body_bytes(data_json(self@.data)).len(),
            r is Err <==> old(buffer)@.len() < self@.wire().len(),
            match r {
                Ok(n) => n == self@.wire().len() && n <= old(buffer)@.len() && final(buffer)@
                    == self@.wire() + old(buffer)@.skip(n as int),
                Err(e) => e == Error::BufferTooSmall && final(buffer)@ == old(buffer)@,
            },
            base64_faithful(self@.data.sig),
    {
        let bytes = self.to_bytes();
        if bytes.len() > buffer.len() {
            return Err(Error::BufferTooSmall);
        }
        copy_into(buffer, bytes.as_slice());
        Ok(bytes.len() as u64)
    }
}

/// Reading undoes writing for signed metadata whose signature reads back
/// from base64.
pub proof fn lemma_data_round_trip(data: DataModel)
    ensures
        base64_faithful(data.sig) ==> data_of(data_json(data)) == Some(data),
{
    reveal_strlit("key");
    reveal_strlit("sig");
    assert("key"@[0] == 'k');
    assert("sig"@[0] == 's');
}

/// Decoding undoes encoding for the body of a signed uplink datagram, as
/// far as the outside text forms do: where the document parses back from
/// its text and the signature reads back from base64, the body's bytes
/// decode to the body.
pub proof fn lemma_data_body_round_trip(data: DataModel)
    ensures
        json_faithful(data_json(data)) && base64_faithful(data.sig) ==> data_body(
            body_bytes(data_json(data)),
        ) == Ok::<DataModel, ErrorModel>(data),
{
    broadcast use vstd::utf8::encode_utf8_valid_utf8, vstd::utf8::encode_utf8_decode_utf8;

    lemma_data_round_trip(data);
}

} // verus!
