//! The records that travel in the JSON body of a datagram, how each is
//! read from a JSON document and how each is written as one.
use vstd::prelude::*;
use vstd::utf8::{decode_utf8, valid_utf8};
use crate::error::{shape_error, Error, ErrorModel, PayloadFault};
use vstd::utf8::encode_utf8;
use crate::header::append;
use crate::json::{
    base64_decode, base64_decoded, base64_encode, base64_encoded, json_fields, json_from_i64,
    json_from_items, json_from_map, json_from_number, json_from_str, json_from_text,
    json_from_u64, json_i64, json_error_text, json_map_insert, json_map_new, json_member, json_model,
    json_models, json_number, json_of_i64, json_parsed, json_str, json_text, json_to_text,
    json_u64, no_fields, number_model, utf8_error_text, utf8_text, value_as_array, value_as_i64,
    value_as_number, value_as_str, value_as_u64, value_get, value_is_null, value_is_object,
    Json, JsonMap, JsonNumber,
};

verus! {

/// One received radio frame with its radio metadata.
#[derive(Clone, Debug, PartialEq)]
pub struct RxPk {
    /// Concentrator channel on which the frame arrived.
    pub chan: u64,
    /// Coding rate, as text such as `4/5`.
    pub codr: String,
    /// The raw frame; base64 text in the JSON body.
    pub data: Vec<u8>,
    /// Data rate, as text such as `SF10BW125`.
    pub datr: String,
    /// Centre frequency in MHz.
    pub freq: serde_json::Number,
    /// Signal-to-noise ratio in dB; may be negative.
    pub lsnr: serde_json::Number,
    /// Modulation family, as text such as `LORA`.
    pub modu: String,
    /// Radio front end on which the frame arrived.
    pub rfch: u64,
    /// Received signal strength in dBm.
    pub rssi: i64,
    /// Size of the frame in bytes, as the gateway reports it.
    pub size: u64,
    /// CRC status code.
    pub stat: i64,
    /// The gateway's microsecond counter when the frame arrived.
    pub tmst: u64,
}

/// The mathematical content of an [`RxPk`].
pub struct RxPkModel {
    pub chan: u64,
    pub codr: Seq<char>,
    pub data: Seq<u8>,
    pub datr: Seq<char>,
    pub freq: JsonNumber,
    pub lsnr: JsonNumber,
    pub modu: Seq<char>,
    pub rfch: u64,
    pub rssi: i64,
    pub size: u64,
    pub stat: i64,
    pub tmst: u64,
}

impl View for RxPk {
    type V = RxPkModel;

    open spec fn view(&self) -> RxPkModel {
        RxPkModel {
            chan: self.chan,
            codr: self.codr@,
            data: self.data@,
            datr: self.datr@,
            freq: number_model(self.freq),
            lsnr: number_model(self.lsnr),
            modu: self.modu@,
            rfch: self.rfch,
            rssi: self.rssi,
            size: self.size,
            stat: self.stat,
            tmst: self.tmst,
        }
    }
}

/// A gateway's health snapshot.
#[derive(Clone, Debug, PartialEq)]
pub struct Stat {
    /// Share of upstream datagrams that were acknowledged.
    pub ackr: serde_json::Number,
    /// Downlink datagrams received.
    pub dwnb: u64,
    /// Radio frames forwarded.
    pub rxfw: u64,
    /// Radio frames received.
    pub rxnb: u64,
    /// Radio frames received with a valid CRC.
    pub rxok: u64,
    /// Time of the snapshot, as text `YYYY-MM-DD HH:MM:SS TZ`.
    pub time: String,
    /// Frames emitted.
    pub txnb: u64,
}

/// The mathematical content of a [`Stat`].
pub struct StatModel {
    pub ackr: JsonNumber,
    pub dwnb: u64,
    pub rxfw: u64,
    pub rxnb: u64,
    pub rxok: u64,
    pub time: Seq<char>,
    pub txnb: u64,
}

impl View for Stat {
    type V = StatModel;

    open spec fn view(&self) -> StatModel {
        StatModel {
            ackr: number_model(self.ackr),
            dwnb: self.dwnb,
            rxfw: self.rxfw,
            rxnb: self.rxnb,
            rxok: self.rxok,
            time: self.time@,
            txnb: self.txnb,
        }
    }
}

/// The body of an uplink datagram: radio frames, a health snapshot, both or neither.
#[derive(Clone, Debug, PartialEq)]
pub struct PushData {
    pub rxpk: Option<Vec<RxPk>>,
    pub stat: Option<Stat>,
}

/// The mathematical content of a [`PushData`].
pub struct PushDataModel {
    pub rxpk: Option<Seq<RxPkModel>>,
    pub stat: Option<StatModel>,
}

/// The contents of a list of radio frames, in order.
pub open spec fn rxpk_models(items: Seq<RxPk>) -> Seq<RxPkModel> {
    Seq::new(items.len(), |i: int| items[i]@)
}

impl View for PushData {
    type V = PushDataModel;

    open spec fn view(&self) -> PushDataModel {
        PushDataModel {
            rxpk: match self.rxpk {
                Some(items) => Some(rxpk_models(items@)),
                None => None,
            },
            stat: match self.stat {
                Some(stat) => Some(stat@),
                None => None,
            },
        }
    }
}

/// The member under `key` read as an unsigned whole number.
pub open spec fn member_u64(doc: Json, key: Seq<char>) -> Option<u64> {
    match json_member(doc, key) {
        Some(member) => json_u64(member),
        None => None,
    }
}

/// The member under `key` read as a signed whole number.
pub open spec fn member_i64(doc: Json, key: Seq<char>) -> Option<i64> {
    match json_member(doc, key) {
        Some(member) => json_i64(member),
        None => None,
    }
}

/// The member under `key` read as a number of any kind.
pub open spec fn member_number(doc: Json, key: Seq<char>) -> Option<JsonNumber> {
    match json_member(doc, key) {
        Some(member) => json_number(member),
        None => None,
    }
}

/// The member under `key` read as a string.
pub open spec fn member_text(doc: Json, key: Seq<char>) -> Option<Seq<char>> {
    match json_member(doc, key) {
        Some(member) => json_str(member),
        None => None,
    }
}

/// The member under `key` read as a string of standard base64, decoded.
pub open spec fn member_bytes(doc: Json, key: Seq<char>) -> Option<Seq<u8>> {
    match member_text(doc, key) {
        Some(text) => base64_decoded(text),
        None => None,
    }
}

/// The member under `key`, where a missing member and `null` both count as absent.
pub open spec fn member_present(doc: Json, key: Seq<char>) -> Option<Json> {
    match json_member(doc, key) {
        Some(member) => if member is Null {
            None
        } else {
            Some(member)
        },
        None => None,
    }
}

/// Whether a document has every field of a radio frame record, each of
/// its type. Other members are ignored.
pub open spec fn rxpk_fits(doc: Json) -> bool {
    &&& member_u64(doc, "chan"@) is Some
    &&& member_text(doc, "codr"@) is Some
    &&& member_bytes(doc, "data"@) is Some
    &&& member_text(doc, "datr"@) is Some
    &&& member_number(doc, "freq"@) is Some
    &&& member_number(doc, "lsnr"@) is Some
    &&& member_text(doc, "modu"@) is Some
    &&& member_u64(doc, "rfch"@) is Some
    &&& member_i64(doc, "rssi"@) is Some
    &&& member_u64(doc, "size"@) is Some
    &&& member_i64(doc, "stat"@) is Some
    &&& member_u64(doc, "tmst"@) is Some
}

/// The radio frame record that a document stands for, if it stands for one.
pub open spec fn rxpk_of(doc: Json) -> Option<RxPkModel> {
    if rxpk_fits(doc) {
        Some(
            RxPkModel {
                chan: member_u64(doc, "chan"@)->Some_0,
                codr: member_text(doc, "codr"@)->Some_0,
                data: member_bytes(doc, "data"@)->Some_0,
                datr: member_text(doc, "datr"@)->Some_0,
                freq: member_number(doc, "freq"@)->Some_0,
                lsnr: member_number(doc, "lsnr"@)->Some_0,
                modu: member_text(doc, "modu"@)->Some_0,
                rfch: member_u64(doc, "rfch"@)->Some_0,
                rssi: member_i64(doc, "rssi"@)->Some_0,
                size: member_u64(doc, "size"@)->Some_0,
                stat: member_i64(doc, "stat"@)->Some_0,
                tmst: member_u64(doc, "tmst"@)->Some_0,
            },
        )
    } else {
        None
    }
}

/// Whether a document has every field of a health snapshot, each of its type.
pub open spec fn stat_fits(doc: Json) -> bool {
    &&& member_number(doc, "ackr"@) is Some
    &&& member_u64(doc, "dwnb"@) is Some
    &&& member_u64(doc, "rxfw"@) is Some
    &&& member_u64(doc, "rxnb"@) is Some
    &&& member_u64(doc, "rxok"@) is Some
    &&& member_text(doc, "time"@) is Some
    &&& member_u64(doc, "txnb"@) is Some
}

/// The health snapshot that a document stands for, if it stands for one.
pub open spec fn stat_of(doc: Json) -> Option<StatModel> {
    if stat_fits(doc) {
        Some(
            StatModel {
                ackr: member_number(doc, "ackr"@)->Some_0,
                dwnb: member_u64(doc, "dwnb"@)->Some_0,
                rxfw: member_u64(doc, "rxfw"@)->Some_0,
                rxnb: member_u64(doc, "rxnb"@)->Some_0,
                rxok: member_u64(doc, "rxok"@)->Some_0,
                time: member_text(doc, "time"@)->Some_0,
                txnb: member_u64(doc, "txnb"@)->Some_0,
            },
        )
    } else {
        None
    }
}

/// The radio frame records that a list of documents stands for, if every
/// one of them stands for a record.
pub open spec fn rxpks_of(docs: Seq<Json>) -> Option<Seq<RxPkModel>> {
    if forall|i: int| 0 <= i < docs.len() ==> rxpk_of(#[trigger] docs[i]) is Some {
        Some(Seq::new(docs.len(), |i: int| rxpk_of(docs[i])->Some_0))
    } else {
        None
    }
}

/// Whether a document can be the body of an uplink datagram: an object
/// whose `rxpk`, where present, is an array of radio frame records and
/// whose `stat`, where present, is a health snapshot.
pub open spec fn push_data_fits(doc: Json) -> bool {
    &&& doc is Object
    &&& match member_present(doc, "rxpk"@) {
        Some(Json::Array(docs)) => rxpks_of(docs) is Some,
        Some(_) => false,
        None => true,
    }
    &&& match member_present(doc, "stat"@) {
        Some(member) => stat_of(member) is Some,
        None => true,
    }
}

/// The uplink body that a document stands for, if it stands for one.
pub open spec fn push_data_of(doc: Json) -> Option<PushDataModel> {
    if push_data_fits(doc) {
        Some(
            PushDataModel {
                rxpk: match member_present(doc, "rxpk"@) {
                    Some(Json::Array(docs)) => rxpks_of(docs),
                    _ => None,
                },
                stat: match member_present(doc, "stat"@) {
                    Some(member) => stat_of(member),
                    None => None,
                },
            },
        )
    } else {
        None
    }
}

/// The JSON document in the bytes of a body, or why there is none, with
/// the message of the parser that refused them.
pub open spec fn body_doc(body: Seq<u8>) -> Result<Json, ErrorModel> {
    if !valid_utf8(body) {
        Err(ErrorModel::MalformedPayload(PayloadFault::InvalidUtf8, utf8_error_text(body)))
    } else {
        match json_parsed(decode_utf8(body)) {
            Some(doc) => Ok(doc),
            None => Err(
                ErrorModel::MalformedPayload(
                    PayloadFault::InvalidJson,
                    json_error_text(decode_utf8(body)),
                ),
            ),
        }
    }
}

/// The uplink body in the bytes of a body, or why there is none.
pub open spec fn push_data_body(body: Seq<u8>) -> Result<PushDataModel, ErrorModel> {
    match body_doc(body) {
        Ok(doc) => match push_data_of(doc) {
            Some(data) => Ok(data),
            None => Err(shape_error()),
        },
        Err(e) => Err(e),
    }
}

/// Reads the member under `key` as an unsigned whole number.
pub fn read_u64(value: &serde_json::Value, key: &str) -> (r: Option<u64>)
    ensures
        r == member_u64(json_model(*value), key@),
{
    match value_get(value, key) {
        Some(member) => value_as_u64(member),
        None => None,
    }
}

/// Reads the member under `key` as a signed whole number.
pub fn read_i64(value: &serde_json::Value, key: &str) -> (r: Option<i64>)
    ensures
        r == member_i64(json_model(*value), key@),
{
    match value_get(value, key) {
        Some(member) => value_as_i64(member),
        None => None,
    }
}

/// Reads the member under `key` as a number of any kind.
pub fn read_number(value: &serde_json::Value, key: &str) -> (r: Option<serde_json::Number>)
    ensures
        match r {
            Some(number) => member_number(json_model(*value), key@) == Some(number_model(number)),
            None => member_number(json_model(*value), key@) is None,
        },
{
    match value_get(value, key) {
        Some(member) => match value_as_number(member) {
            Some(number) => Some(number.clone()),
            None => None,
        },
        None => None,
    }
}

/// Reads the member under `key` as a string.
pub fn read_text(value: &serde_json::Value, key: &str) -> (r: Option<String>)
    ensures
        match r {
            Some(text) => member_text(json_model(*value), key@) == Some(text@),
            None => member_text(json_model(*value), key@) is None,
        },
{
    match value_get(value, key) {
        Some(member) => match value_as_str(member) {
            Some(text) => Some(text.to_owned()),
            None => None,
        },
        None => None,
    }
}

/// Reads the member under `key` as a string of standard base64 and decodes it.
pub fn read_bytes(value: &serde_json::Value, key: &str) -> (r: Option<Vec<u8>>)
    ensures
        match r {
            Some(bytes) => member_bytes(json_model(*value), key@) == Some(bytes@),
            None => member_bytes(json_model(*value), key@) is None,
        },
{
    match value_get(value, key) {
        Some(member) => match value_as_str(member) {
            Some(text) => match base64_decode(text) {
                Ok(bytes) => Some(bytes),
                Err(_) => None,
            },
            None => None,
        },
        None => None,
    }
}

/// Reads the member under `key`, taking a missing member and `null` for absent.
pub fn read_present<'a>(value: &'a serde_json::Value, key: &str) -> (r: Option<
    &'a serde_json::Value,
>)
    ensures
        match r {
            Some(member) => member_present(json_model(*value), key@) == Some(json_model(*member)),
            None => member_present(json_model(*value), key@) is None,
        },
{
    match value_get(value, key) {
        Some(member) => if value_is_null(member) {
            None
        } else {
            Some(member)
        },
        None => None,
    }
}

impl RxPk {
    /// Reads a radio frame record from a JSON document: every field must
    /// be there with its type, other members are ignored.
    pub fn from_json(value: &serde_json::Value) -> (r: Option<RxPk>)
        ensures
            match r {
                Some(rxpk) => rxpk_of(json_model(*value)) == Some(rxpk@),
                None => rxpk_of(json_model(*value)) is None,
            },
    {
        let chan = match read_u64(value, "chan") { Some(x) => x, None => { return None; } };
        let codr = match read_text(value, "codr") { Some(x) => x, None => { return None; } };
        let data = match read_bytes(value, "data") { Some(x) => x, None => { return None; } };
        let datr = match read_text(value, "datr") { Some(x) => x, None => { return None; } };
        let freq = match read_number(value, "freq") { Some(x) => x, None => { return None; } };
        let lsnr = match read_number(value, "lsnr") { Some(x) => x, None => { return None; } };
        let modu = match read_text(value, "modu") { Some(x) => x, None => { return None; } };
        let rfch = match read_u64(value, "rfch") { Some(x) => x, None => { return None; } };
        let rssi = match read_i64(value, "rssi") { Some(x) => x, None => { return None; } };
        let size = match read_u64(value, "size") { Some(x) => x, None => { return None; } };
        let stat = match read_i64(value, "stat") { Some(x) => x, None => { return None; } };
        let tmst = match read_u64(value, "tmst") { Some(x) => x, None => { return None; } };
        Some(RxPk { chan, codr, data, datr, freq, lsnr, modu, rfch, rssi, size, stat, tmst })
    }
}

impl Stat {
    /// Reads a health snapshot from a JSON document: every field must be
    /// there with its type, other members are ignored.
    pub fn from_json(value: &serde_json::Value) -> (r: Option<Stat>)
        ensures
            match r {
                Some(stat) => stat_of(json_model(*value)) == Some(stat@),
                None => stat_of(json_model(*value)) is None,
            },
    {
        let ackr = match read_number(value, "ackr") { Some(x) => x, None => { return None; } };
        let dwnb = match read_u64(value, "dwnb") { Some(x) => x, None => { return None; } };
        let rxfw = match read_u64(value, "rxfw") { Some(x) => x, None => { return None; } };
        let rxnb = match read_u64(value, "rxnb") { Some(x) => x, None => { return None; } };
        let rxok = match read_u64(value, "rxok") { Some(x) => x, None => { return None; } };
        let time = match read_text(value, "time") { Some(x) => x, None => { return None; } };
        let txnb = match read_u64(value, "txnb") { Some(x) => x, None => { return None; } };
        Some(Stat { ackr, dwnb, rxfw, rxnb, rxok, time, txnb })
    }
}

/// Reads a list of radio frame records; one document that is no record
/// spoils the whole list.
pub fn read_rxpks(values: &Vec<serde_json::Value>) -> (r: Option<Vec<RxPk>>)
    ensures
        match r {
            Some(items) => rxpks_of(json_models(values@)) == Some(rxpk_models(items@)),
            None => rxpks_of(json_models(values@)) is None,
        },
{
    let ghost docs = json_models(values@);
    let mut items: Vec<RxPk> = Vec::new();
    let mut i: usize = 0;
    while i < values.len()
        invariant
            docs == json_models(values@),
            0 <= i <= values.len(),
            items@.len() == i,
            forall|k: int| 0 <= k < i ==> rxpk_of(#[trigger] docs[k]) == Some(items@[k]@),
        decreases values.len() - i,
    {
        match RxPk::from_json(&values[i]) {
            Some(rxpk) => {
                items.push(rxpk);
            },
            None => {
                assert(rxpk_of(docs[i as int]) is None);
                return None;
            },
        }
        i = i + 1;
    }
    assert(rxpks_of(docs)->Some_0 =~= rxpk_models(items@));
    Some(items)
}

impl PushData {
    /// Reads an uplink body from a JSON document.
    pub fn from_json(value: &serde_json::Value) -> (r: Option<PushData>)
        ensures
            match r {
                Some(data) => push_data_of(json_model(*value)) == Some(data@),
                None => push_data_of(json_model(*value)) is None,
            },
    {
        let rxpk = match read_present(value, "rxpk") {
            Some(member) => match value_as_array(member) {
                Some(values) => match read_rxpks(values) {
                    Some(items) => Some(items),
                    None => { return None; },
                },
                None => { return None; },
            },
            None => None,
        };
        let stat = match read_present(value, "stat") {
            Some(member) => match Stat::from_json(member) {
                Some(stat) => Some(stat),
                None => { return None; },
            },
            None => None,
        };
        if !value_is_object(value) {
            return None;
        }
        Some(PushData { rxpk, stat })
    }
}

/// Reads the JSON document in the bytes of a body.
pub fn parse_body(body: &[u8]) -> (r: Result<serde_json::Value, Error>)
    ensures
        match r {
            Ok(value) => body_doc(body@) == Ok::<Json, ErrorModel>(json_model(value)),
            Err(e) => body_doc(body@) == Err::<Json, ErrorModel>(e@),
        },
{
    match utf8_text(body) {
        Ok(text) => match json_from_str(text) {
            Ok(value) => Ok(value),
            Err(detail) => Err(Error::MalformedPayload { fault: PayloadFault::InvalidJson, detail }),
        },
        Err(detail) => Err(Error::MalformedPayload { fault: PayloadFault::InvalidUtf8, detail }),
    }
}

/// Decodes the body of an uplink datagram: UTF-8, then JSON, then the
/// shape of the record, and the first of these that fails is reported.
pub fn decode_push_data(body: &[u8]) -> (r: Result<PushData, Error>)
    ensures
        match r {
            Ok(data) => push_data_body(body@) == Ok::<PushDataModel, ErrorModel>(data@),
            Err(e) => push_data_body(body@) == Err::<PushDataModel, ErrorModel>(e@),
        },
{
    match parse_body(body) {
        Ok(value) => match PushData::from_json(&value) {
            Some(data) => Ok(data),
            None => Err(Error::shape()),
        },
        Err(e) => Err(e),
    }
}

/// The document an unsigned whole number becomes.
pub open spec fn json_of_u64(n: u64) -> Json {
    Json::Number(JsonNumber::PosInt(n))
}

/// The document a byte string becomes: a string of standard base64.
pub open spec fn json_of_bytes(bytes: Seq<u8>) -> Json {
    Json::Text(base64_encoded(bytes))
}

/// The document a radio frame record becomes: an object with the twelve fields.
pub open spec fn rxpk_json(rxpk: RxPkModel) -> Json {
    Json::Object(
        no_fields()
            .insert("chan"@, json_of_u64(rxpk.chan))
            .insert("codr"@, Json::Text(rxpk.codr))
            .insert("data"@, json_of_bytes(rxpk.data))
            .insert("datr"@, Json::Text(rxpk.datr))
            .insert("freq"@, Json::Number(rxpk.freq))
            .insert("lsnr"@, Json::Number(rxpk.lsnr))
            .insert("modu"@, Json::Text(rxpk.modu))
            .insert("rfch"@, json_of_u64(rxpk.rfch))
            .insert("rssi"@, json_of_i64(rxpk.rssi))
            .insert("size"@, json_of_u64(rxpk.size))
            .insert("stat"@, json_of_i64(rxpk.stat))
            .insert("tmst"@, json_of_u64(rxpk.tmst)),
    )
}

/// The document a health snapshot becomes: an object with the seven fields.
pub open spec fn stat_json(stat: StatModel) -> Json {
    Json::Object(
        no_fields()
            .insert("ackr"@, Json::Number(stat.ackr))
            .insert("dwnb"@, json_of_u64(stat.dwnb))
            .insert("rxfw"@, json_of_u64(stat.rxfw))
            .insert("rxnb"@, json_of_u64(stat.rxnb))
            .insert("rxok"@, json_of_u64(stat.rxok))
            .insert("time"@, Json::Text(stat.time))
            .insert("txnb"@, json_of_u64(stat.txnb)),
    )
}

/// The documents a list of radio frame records becomes, in order.
pub open spec fn rxpk_docs(items: Seq<RxPkModel>) -> Seq<Json> {
    Seq::new(items.len(), |i: int| rxpk_json(items[i]))
}

/// The members of the document an uplink body becomes: `rxpk` and `stat`,
/// each only where the body has it.
pub open spec fn push_data_fields(data: PushDataModel) -> Map<Seq<char>, Json> {
    let with_rxpk = match data.rxpk {
        Some(items) => no_fields().insert("rxpk"@, Json::Array(rxpk_docs(items))),
        None => no_fields(),
    };
    match data.stat {
        Some(stat) => with_rxpk.insert("stat"@, stat_json(stat)),
        None => with_rxpk,
    }
}

/// The document an uplink body becomes.
pub open spec fn push_data_json(data: PushDataModel) -> Json {
    Json::Object(push_data_fields(data))
}

/// The bytes of a body that holds a document: its compact text in UTF-8.
pub open spec fn body_bytes(doc: Json) -> Seq<u8> {
    encode_utf8(json_text(doc))
}

/// Puts a member under a key of an object in the making.
pub fn put(fields: &mut JsonMap, key: &str, member: serde_json::Value)
    ensures
        json_fields(*final(fields)) == json_fields(*old(fields)).insert(key@, json_model(member)),
{
    json_map_insert(fields, key.to_owned(), member);
}

/// The JSON string that holds a byte string as standard base64.
pub fn bytes_to_json(bytes: &Vec<u8>) -> (r: serde_json::Value)
    ensures
        json_model(r) == json_of_bytes(bytes@),
        base64_faithful(bytes@),
{
    json_from_text(base64_encode(bytes.as_slice()))
}

impl RxPk {
    /// Writes the record as a JSON object, from which the record reads back.
    pub fn to_json(&self) -> (r: serde_json::Value)
        ensures
            json_model(r) == rxpk_json(self@),
            base64_faithful(self@.data),
            rxpk_of(json_model(r)) == Some(self@),
    {
        proof {
            lemma_rxpk_round_trip(self@);
        }
        let mut fields = json_map_new();
        put(&mut fields, "chan", json_from_u64(self.chan));
        put(&mut fields, "codr", json_from_text(self.codr.clone()));
        put(&mut fields, "data", bytes_to_json(&self.data));
        put(&mut fields, "datr", json_from_text(self.datr.clone()));
        put(&mut fields, "freq", json_from_number(self.freq.clone()));
        put(&mut fields, "lsnr", json_from_number(self.lsnr.clone()));
        put(&mut fields, "modu", json_from_text(self.modu.clone()));
        put(&mut fields, "rfch", json_from_u64(self.rfch));
        put(&mut fields, "rssi", json_from_i64(self.rssi));
        put(&mut fields, "size", json_from_u64(self.size));
        put(&mut fields, "stat", json_from_i64(self.stat));
        put(&mut fields, "tmst", json_from_u64(self.tmst));
        json_from_map(fields)
    }
}

impl Stat {
    /// Writes the snapshot as a JSON object, from which the snapshot reads back.
    pub fn to_json(&self) -> (r: serde_json::Value)
        ensures
            json_model(r) == stat_json(self@),
            stat_of(json_model(r)) == Some(self@),
    {
        proof {
            lemma_stat_round_trip(self@);
        }
        let mut fields = json_map_new();
        put(&mut fields, "ackr", json_from_number(self.ackr.clone()));
        put(&mut fields, "dwnb", json_from_u64(self.dwnb));
        put(&mut fields, "rxfw", json_from_u64(self.rxfw));
        put(&mut fields, "rxnb", json_from_u64(self.rxnb));
        put(&mut fields, "rxok", json_from_u64(self.rxok));
        put(&mut fields, "time", json_from_text(self.time.clone()));
        put(&mut fields, "txnb", json_from_u64(self.txnb));
        json_from_map(fields)
    }
}

/// Writes a list of radio frame records as a JSON array, in order.
pub fn write_rxpks(items: &Vec<RxPk>) -> (r: serde_json::Value)
    ensures
        json_model(r) == Json::Array(rxpk_docs(rxpk_models(items@))),
        forall|k: int| 0 <= k < items@.len() ==> base64_faithful(#[trigger] items@[k]@.data),
{
    let mut values: Vec<serde_json::Value> = Vec::new();
    let mut i: usize = 0;
    while i < items.len()
        invariant
            0 <= i <= items.len(),
            values@.len() == i,
            forall|k: int| 0 <= k < i ==> json_model(#[trigger] values@[k]) == rxpk_json(items@[k]@),
            forall|k: int| 0 <= k < i ==> base64_faithful(#[trigger] items@[k]@.data),
        decreases items.len() - i,
    {
        values.push(items[i].to_json());
        i = i + 1;
    }
    assert(json_models(values@) =~= rxpk_docs(rxpk_models(items@)));
    json_from_items(values)
}

impl PushData {
    /// Writes the body as a JSON object, from which the body reads back; a
    /// part that is absent is left out.
    pub fn to_json(&self) -> (r: serde_json::Value)
        ensures
            json_model(r) == push_data_json(self@),
            frames_faithful(self@),
            push_data_of(json_model(r)) == Some(self@),
    {
        proof {
            lemma_push_data_round_trip(self@);
        }
        let mut fields = json_map_new();
        match &self.rxpk {
            Some(items) => {
                put(&mut fields, "rxpk", write_rxpks(items));
            },
            None => {},
        }
        match &self.stat {
            Some(stat) => {
                put(&mut fields, "stat", stat.to_json());
            },
            None => {},
        }
        json_from_map(fields)
    }
}

/// Writes a document as the bytes of a body.
pub fn encode_body(value: &serde_json::Value) -> (r: Vec<u8>)
    ensures
        r@ == body_bytes(json_model(*value)),
{
    let text = json_to_text(value);
    let mut out: Vec<u8> = Vec::new();
    append(&mut out, text.as_str().as_bytes());
    out
}

/// Whether a byte string, written as base64, reads back as itself.
pub open spec fn base64_faithful(bytes: Seq<u8>) -> bool {
    base64_decoded(base64_encoded(bytes)) == Some(bytes)
}

/// Whether a document, printed as text, parses back as itself.
pub open spec fn json_faithful(doc: Json) -> bool {
    json_parsed(json_text(doc)) == Some(doc)
}

/// Whether every frame of an uplink body reads back from base64.
pub open spec fn frames_faithful(data: PushDataModel) -> bool {
    data.rxpk is Some ==> forall|i: int|
        0 <= i < data.rxpk->Some_0.len() ==> base64_faithful(#[trigger] data.rxpk->Some_0[i].data)
}

/// The first four characters of a name.
spec fn first_four(name: Seq<char>) -> (char, char, char, char) {
    (name[0], name[1], name[2], name[3])
}

/// The field names of a radio frame record are twelve different names.
proof fn lemma_rxpk_keys()
    ensures
        "chan"@ != "codr"@,
        "chan"@ != "data"@,
        "chan"@ != "datr"@,
        "chan"@ != "freq"@,
        "chan"@ != "lsnr"@,
        "chan"@ != "modu"@,
        "chan"@ != "rfch"@,
        "chan"@ != "rssi"@,
        "chan"@ != "size"@,
        "chan"@ != "stat"@,
        "chan"@ != "tmst"@,
        "codr"@ != "data"@,
        "codr"@ != "datr"@,
        "codr"@ != "freq"@,
        "codr"@ != "lsnr"@,
        "codr"@ != "modu"@,
        "codr"@ != "rfch"@,
        "codr"@ != "rssi"@,
        "codr"@ != "size"@,
        "codr"@ != "stat"@,
        "codr"@ != "tmst"@,
        "data"@ != "datr"@,
        "data"@ != "freq"@,
        "data"@ != "lsnr"@,
        "data"@ != "modu"@,
        "data"@ != "rfch"@,
        "data"@ != "rssi"@,
        "data"@ != "size"@,
        "data"@ != "stat"@,
        "data"@ != "tmst"@,
        "datr"@ != "freq"@,
        "datr"@ != "lsnr"@,
        "datr"@ != "modu"@,
        "datr"@ != "rfch"@,
        "datr"@ != "rssi"@,
        "datr"@ != "size"@,
        "datr"@ != "stat"@,
        "datr"@ != "tmst"@,
        "freq"@ != "lsnr"@,
        "freq"@ != "modu"@,
        "freq"@ != "rfch"@,
        "freq"@ != "rssi"@,
        "freq"@ != "size"@,
        "freq"@ != "stat"@,
        "freq"@ != "tmst"@,
        "lsnr"@ != "modu"@,
        "lsnr"@ != "rfch"@,
        "lsnr"@ != "rssi"@,
        "lsnr"@ != "size"@,
        "lsnr"@ != "stat"@,
        "lsnr"@ != "tmst"@,
        "modu"@ != "rfch"@,
        "modu"@ != "rssi"@,
        "modu"@ != "size"@,
        "modu"@ != "stat"@,
        "modu"@ != "tmst"@,
        "rfch"@ != "rssi"@,
        "rfch"@ != "size"@,
        "rfch"@ != "stat"@,
        "rfch"@ != "tmst"@,
        "rssi"@ != "size"@,
        "rssi"@ != "stat"@,
        "rssi"@ != "tmst"@,
        "size"@ != "stat"@,
        "size"@ != "tmst"@,
        "stat"@ != "tmst"@,
{
    reveal_strlit("chan");
    assert(first_four("chan"@) == ('c', 'h', 'a', 'n'));
    reveal_strlit("codr");
    assert(first_four("codr"@) == ('c', 'o', 'd', 'r'));
    reveal_strlit("data");
    assert(first_four("data"@) == ('d', 'a', 't', 'a'));
    reveal_strlit("datr");
    assert(first_four("datr"@) == ('d', 'a', 't', 'r'));
    reveal_strlit("freq");
    assert(first_four("freq"@) == ('f', 'r', 'e', 'q'));
    reveal_strlit("lsnr");
    assert(first_four("lsnr"@) == ('l', 's', 'n', 'r'));
    reveal_strlit("modu");
    assert(first_four("modu"@) == ('m', 'o', 'd', 'u'));
    reveal_strlit("rfch");
    assert(first_four("rfch"@) == ('r', 'f', 'c', 'h'));
    reveal_strlit("rssi");
    assert(first_four("rssi"@) == ('r', 's', 's', 'i'));
    reveal_strlit("size");
    assert(first_four("size"@) == ('s', 'i', 'z', 'e'));
    reveal_strlit("stat");
    assert(first_four("stat"@) == ('s', 't', 'a', 't'));
    reveal_strlit("tmst");
    assert(first_four("tmst"@) == ('t', 'm', 's', 't'));
}

/// The field names of a health snapshot are seven different names.
proof fn lemma_stat_keys()
    ensures
        "ackr"@ != "dwnb"@,
        "ackr"@ != "rxfw"@,
        "ackr"@ != "rxnb"@,
        "ackr"@ != "rxok"@,
        "ackr"@ != "time"@,
        "ackr"@ != "txnb"@,
        "dwnb"@ != "rxfw"@,
        "dwnb"@ != "rxnb"@,
        "dwnb"@ != "rxok"@,
        "dwnb"@ != "time"@,
        "dwnb"@ != "txnb"@,
        "rxfw"@ != "rxnb"@,
        "rxfw"@ != "rxok"@,
        "rxfw"@ != "time"@,
        "rxfw"@ != "txnb"@,
        "rxnb"@ != "rxok"@,
        "rxnb"@ != "time"@,
        "rxnb"@ != "txnb"@,
        "rxok"@ != "time"@,
        "rxok"@ != "txnb"@,
        "time"@ != "txnb"@,
{
    reveal_strlit("ackr");
    assert(first_four("ackr"@) == ('a', 'c', 'k', 'r'));
    reveal_strlit("dwnb");
    assert(first_four("dwnb"@) == ('d', 'w', 'n', 'b'));
    reveal_strlit("rxfw");
    assert(first_four("rxfw"@) == ('r', 'x', 'f', 'w'));
    reveal_strlit("rxnb");
    assert(first_four("rxnb"@) == ('r', 'x', 'n', 'b'));
    reveal_strlit("rxok");
    assert(first_four("rxok"@) == ('r', 'x', 'o', 'k'));
    reveal_strlit("time");
    assert(first_four("time"@) == ('t', 'i', 'm', 'e'));
    reveal_strlit("txnb");
    assert(first_four("txnb"@) == ('t', 'x', 'n', 'b'));
}

/// Reading undoes writing for a radio frame record whose frame reads
/// back from base64.
pub proof fn lemma_rxpk_round_trip(rxpk: RxPkModel)
    ensures
        base64_faithful(rxpk.data) ==> rxpk_of(rxpk_json(rxpk)) == Some(rxpk),
{
    lemma_rxpk_keys();
}

/// Reading undoes writing for a health snapshot.
pub proof fn lemma_stat_round_trip(stat: StatModel)
    ensures
        stat_of(stat_json(stat)) == Some(stat),
{
    lemma_stat_keys();
}

/// Reading undoes writing for an uplink body whose frames read back
/// from base64: with both parts, with one, with none, with an empty list.
pub proof fn lemma_push_data_round_trip(data: PushDataModel)
    ensures
        frames_faithful(data) ==> push_data_of(push_data_json(data)) == Some(data),
{
    reveal_strlit("rxpk");
    assert(first_four("rxpk"@) == ('r', 'x', 'p', 'k'));
    reveal_strlit("stat");
    assert(first_four("stat"@) == ('s', 't', 'a', 't'));
    assert("rxpk"@ != "stat"@);
    if frames_faithful(data) {
        let doc = push_data_json(data);
        match data.rxpk {
            Some(items) => {
                let docs = rxpk_docs(items);
                assert forall|i: int| 0 <= i < docs.len() implies rxpk_of(#[trigger] docs[i])
                    == Some(items[i]) by {
                    lemma_rxpk_round_trip(items[i]);
                }
                assert(rxpks_of(docs)->Some_0 =~= items);
                assert(member_present(doc, "rxpk"@) == Some(Json::Array(docs)));
            },
            None => {
                assert(member_present(doc, "rxpk"@) is None);
            },
        }
        match data.stat {
            Some(stat) => {
                lemma_stat_round_trip(stat);
                assert(member_present(doc, "stat"@) == Some(stat_json(stat)));
            },
            None => {
                assert(member_present(doc, "stat"@) is None);
            },
        }
    }
}

/// Decoding undoes encoding for the body of an uplink datagram, as far
/// as the outside text forms do: where the document parses back from its
/// text and the frames read back from base64, the body's bytes decode to
/// the body.
pub proof fn lemma_push_data_body_round_trip(data: PushDataModel)
    ensures
        json_faithful(push_data_json(data)) && frames_faithful(data) ==> push_data_body(
            body_bytes(push_data_json(data)),
        ) == Ok::<PushDataModel, ErrorModel>(data),
{
    broadcast use vstd::utf8::encode_utf8_valid_utf8, vstd::utf8::encode_utf8_decode_utf8;

    lemma_push_data_round_trip(data);
}

} // verus!
