use semtech_udp::header::{decode_header, encode_header, Header};
use semtech_udp::packet::push_data_sig;
use semtech_udp::payload::{PushData, RxPk, Stat};
use semtech_udp::{
    gateway_mac, random_token, Error, ErrorKind, Identifier, MacAddress, Packet, PacketData,
    PayloadFault,
};

const MAC: [u8; 6] = [0xAA, 0x55, 0x5A, 0x00, 0x00, 0x00];

const UPLINK: &str = "{\"rxpk\":[{\"tmst\":859913248,\"chan\":8,\"rfch\":0,\"freq\":912.600000,\"stat\":1,\"modu\":\"LORA\",\"datr\":\"SF8BW500\",\"codr\":\"4/5\",\"lsnr\":10.0,\"rssi\":-58,\"size\":23,\"data\":\"ALQAAAABAAAASGVsaXVtICAJqs/x7jM=\"}]}";

const SNAPSHOT: &str = "{\"stat\":{\"time\":\"2020-03-04 05:39:32 GMT\",\"rxnb\":5,\"rxok\":5,\"rxfw\":5,\"ackr\":0.0,\"dwnb\":0,\"txnb\":0}}";

fn datagram(prefix: &[u8], body: &str) -> Vec<u8> {
    let mut bytes = prefix.to_vec();
    bytes.extend_from_slice(body.as_bytes());
    bytes
}

fn kind<T>(result: Result<T, Error>) -> Result<T, ErrorKind> {
    result.map_err(|e| e.kind())
}

fn parse_all(bytes: &[u8]) -> Result<Packet, ErrorKind> {
    kind(Packet::parse(bytes, bytes.len()))
}

fn decode_push_data(body: &[u8]) -> Result<PushData, ErrorKind> {
    kind(semtech_udp::payload::decode_push_data(body))
}

fn decode_data(body: &[u8]) -> Result<push_data_sig::Data, ErrorKind> {
    kind(push_data_sig::decode_data(body))
}

fn number(x: f64) -> serde_json::Number {
    serde_json::Number::from_f64(x).unwrap()
}

fn frame(rssi: i64, freq: f64, data: Vec<u8>) -> RxPk {
    RxPk {
        chan: 3,
        codr: String::from("4/5"),
        data,
        datr: String::from("SF10BW125"),
        freq: number(freq),
        lsnr: number(-3.2),
        modu: String::from("LORA"),
        rfch: 1,
        rssi,
        size: 23,
        stat: 1,
        tmst: 876651540,
    }
}

fn round_trip(packet: &Packet) -> Packet {
    assert!(packet.is_consistent());
    let mut buffer = [0u8; 1024];
    let n = packet.serialize(&mut buffer).unwrap() as usize;
    Packet::parse(&buffer, n).unwrap()
}

#[test]
fn token_is_big_endian() {
    assert_eq!(random_token(&[2, 0x25, 0xCF, 2]), 9679);
    assert_eq!(random_token(&[2, 0xE9, 0xE5, 0]), 59877);
    assert_eq!(random_token(&[2, 0x00, 0x01, 0]), 1);
    assert_eq!(random_token(&[2, 0x01, 0x00, 0]), 256);
}

#[test]
fn mac_is_the_six_bytes_after_the_fixed_header() {
    let bytes = [2, 0x25, 0xCF, 2, 0xAA, 0x55, 0x5A, 0, 0, 0, 7, 9];
    let mac = gateway_mac(&bytes);
    assert_eq!(mac.as_bytes(), &MAC);
    assert_eq!(mac, MacAddress::new(&MAC));
}

#[test]
fn pull_data_scenario() {
    let bytes = [0x02, 0x25, 0xCF, 0x02, 0xAA, 0x55, 0x5A, 0, 0, 0, 0, 0];
    let packet = parse_all(&bytes).unwrap();
    assert_eq!(packet.random_token, 9679);
    assert_eq!(packet.gateway_mac, Some(MacAddress::new(&MAC)));
    assert_eq!(packet.data, PacketData::PullData);
}

#[test]
fn push_data_scenario() {
    let bytes = datagram(&[0x02, 0xE9, 0xE5, 0x00, 0xAA, 0x55, 0x5A, 0, 0, 0], UPLINK);
    let packet = parse_all(&bytes).unwrap();
    assert_eq!(packet.random_token, 59877);
    assert_eq!(packet.gateway_mac, Some(MacAddress::new(&MAC)));
    let data = match packet.data {
        PacketData::PushData(data) => data,
        other => panic!("{:?}", other),
    };
    assert!(data.stat.is_none());
    let frames = data.rxpk.unwrap();
    assert_eq!(frames.len(), 1);
    let rx = &frames[0];
    assert_eq!(rx.rssi, -58);
    assert_eq!(rx.tmst, 859913248);
    assert_eq!(rx.chan, 8);
    assert_eq!(rx.rfch, 0);
    assert_eq!(rx.stat, 1);
    assert_eq!(rx.size, 23);
    assert_eq!(rx.modu, "LORA");
    assert_eq!(rx.datr, "SF8BW500");
    assert_eq!(rx.codr, "4/5");
    assert_eq!(rx.freq.as_f64(), Some(912.6));
    assert_eq!(rx.lsnr.as_f64(), Some(10.0));
    assert_eq!(rx.data.len(), 23);
    assert_eq!(&rx.data[..3], &[0x00, 0xB4, 0x00]);
}

#[test]
fn buffer_beyond_the_datagram_is_not_read() {
    let mut buffer = [0u8; 1024];
    let bytes = datagram(&[0x02, 0xE9, 0xE5, 0x00, 0xAA, 0x55, 0x5A, 0, 0, 0], UPLINK);
    buffer[..bytes.len()].copy_from_slice(&bytes);
    let packet = Packet::parse(&buffer, bytes.len()).unwrap();
    assert_eq!(packet.random_token, 59877);
    assert!(matches!(packet.data, PacketData::PushData(_)));
}

#[test]
fn snapshot_scenario() {
    let bytes = datagram(&[0x02, 0xE8, 0xD4, 0x00, 0xAA, 0x55, 0x5A, 0, 0, 0], SNAPSHOT);
    let packet = parse_all(&bytes).unwrap();
    assert_eq!(packet.random_token, 59604);
    let data = match packet.data {
        PacketData::PushData(data) => data,
        other => panic!("{:?}", other),
    };
    assert!(data.rxpk.is_none());
    let stat = data.stat.unwrap();
    assert_eq!(stat.time, "2020-03-04 05:39:32 GMT");
    assert_eq!((stat.rxnb, stat.rxok, stat.rxfw, stat.dwnb, stat.txnb), (5, 5, 5, 0, 0));
    assert_eq!(stat.ackr.as_f64(), Some(0.0));
}

#[test]
fn truncated_json_is_malformed() {
    let bytes = datagram(
        &[0x02, 0xE9, 0xE5, 0x00, 0xAA, 0x55, 0x5A, 0, 0, 0],
        "{\"rxpk\":[{\"chan\":8",
    );
    assert_eq!(parse_all(&bytes), Err(ErrorKind::MalformedPayload(PayloadFault::InvalidJson)));
}

#[test]
fn body_that_is_not_utf8_is_malformed() {
    let mut bytes = vec![0x02, 0xE9, 0xE5, 0x00, 0xAA, 0x55, 0x5A, 0, 0, 0];
    bytes.extend_from_slice(&[0x7B, 0xFF, 0xFE, 0x7D]);
    assert_eq!(parse_all(&bytes), Err(ErrorKind::MalformedPayload(PayloadFault::InvalidUtf8)));
    assert_eq!(
        decode_push_data(&[0xC3]),
        Err(ErrorKind::MalformedPayload(PayloadFault::InvalidUtf8))
    );
}

#[test]
fn empty_body_is_malformed() {
    let bytes = [0x02, 0xE9, 0xE5, 0x00, 0xAA, 0x55, 0x5A, 0, 0, 0];
    assert_eq!(parse_all(&bytes), Err(ErrorKind::MalformedPayload(PayloadFault::InvalidJson)));
    // a complete header with one byte of a body behind it
    let bytes = [0x02, 0x00, 0x00, 0x00, 0xAA, 0x55, 0x5A, 0, 0, 0, 0x7B];
    assert_eq!(parse_all(&bytes), Err(ErrorKind::MalformedPayload(PayloadFault::InvalidJson)));
}

#[test]
fn body_starts_right_after_the_address() {
    let bytes = datagram(&[0x02, 0xE9, 0xE5, 0x00, 0xAA, 0x55, 0x5A, 0, 0, 0], "{}");
    let packet = parse_all(&bytes).unwrap();
    assert_eq!(packet.random_token, 59877);
    assert_eq!(packet.gateway_mac, Some(MacAddress::new(&MAC)));
    assert_eq!(packet.data, PacketData::PushData(PushData { rxpk: None, stat: None }));
    // bytes between the address and the text belong to the body, and spoil it
    let bytes = datagram(&[0x02, 0xE9, 0xE5, 0x00, 0xAA, 0x55, 0x5A, 0, 0, 0, 0, 0], UPLINK);
    assert_eq!(parse_all(&bytes), Err(ErrorKind::MalformedPayload(PayloadFault::InvalidJson)));
}

#[test]
fn wrong_shapes_are_malformed() {
    let shape = Err(ErrorKind::MalformedPayload(PayloadFault::InvalidShape));
    // not an object
    assert_eq!(decode_push_data(b"[]"), shape);
    assert_eq!(decode_push_data(b"7"), shape);
    // rxpk that is no array
    assert_eq!(decode_push_data(b"{\"rxpk\":{}}"), shape);
    // a record that lacks every field
    assert_eq!(decode_push_data(b"{\"rxpk\":[{}]}"), shape);
    // a record that lacks one field (tmst)
    let lacking = UPLINK.replace("\"tmst\":859913248,", "");
    assert_eq!(decode_push_data(lacking.as_bytes()), shape);
    // a field of the wrong JSON type
    let mistyped = UPLINK.replace("\"chan\":8", "\"chan\":\"8\"");
    assert_eq!(decode_push_data(mistyped.as_bytes()), shape);
    // an unsigned field given a negative number, and one given a fraction
    let negative = UPLINK.replace("\"chan\":8", "\"chan\":-8");
    assert_eq!(decode_push_data(negative.as_bytes()), shape);
    let fraction = UPLINK.replace("\"chan\":8", "\"chan\":8.5");
    assert_eq!(decode_push_data(fraction.as_bytes()), shape);
    // text where a number is due
    let text = UPLINK.replace("912.600000", "\"912.6\"");
    assert_eq!(decode_push_data(text.as_bytes()), shape);
    // data that is not standard base64: bad alphabet, missing padding
    let alphabet = UPLINK.replace("ALQAAAAB", "AL-AAAAB");
    assert_eq!(decode_push_data(alphabet.as_bytes()), shape);
    let padding = UPLINK.replace("x7jM=", "x7jM");
    assert_eq!(decode_push_data(padding.as_bytes()), shape);
    // a snapshot that lacks a field
    let snapshot = SNAPSHOT.replace(",\"txnb\":0", "");
    assert_eq!(decode_push_data(snapshot.as_bytes()), shape);
}

#[test]
fn absent_parts_and_unknown_members_are_accepted() {
    let empty = decode_push_data(b"{}").unwrap();
    assert_eq!(empty, PushData { rxpk: None, stat: None });
    let nulls = decode_push_data(b"{\"rxpk\":null,\"stat\":null}").unwrap();
    assert_eq!(nulls, PushData { rxpk: None, stat: None });
    let none = decode_push_data(b"{\"rxpk\":[]}").unwrap();
    assert_eq!(none, PushData { rxpk: Some(vec![]), stat: None });
    let extra = UPLINK.replace("\"chan\":8", "\"chan\":8,\"brd\":0,\"aesk\":[1,2]");
    let extra = extra.replace("{\"rxpk\"", "{\"later\":true,\"rxpk\"");
    let plain = decode_push_data(UPLINK.as_bytes()).unwrap();
    assert_eq!(decode_push_data(extra.as_bytes()).unwrap(), plain);
}

#[test]
fn whole_numbers_are_read_where_a_number_of_any_kind_is_due() {
    let whole = UPLINK.replace("912.600000", "912").replace("10.0", "-3");
    let data = decode_push_data(whole.as_bytes()).unwrap();
    let frames = data.rxpk.unwrap();
    assert_eq!(frames[0].freq.as_f64(), Some(912.0));
    assert_eq!(frames[0].lsnr.as_f64(), Some(-3.0));
}

#[test]
fn base64_data_decodes_and_encodes_back() {
    let text = "ALQAAAABAAAASGVsaXVtICAJqs/x7jM=";
    let data = decode_push_data(UPLINK.as_bytes()).unwrap();
    let frames = data.rxpk.unwrap();
    let expected: [u8; 23] = [
        0x00, 0xB4, 0x00, 0x00, 0x00, 0x01, 0x00, 0x00, 0x00, 0x48, 0x65, 0x6C, 0x69, 0x75, 0x6D,
        0x20, 0x20, 0x09, 0xAA, 0xCF, 0xF1, 0xEE, 0x33,
    ];
    assert_eq!(frames[0].data, expected.to_vec());
    let value = frames[0].to_json();
    assert_eq!(value.get("data").and_then(|v| v.as_str()), Some(text));
}

#[test]
fn version_is_judged_first() {
    for version in [0u8, 1, 4, 0xFF] {
        assert_eq!(parse_all(&[version]), Err(ErrorKind::UnsupportedVersion));
        assert_eq!(parse_all(&[version, 0, 0, 0x77]), Err(ErrorKind::UnsupportedVersion));
        let bytes = datagram(&[version, 0xE9, 0xE5, 0x00, 0xAA, 0x55, 0x5A, 0, 0, 0], UPLINK);
        assert_eq!(parse_all(&bytes), Err(ErrorKind::UnsupportedVersion));
    }
}

#[test]
fn unknown_identifier_is_refused() {
    for code in [5u8, 7, 0x10, 0xFF] {
        assert_eq!(parse_all(&[2, 0, 0, code, 1, 2, 3, 4, 5, 6, 0, 0]), Err(ErrorKind::UnknownIdentifier));
        assert_eq!(parse_all(&[3, 0, 0, code, 1, 2, 3, 4, 5, 6, 0, 0]), Err(ErrorKind::UnknownIdentifier));
    }
    // signed uplinks exist in version 3 only
    assert_eq!(parse_all(&[2, 0, 0, 6, 1, 2, 3, 4, 5, 6]), Err(ErrorKind::UnknownIdentifier));
    assert_eq!(Identifier::from_code(2, 6), Err(Error::UnknownIdentifier));
    assert_eq!(Identifier::from_code(3, 6), Ok(Identifier::PushDataSig));
}

#[test]
fn truncation_is_refused() {
    let pull = [0x02, 0x25, 0xCF, 0x02, 0xAA, 0x55, 0x5A, 0, 0, 0];
    assert!(parse_all(&pull).is_ok());
    for len in 0..pull.len() {
        assert_eq!(kind(Packet::parse(&pull, len)), Err(ErrorKind::TruncatedInput));
        assert_eq!(kind(decode_header(&pull[..len])), Err(ErrorKind::TruncatedInput));
    }
    let push = datagram(&[0x02, 0xE9, 0xE5, 0x00, 0xAA, 0x55, 0x5A, 0, 0, 0], UPLINK);
    assert!(parse_all(&push).is_ok());
    for len in 0..10 {
        assert_eq!(kind(Packet::parse(&push, len)), Err(ErrorKind::TruncatedInput));
    }
    let ack = [0x02, 0x25, 0xCF, 0x01];
    assert!(parse_all(&ack).is_ok());
    for len in 0..ack.len() {
        assert_eq!(kind(Packet::parse(&ack, len)), Err(ErrorKind::TruncatedInput));
    }
}

#[test]
fn identifier_codes() {
    let all = [
        (Identifier::PushData, 0u8),
        (Identifier::PushAck, 1),
        (Identifier::PullData, 2),
        (Identifier::PullResp, 3),
        (Identifier::PullAck, 4),
        (Identifier::PushDataSig, 6),
    ];
    for (identifier, code) in all {
        assert_eq!(identifier.code(), code);
        assert_eq!(Identifier::from_code(3, code), Ok(identifier));
        assert_eq!(
            identifier.carries_mac(),
            matches!(
                identifier,
                Identifier::PushData | Identifier::PullData | Identifier::PushDataSig
            )
        );
        assert_eq!(
            identifier.carries_body(),
            matches!(identifier, Identifier::PushData | Identifier::PushDataSig)
        );
    }
}

#[test]
fn header_round_trip() {
    let mac = MacAddress::new(&MAC);
    let bytes = encode_header(2, 0x25CF, Identifier::PullData, Some(&mac));
    assert_eq!(bytes, vec![2, 0x25, 0xCF, 2, 0xAA, 0x55, 0x5A, 0, 0, 0]);
    assert_eq!(
        decode_header(&bytes),
        Ok(Header { version: 2, token: 0x25CF, identifier: Identifier::PullData, mac: Some(mac) })
    );
    let bytes = encode_header(3, 0xFFFF, Identifier::PullAck, None);
    assert_eq!(bytes, vec![3, 0xFF, 0xFF, 4]);
    assert_eq!(
        decode_header(&bytes),
        Ok(Header { version: 3, token: 0xFFFF, identifier: Identifier::PullAck, mac: None })
    );
}

#[test]
fn packets_without_body_round_trip() {
    let mac = MacAddress::new(&[1, 2, 3, 4, 5, 6]);
    for token in [0u16, 1, 0x00FF, 0x0100, 0x25CF, 0xFFFF] {
        let pull = Packet::new(token, Some(mac), PacketData::PullData).unwrap();
        assert_eq!(round_trip(&pull), pull);
        for data in [PacketData::PushAck, PacketData::PullAck, PacketData::PullResp] {
            let packet = Packet::new(token, None, data).unwrap();
            assert_eq!(round_trip(&packet), packet);
        }
    }
    let mut buffer = [9u8; 16];
    let pull = Packet::new(0x25CF, Some(MacAddress::new(&MAC)), PacketData::PullData).unwrap();
    assert_eq!(pull.serialize(&mut buffer), Ok(10));
    assert_eq!(buffer, [2, 0x25, 0xCF, 2, 0xAA, 0x55, 0x5A, 0, 0, 0, 9, 9, 9, 9, 9, 9]);
    let ack = Packet::new(0xE9E5, None, PacketData::PushAck).unwrap();
    assert_eq!(ack.to_bytes(), vec![2, 0xE9, 0xE5, 1]);
}

#[test]
fn uplinks_round_trip() {
    let mac = MacAddress::new(&MAC);
    let bodies = [
        PushData { rxpk: None, stat: None },
        PushData { rxpk: Some(vec![]), stat: None },
        PushData {
            rxpk: Some(vec![
                frame(0, 912.6, vec![]),
                frame(i64::MIN, 868.299987, vec![0]),
                frame(i64::MAX, 0.000001, vec![0xFF; 255]),
                frame(-113, 911.9, vec![0, 1, 2, 3]),
            ]),
            stat: Some(Stat {
                ackr: number(0.5),
                dwnb: 0,
                rxfw: u64::MAX,
                rxnb: 5,
                rxok: 4,
                time: String::from("2020-03-04 05:39:32 GMT"),
                txnb: 1,
            }),
        },
    ];
    for body in bodies {
        let packet = Packet::new(59877, Some(mac), PacketData::PushData(body)).unwrap();
        let mut buffer = vec![0u8; 4096];
        let n = packet.serialize(&mut buffer).unwrap() as usize;
        assert_eq!(Packet::parse(&buffer, n), Ok(packet));
    }
}

#[test]
fn uplink_datagram_layout() {
    let packet = Packet::new(
        59877,
        Some(MacAddress::new(&MAC)),
        PacketData::PushData(PushData { rxpk: Some(vec![]), stat: None }),
    )
    .unwrap();
    let expected = datagram(&[2, 0xE9, 0xE5, 0, 0xAA, 0x55, 0x5A, 0, 0, 0], "{\"rxpk\":[]}");
    assert_eq!(packet.to_bytes(), expected);
    let frame = frame(-58, 912.5, vec![1, 2, 3]).to_json().to_string();
    assert_eq!(
        frame,
        "{\"chan\":3,\"codr\":\"4/5\",\"data\":\"AQID\",\"datr\":\"SF10BW125\",\"freq\":912.5,\"lsnr\":-3.2,\"modu\":\"LORA\",\"rfch\":1,\"rssi\":-58,\"size\":23,\"stat\":1,\"tmst\":876651540}"
    );
    let stat = Stat {
        ackr: number(1.0),
        dwnb: 2,
        rxfw: 3,
        rxnb: 4,
        rxok: 5,
        time: String::from("t"),
        txnb: 6,
    };
    assert_eq!(
        stat.to_json().to_string(),
        "{\"ackr\":1.0,\"dwnb\":2,\"rxfw\":3,\"rxnb\":4,\"rxok\":5,\"time\":\"t\",\"txnb\":6}"
    );
}

#[test]
fn signed_uplink_round_trip() {
    let mac = MacAddress::new(&MAC);
    let data = push_data_sig::Data { key: 7, sig: vec![1, 2, 3] };
    let signed = push_data_sig::Packet { random_token: 0x0102, gateway_mac: mac, data: data.clone() };
    let mut buffer = [0u8; 64];
    let n = signed.serialize(&mut buffer).unwrap() as usize;
    let expected = datagram(&[3, 1, 2, 6, 0xAA, 0x55, 0x5A, 0, 0, 0], "{\"key\":7,\"sig\":\"AQID\"}");
    assert_eq!(&buffer[..n], &expected[..]);
    let packet = Packet::parse(&buffer, n).unwrap();
    assert_eq!(packet.random_token, 0x0102);
    assert_eq!(packet.gateway_mac, Some(mac));
    assert_eq!(packet.data, PacketData::PushDataSig(data));
    assert_eq!(packet.to_bytes(), expected);
    let extreme = push_data_sig::Data { key: u32::MAX, sig: vec![] };
    let packet = Packet::new(0, Some(mac), PacketData::PushDataSig(extreme)).unwrap();
    assert_eq!(round_trip(&packet), packet);
}

#[test]
fn signed_uplink_shapes() {
    let shape = Err(ErrorKind::MalformedPayload(PayloadFault::InvalidShape));
    assert_eq!(decode_data(b"{\"key\":4294967296,\"sig\":\"\"}"), shape);
    assert_eq!(decode_data(b"{\"key\":1}"), shape);
    assert_eq!(decode_data(b"{\"sig\":\"AQID\"}"), shape);
    assert_eq!(decode_data(b"{\"key\":1,\"sig\":\"AQI\"}"), shape);
    assert_eq!(decode_data(b"{\"key\":-1,\"sig\":\"AQID\"}"), shape);
    assert_eq!(
        decode_data(b"{\"key\":1,\"sig\""),
        Err(ErrorKind::MalformedPayload(PayloadFault::InvalidJson))
    );
    assert_eq!(
        decode_data(b"{\"key\":4294967295,\"sig\":\"/+8=\",\"more\":1}"),
        Ok(push_data_sig::Data { key: u32::MAX, sig: vec![0xFF, 0xEF] })
    );
}

#[test]
fn small_buffer_is_refused_and_left_alone() {
    let pull = Packet::new(0x25CF, Some(MacAddress::new(&MAC)), PacketData::PullData).unwrap();
    let mut buffer = [9u8; 9];
    assert_eq!(pull.serialize(&mut buffer), Err(Error::BufferTooSmall));
    assert_eq!(buffer, [9u8; 9]);
    let mut exact = [9u8; 10];
    assert_eq!(pull.serialize(&mut exact), Ok(10));
    let signed = push_data_sig::Packet {
        random_token: 1,
        gateway_mac: MacAddress::new(&MAC),
        data: push_data_sig::Data { key: 7, sig: vec![1, 2, 3] },
    };
    let mut buffer = [9u8; 31];
    assert_eq!(signed.serialize(&mut buffer), Err(Error::BufferTooSmall));
    assert_eq!(buffer, [9u8; 31]);
    let mut exact = [9u8; 32];
    assert_eq!(signed.serialize(&mut exact), Ok(32));
    let mut nine = [0u8; 9];
    let empty = push_data_sig::Packet {
        random_token: 0x25CF,
        gateway_mac: MacAddress::new(&MAC),
        data: push_data_sig::Data { key: 1, sig: vec![] },
    };
    assert_eq!(empty.serialize(&mut nine), Err(Error::BufferTooSmall));
    assert_eq!(nine, [0u8; 9]);
    let mut large = [7u8; 40];
    assert_eq!(empty.serialize(&mut large), Ok(28));
    assert_eq!(&large[28..], &[7u8; 12]);
}

#[test]
fn inconsistent_parts_make_no_packet() {
    let mac = MacAddress::new(&MAC);
    assert!(Packet::new(1, None, PacketData::PullData).is_none());
    assert!(Packet::new(1, Some(mac), PacketData::PullAck).is_none());
    assert!(Packet::new(1, Some(mac), PacketData::PushAck).is_none());
    assert!(Packet::new(1, Some(mac), PacketData::PullResp).is_none());
    let odd = Packet { random_token: 1, gateway_mac: None, data: PacketData::PullData };
    assert!(!odd.is_consistent());
}

#[test]
fn version_3_reads_the_baseline_kinds() {
    let bytes = [0x03, 0x25, 0xCF, 0x02, 0xAA, 0x55, 0x5A, 0, 0, 0];
    let packet = parse_all(&bytes).unwrap();
    assert_eq!(packet.data, PacketData::PullData);
    assert_eq!(packet.random_token, 9679);
}

#[test]
fn malformed_payload_carries_the_parser_message() {
    let bytes = datagram(
        &[0x02, 0xE9, 0xE5, 0x00, 0xAA, 0x55, 0x5A, 0, 0, 0],
        "{\"rxpk\":[{\"chan\":8",
    );
    match Packet::parse(&bytes, bytes.len()) {
        Err(Error::MalformedPayload { fault, detail }) => {
            assert_eq!(fault, PayloadFault::InvalidJson);
            assert!(detail.contains("EOF"), "{}", detail);
            assert_eq!(detail, "EOF while parsing an object at line 1 column 18");
        }
        other => panic!("{:?}", other),
    }
    match semtech_udp::payload::decode_push_data(&[0x22, 0xFF, 0x22]) {
        Err(Error::MalformedPayload { fault, detail }) => {
            assert_eq!(fault, PayloadFault::InvalidUtf8);
            assert_eq!(detail, "invalid utf-8 sequence of 1 bytes from index 1");
        }
        other => panic!("{:?}", other),
    }
    match semtech_udp::payload::decode_push_data(b"[]") {
        Err(Error::MalformedPayload { fault, detail }) => {
            assert_eq!(fault, PayloadFault::InvalidShape);
            assert_eq!(detail, "a required field is missing or has the wrong type");
        }
        other => panic!("{:?}", other),
    }
    assert_eq!(Error::shape().kind(), ErrorKind::MalformedPayload(PayloadFault::InvalidShape));
    assert_eq!(Error::BufferTooSmall.kind(), ErrorKind::BufferTooSmall);
    assert_eq!(Error::TruncatedInput.kind(), ErrorKind::TruncatedInput);
    assert_eq!(Error::UnknownIdentifier.kind(), ErrorKind::UnknownIdentifier);
    assert_eq!(Error::UnsupportedVersion.kind(), ErrorKind::UnsupportedVersion);
}

#[test]
fn signed_uplink_under_the_general_type() {
    let signed = push_data_sig::Packet {
        random_token: 0xBEEF,
        gateway_mac: MacAddress::new(&MAC),
        data: push_data_sig::Data { key: 1, sig: vec![0xDE, 0xAD] },
    };
    let packet = Packet::from_signed(signed.clone());
    assert!(packet.is_consistent());
    assert_eq!(packet.to_bytes(), signed.to_bytes());
    assert_eq!(packet.random_token, 0xBEEF);
    assert_eq!(packet.gateway_mac, Some(signed.gateway_mac));
    assert_eq!(packet.data, PacketData::PushDataSig(signed.data));
}
