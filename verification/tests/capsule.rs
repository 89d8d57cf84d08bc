use capsule_codec::Capsule;
use capsule_codec::Decoder;
use capsule_codec::Encoder;

#[test]
fn encode_datagram_capsule_empty_payload() {
    let capsule = Capsule::Datagram {
        payload: Vec::new(),
    };
    let mut enc = Encoder::default();
    capsule.encode(&mut enc);
    let encoded = enc.as_ref();

    assert!(encoded.len() > 1);
    assert_eq!(encoded[0], 0x00);
    assert_eq!(encoded[1], 0x00);
    assert_eq!(encoded.len(), 2);
}

#[test]
fn encode_datagram_capsule_with_payload() {
    let payload = vec![0x01, 0x02, 0x03, 0x04, 0x05];
    let capsule = Capsule::Datagram {
        payload: payload.clone(),
    };
    let mut enc = Encoder::default();
    capsule.encode(&mut enc);
    let encoded = enc.as_ref();

    assert!(encoded.len() > 1);
    assert_eq!(encoded[0], 0x00);
    assert_eq!(encoded[1], 0x05);
    assert_eq!(&encoded[2..], &payload[..]);
    assert_eq!(encoded.len(), 7);
}

#[test]
fn decode_datagram_capsule_empty_payload() {
    let data = [0x00, 0x00];
    let mut decoder = Decoder::from(&data[..]);
    let capsule = Capsule::decode(&mut decoder).unwrap();

    assert_eq!(
        capsule,
        Some(Capsule::Datagram {
            payload: Vec::new()
        })
    );
    assert_eq!(decoder.remaining(), 0);
}

#[test]
fn decode_datagram_capsule_with_payload() {
    let payload = vec![0x01, 0x02, 0x03, 0x04, 0x05];
    let mut data = vec![0x00, 0x05];
    data.extend_from_slice(&payload);

    let mut decoder = Decoder::from(&data[..]);
    let capsule = Capsule::decode(&mut decoder).unwrap();

    assert_eq!(capsule, Some(Capsule::Datagram { payload }));
    assert_eq!(decoder.remaining(), 0);
}

#[test]
fn decode_unknown_capsule_type() {
    let data = [0x17, 0x04, 0xaa, 0xbb, 0xcc, 0xdd];
    let mut decoder = Decoder::from(&data[..]);
    let capsule = Capsule::decode(&mut decoder).unwrap();

    assert_eq!(capsule, None);
    assert_eq!(decoder.remaining(), 0);
}

#[test]
fn decode_incomplete_capsule_type() {
    let data = [];
    let mut decoder = Decoder::from(&data[..]);
    let capsule = Capsule::decode(&mut decoder).unwrap();

    assert_eq!(capsule, None);
}

#[test]
fn decode_incomplete_capsule_length() {
    let data = [0x00];
    let mut decoder = Decoder::from(&data[..]);
    let capsule = Capsule::decode(&mut decoder).unwrap();

    assert_eq!(capsule, None);
}

#[test]
fn decode_incomplete_capsule_payload() {
    let data = [0x00, 0x05, 0x01, 0x02];
    let mut decoder = Decoder::from(&data[..]);
    let capsule = Capsule::decode(&mut decoder).unwrap();

    assert_eq!(capsule, None);
}

#[test]
fn encode_decode_roundtrip() {
    let payload = vec![0xde, 0xad, 0xbe, 0xef];
    let original = Capsule::Datagram {
        payload: payload.clone(),
    };

    let mut enc = Encoder::default();
    original.encode(&mut enc);

    let mut dec = Decoder::from(enc.as_ref());
    let result = Capsule::decode(&mut dec).unwrap().unwrap();

    assert_eq!(original, result);
    assert_eq!(dec.remaining(), 0);
}

#[test]
fn decode_large_payload_length_encoding() {
    let payload = vec![0x42; 300];
    let capsule = Capsule::Datagram {
        payload: payload.clone(),
    };
    let mut enc = Encoder::default();
    capsule.encode(&mut enc);

    let mut decoder = Decoder::from(enc.as_ref());
    let result = Capsule::decode(&mut decoder).unwrap();

    assert_eq!(result, Some(Capsule::Datagram { payload }));
    assert_eq!(decoder.remaining(), 0);
}

#[test]
fn decode_capsule_length_exceeds_buffer() {
    let data = [
        0x00, // capsule type = DATAGRAM
        0x41, 0x00, // length (2-byte varint)
        0x42, 0x43, // only 2 bytes of data
    ];
    let mut decoder = Decoder::from(&data[..]);
    let result = Capsule::decode(&mut decoder).unwrap();

    assert_eq!(result, None);
}
