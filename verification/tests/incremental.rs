use capsule_codec::Capsule;
use capsule_codec::Decoder;
use capsule_codec::Encoder;

#[test]
fn roundtrip_empty_payload() {
    let original = Capsule::Datagram {
        payload: Vec::new(),
    };
    let mut enc = Encoder::default();
    original.encode(&mut enc);

    let mut dec = Decoder::from(enc.as_ref());
    let result = Capsule::decode(&mut dec).unwrap().unwrap();

    assert_eq!(original, result);
    assert_eq!(dec.remaining(), 0);
}

#[test]
fn decode_leaves_trailing_bytes_unread() {
    // One whole one-byte-payload capsule, then two bytes of whatever
    // comes next: the cursor must stop exactly between them.
    let data = [0x00, 0x01, 0xaa, 0x17, 0x00];
    let mut decoder = Decoder::from(&data[..]);
    let capsule = Capsule::decode(&mut decoder).unwrap();

    assert_eq!(
        capsule,
        Some(Capsule::Datagram {
            payload: vec![0xaa]
        })
    );
    assert_eq!(decoder.remaining(), 2);
}

#[test]
fn skip_unknown_capsule_leaves_trailing_bytes_unread() {
    // An unknown capsule, then the start of a datagram capsule.
    let data = [0x17, 0x02, 0xaa, 0xbb, 0x00, 0x00];
    let mut decoder = Decoder::from(&data[..]);
    let capsule = Capsule::decode(&mut decoder).unwrap();

    assert_eq!(capsule, None);
    assert_eq!(decoder.remaining(), 2);

    let next = Capsule::decode(&mut decoder).unwrap();
    assert_eq!(
        next,
        Some(Capsule::Datagram {
            payload: Vec::new()
        })
    );
    assert_eq!(decoder.remaining(), 0);
}

#[test]
fn decode_incomplete_two_byte_length_varint() {
    // The first byte of a two-byte length varint alone is not a length.
    let data = [0x00, 0x41];
    let mut decoder = Decoder::from(&data[..]);
    let capsule = Capsule::decode(&mut decoder).unwrap();

    assert_eq!(capsule, None);
}

#[test]
fn decode_accepts_non_minimal_type_varint() {
    // The datagram type tag 0 written as a two-byte varint is still the
    // datagram type: decoders take the value, not the shape.
    let data = [0x40, 0x00, 0x01, 0xaa];
    let mut decoder = Decoder::from(&data[..]);
    let capsule = Capsule::decode(&mut decoder).unwrap();

    assert_eq!(
        capsule,
        Some(Capsule::Datagram {
            payload: vec![0xaa]
        })
    );
    assert_eq!(decoder.remaining(), 0);
}

#[test]
fn encode_length_three_hundred_as_two_byte_varint() {
    // 300 does not fit six bits: the length field must be the two-byte
    // varint 0x41 0x2c.
    let payload = vec![0x42; 300];
    let capsule = Capsule::Datagram { payload };
    let mut enc = Encoder::default();
    capsule.encode(&mut enc);
    let encoded = enc.as_ref();

    assert_eq!(encoded.len(), 3 + 300);
    assert_eq!(encoded[0], 0x00);
    assert_eq!(encoded[1], 0x41);
    assert_eq!(encoded[2], 0x2c);
}

#[test]
fn encode_length_at_one_byte_varint_boundary() {
    // 63 is the largest one-byte varint; 64 takes two bytes.
    let capsule = Capsule::Datagram {
        payload: vec![0x01; 63],
    };
    let mut enc = Encoder::default();
    capsule.encode(&mut enc);
    assert_eq!(enc.as_ref().len(), 2 + 63);
    assert_eq!(enc.as_ref()[1], 0x3f);

    let capsule = Capsule::Datagram {
        payload: vec![0x01; 64],
    };
    let mut enc = Encoder::default();
    capsule.encode(&mut enc);
    assert_eq!(enc.as_ref().len(), 3 + 64);
    assert_eq!(enc.as_ref()[1], 0x40);
    assert_eq!(enc.as_ref()[2], 0x40);
}

#[test]
fn roundtrip_four_byte_length_varint() {
    // 16384 is the smallest length that needs a four-byte varint.
    let payload = vec![0x5a; 16384];
    let original = Capsule::Datagram {
        payload: payload.clone(),
    };
    let mut enc = Encoder::default();
    original.encode(&mut enc);
    let encoded = enc.as_ref();
    assert_eq!(encoded.len(), 5 + 16384);
    assert_eq!(&encoded[..5], &[0x00, 0x80, 0x00, 0x40, 0x00]);

    let mut dec = Decoder::from(encoded);
    let result = Capsule::decode(&mut dec).unwrap();
    assert_eq!(result, Some(original));
    assert_eq!(dec.remaining(), 0);
}

#[test]
fn retry_with_grown_buffer_succeeds() {
    // The incremental contract: a buffer that keeps its bytes and grows
    // eventually yields the capsule that a truncated read did not.
    let full = [0x00, 0x03, 0x0a, 0x0b, 0x0c];
    for cut in 0..full.len() {
        let mut decoder = Decoder::from(&full[..cut]);
        assert_eq!(Capsule::decode(&mut decoder).unwrap(), None);
    }
    let mut decoder = Decoder::from(&full[..]);
    assert_eq!(
        Capsule::decode(&mut decoder).unwrap(),
        Some(Capsule::Datagram {
            payload: vec![0x0a, 0x0b, 0x0c]
        })
    );
    assert_eq!(decoder.remaining(), 0);
}
