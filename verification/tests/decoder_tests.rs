use ubus_runtime::decoder::{blob_to_msg, parse_typed_prefix, Blob, BlobIter, BlobMsgData, BlobTag};
use ubus_runtime::UbusError;

/// Builds one four-byte big-endian header word.
fn header(id: u32, size: u32, extended: bool) -> Vec<u8> {
    let mut w = (id % 0x80) * 0x1000000 + (size % 0x1000000);
    if extended {
        w += 0x80000000;
    }
    vec![
        (w / 0x1000000 % 0x100) as u8,
        (w / 0x10000 % 0x100) as u8,
        (w / 0x100 % 0x100) as u8,
        (w % 0x100) as u8,
    ]
}

/// Builds a whole extended attribute: header, name block, padding, value.
fn extended_attr(id: u32, name: &[u8], value: &[u8]) -> Vec<u8> {
    let mut payload: Vec<u8> = Vec::new();
    payload.push((name.len() / 256) as u8);
    payload.push((name.len() % 256) as u8);
    payload.extend_from_slice(name);
    payload.push(0);
    let name_total = 2 + name.len() + 1;
    let pad = (4 - name_total % 4) % 4;
    for _ in 0..pad {
        payload.push(0);
    }
    payload.extend_from_slice(value);
    let mut attr = header(id, (4 + payload.len()) as u32, true);
    attr.extend_from_slice(&payload);
    attr
}

#[test]
fn three_well_formed_attributes() {
    // Declared lengths 8, 12, 16 (headers included) over a 36-byte buffer.
    let mut buf = header(1, 8, false);
    buf.extend_from_slice(&[1, 2, 3, 4]);
    buf.extend_from_slice(&header(2, 12, false));
    buf.extend_from_slice(&[5, 6, 7, 8, 9, 10, 11, 12]);
    buf.extend_from_slice(&header(3, 16, false));
    buf.extend_from_slice(&[0; 12]);
    assert_eq!(buf.len(), 36);

    let mut iter = BlobIter::new(buf);
    let a = iter.next().expect("first attribute");
    assert_eq!(a.tag.size, 8);
    assert_eq!(a.tag.id, 1);
    assert_eq!(a.data.len(), 4);
    assert_eq!(a.data, vec![1, 2, 3, 4]);
    let b = iter.next().expect("second attribute");
    assert_eq!(b.tag.size, 12);
    assert_eq!(b.data.len(), 8);
    let c = iter.next().expect("third attribute");
    assert_eq!(c.tag.size, 16);
    assert_eq!(c.data.len(), 12);
    assert!(iter.next().is_none());
    // strict callers hold the consumed length against the buffer themselves
    assert_eq!(iter.consumed(), 36);
}

#[test]
fn overrunning_length_ends_the_walk() {
    // The second attribute declares a length past the end of the buffer:
    // exactly one attribute comes out, then an empty tail.
    let mut buf = header(1, 8, false);
    buf.extend_from_slice(&[9, 9, 9, 9]);
    buf.extend_from_slice(&header(2, 100, false));
    buf.extend_from_slice(&[1, 2, 3, 4]);

    let mut iter = BlobIter::new(buf);
    let a = iter.next().expect("first attribute");
    assert_eq!(a.tag.size, 8);
    assert_eq!(a.data, vec![9, 9, 9, 9]);
    assert!(iter.next().is_none());
    assert!(iter.next().is_none());
}

#[test]
fn undersized_length_ends_the_walk() {
    // A declared length smaller than the header itself stops decoding.
    let mut buf = header(1, 3, false);
    buf.extend_from_slice(&[0, 0, 0, 0]);
    let mut iter = BlobIter::new(buf);
    assert!(iter.next().is_none());
}

#[test]
fn empty_buffer_yields_nothing() {
    let mut iter = BlobIter::new(Vec::new());
    assert!(iter.next().is_none());
}

fn typed(attr: Vec<u8>) -> Result<ubus_runtime::decoder::BlobMsg, UbusError> {
    let mut iter = BlobIter::new(attr);
    let blob = iter.next().expect("well-formed attribute");
    blob_to_msg(&blob)
}

#[test]
fn typed_string_attribute() {
    let attr = extended_attr(3, b"greeting", b"hi\0\0");
    let msg = typed(attr).expect("string conversion");
    assert_eq!(msg.name, b"greeting".to_vec());
    match msg.data {
        // One trailing nul is stripped; remaining bytes stay.
        BlobMsgData::Str(s) => assert_eq!(s, b"hi\0".to_vec()),
        _ => panic!("wrong variant"),
    }
}

#[test]
fn typed_int32_attribute() {
    let attr = extended_attr(5, b"n", &[0, 0, 1, 44]);
    let msg = typed(attr).expect("int32 conversion");
    assert_eq!(msg.name, b"n".to_vec());
    match msg.data {
        BlobMsgData::Int32(v) => assert_eq!(v, 300),
        _ => panic!("wrong variant"),
    }
}

#[test]
fn typed_int64_attribute() {
    let attr = extended_attr(4, b"n", &[0, 0, 0, 1, 0, 0, 0, 2]);
    let msg = typed(attr).expect("int64 conversion");
    match msg.data {
        BlobMsgData::Int64(v) => assert_eq!(v, 4294967298),
        _ => panic!("wrong variant"),
    }
}

#[test]
fn typed_int16_and_int8_attributes() {
    let m16 = typed(extended_attr(6, b"n", &[1, 4, 0, 0])).expect("int16");
    match m16.data {
        BlobMsgData::Int16(v) => assert_eq!(v, 260),
        _ => panic!("wrong variant"),
    }
    let m8 = typed(extended_attr(7, b"n", &[255, 0, 0, 0])).expect("int8");
    match m8.data {
        BlobMsgData::Int8(v) => assert_eq!(v, -1),
        _ => panic!("wrong variant"),
    }
}

#[test]
fn typed_double_keeps_raw_bits() {
    let attr = extended_attr(8, b"d", &[0x40, 0x09, 0x21, 0xfb, 0x54, 0x44, 0x2d, 0x18]);
    let msg = typed(attr).expect("double conversion");
    match msg.data {
        BlobMsgData::DoubleBits(bits) => {
            assert_eq!(bits, 0x400921fb54442d18);
            assert_eq!(f64::from_bits(bits), 3.141592653589793);
        },
        _ => panic!("wrong variant"),
    }
}

#[test]
fn typed_table_and_unknown() {
    let t = typed(extended_attr(2, b"t", &[1, 2, 3, 4])).expect("table");
    match t.data {
        BlobMsgData::Table(raw) => assert_eq!(raw, vec![1, 2, 3, 4]),
        _ => panic!("wrong variant"),
    }
    let u = typed(extended_attr(30, b"u", &[7, 8, 9, 10])).expect("unknown");
    match u.data {
        BlobMsgData::Unknown(id, raw) => {
            assert_eq!(id, 30);
            assert_eq!(raw, vec![7, 8, 9, 10]);
        },
        _ => panic!("wrong variant"),
    }
}

#[test]
fn non_extended_attribute_fails_typing() {
    let blob = Blob {
        tag: BlobTag { id: 3, size: 8, extended: false },
        data: vec![0, 0, 0, 0],
    };
    assert_eq!(blob_to_msg(&blob).unwrap_err(), UbusError::TypeMismatch);
}

#[test]
fn short_numeric_payload_fails_typing() {
    // An int32 with only two value bytes is inconsistent with its type tag.
    let attr = extended_attr(5, b"n", &[0, 1]);
    assert_eq!(typed(attr).unwrap_err(), UbusError::TypeMismatch);
}

#[test]
fn missing_name_terminator_fails_typing() {
    let blob = Blob {
        tag: BlobTag { id: 3, size: 12, extended: true },
        // name_len 1, name 'a', but no nul where one is required
        data: vec![0, 1, b'a', 1, 0, 0, 0, 0],
    };
    assert_eq!(blob_to_msg(&blob).unwrap_err(), UbusError::TypeMismatch);
}

#[test]
fn typed_prefix_stops_at_first_inconvertible_sibling() {
    let mut inner = extended_attr(3, b"a", b"one\0");
    inner.extend_from_slice(&extended_attr(3, b"b", b"two\0"));
    // a non-extended sibling ends the typed sequence silently
    inner.extend_from_slice(&header(0, 8, false));
    inner.extend_from_slice(&[0, 0, 0, 0]);
    inner.extend_from_slice(&extended_attr(3, b"c", b"xxx\0"));

    let mut raw = header(0, (4 + inner.len()) as u32, false);
    raw.extend_from_slice(&inner);

    let msgs = parse_typed_prefix(&raw);
    assert_eq!(msgs.len(), 2);
    assert_eq!(msgs[0].name, b"a".to_vec());
    assert_eq!(msgs[1].name, b"b".to_vec());
    match &msgs[1].data {
        BlobMsgData::Str(s) => assert_eq!(s, &b"two".to_vec()),
        _ => panic!("wrong variant"),
    }
}

#[test]
fn attributes_are_walked_at_four_byte_alignment() {
    // An attribute of declared length 9 is followed, after padding, at
    // offset 12 by its sibling.
    let mut buf = header(1, 9, false);
    buf.extend_from_slice(&[1, 2, 3, 4, 5]);
    buf.extend_from_slice(&[0, 0, 0]);
    buf.extend_from_slice(&header(2, 8, false));
    buf.extend_from_slice(&[6, 7, 8, 9]);
    let mut iter = BlobIter::new(buf);
    let a = iter.next().expect("first attribute");
    assert_eq!(a.tag.size, 9);
    assert_eq!(a.data, vec![1, 2, 3, 4, 5]);
    let b = iter.next().expect("second attribute");
    assert_eq!(b.tag.id, 2);
    assert_eq!(b.data, vec![6, 7, 8, 9]);
    assert!(iter.next().is_none());
}

#[test]
fn alignment_past_the_buffer_end_ends_the_walk() {
    // The last attribute fills the buffer exactly but its aligned successor
    // position lies past the end: the attribute still comes out, then the
    // walk ends without reading past the buffer.
    let mut buf = header(1, 10, false);
    buf.extend_from_slice(&[1, 2, 3, 4, 5, 6]);
    assert_eq!(buf.len(), 10);
    let mut iter = BlobIter::new(buf);
    let a = iter.next().expect("the attribute");
    assert_eq!(a.tag.size, 10);
    assert_eq!(a.data.len(), 6);
    assert!(iter.next().is_none());
}
