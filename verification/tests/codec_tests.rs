use foreign_dispatch::codec::{
    read_bool, read_i16, read_i32, read_i64, read_i8, read_opt_string, read_string, read_u16,
    read_u32, read_u64, read_u8, write_bool, write_i16, write_i32, write_i64, write_i8,
    write_opt_string, write_string, write_u16, write_u32, write_u64, write_u8, DecodeError,
};
use foreign_dispatch::record::{read_entry, write_entry, KeychainEntry};

#[test]
fn bool_exact_bytes_and_roundtrip() {
    let mut buf = Vec::new();
    write_bool(&mut buf, false);
    write_bool(&mut buf, true);
    assert_eq!(buf, vec![0x00, 0x01]);
    assert_eq!(read_bool(&buf, 0), Ok((false, 1)));
    assert_eq!(read_bool(&buf, 1), Ok((true, 2)));
}

#[test]
fn bool_rejects_other_bytes() {
    let buf = vec![0x02];
    assert_eq!(read_bool(&buf, 0), Err(DecodeError::InvalidTag));
}

#[test]
fn u8_roundtrip() {
    let mut buf = Vec::new();
    write_u8(&mut buf, 0xA7);
    assert_eq!(buf, vec![0xA7]);
    assert_eq!(read_u8(&buf, 0), Ok((0xA7, 1)));
}

#[test]
fn u16_big_endian() {
    let mut buf = Vec::new();
    write_u16(&mut buf, 0xABCD);
    assert_eq!(buf, vec![0xAB, 0xCD]);
    assert_eq!(read_u16(&buf, 0), Ok((0xABCD, 2)));
}

#[test]
fn u32_big_endian() {
    let mut buf = Vec::new();
    write_u32(&mut buf, 0x0102_03FF);
    assert_eq!(buf, vec![0x01, 0x02, 0x03, 0xFF]);
    assert_eq!(read_u32(&buf, 0), Ok((0x0102_03FF, 4)));
}

#[test]
fn u64_big_endian() {
    let mut buf = Vec::new();
    write_u64(&mut buf, 0x0123_4567_89AB_CDEF);
    assert_eq!(buf, vec![0x01, 0x23, 0x45, 0x67, 0x89, 0xAB, 0xCD, 0xEF]);
    assert_eq!(read_u64(&buf, 0), Ok((0x0123_4567_89AB_CDEF, 8)));
}

#[test]
fn signed_two_complement() {
    let mut buf = Vec::new();
    write_i8(&mut buf, -1);
    assert_eq!(buf, vec![0xFF]);
    assert_eq!(read_i8(&buf, 0), Ok((-1, 1)));

    let mut buf = Vec::new();
    write_i16(&mut buf, -2);
    assert_eq!(buf, vec![0xFF, 0xFE]);
    assert_eq!(read_i16(&buf, 0), Ok((-2, 2)));

    let mut buf = Vec::new();
    write_i32(&mut buf, i32::MIN);
    assert_eq!(buf, vec![0x80, 0x00, 0x00, 0x00]);
    assert_eq!(read_i32(&buf, 0), Ok((i32::MIN, 4)));

    let mut buf = Vec::new();
    write_i64(&mut buf, -1);
    assert_eq!(buf, vec![0xFF; 8]);
    assert_eq!(read_i64(&buf, 0), Ok((-1, 8)));
}

#[test]
fn signed_roundtrip_extremes() {
    for v in [i64::MIN, -1, 0, 1, i64::MAX] {
        let mut buf = Vec::new();
        write_i64(&mut buf, v);
        assert_eq!(read_i64(&buf, 0), Ok((v, 8)));
    }
}

#[test]
fn short_buffer_reported() {
    let buf = vec![0x01, 0x02];
    assert_eq!(read_u32(&buf, 0), Err(DecodeError::ShortBuffer));
    assert_eq!(read_u64(&buf, 0), Err(DecodeError::ShortBuffer));
    assert_eq!(read_u8(&buf, 2), Err(DecodeError::ShortBuffer));
}

#[test]
fn string_exact_bytes() {
    let mut buf = Vec::new();
    write_string(&mut buf, "username");
    assert_eq!(
        buf,
        vec![0x00, 0x00, 0x00, 0x08, b'u', b's', b'e', b'r', b'n', b'a', b'm', b'e']
    );
    let (s, end) = read_string(&buf, 0).unwrap();
    assert_eq!(s, "username");
    assert_eq!(end, 12);
}

#[test]
fn string_roundtrip_unicode_and_empty() {
    for s in ["", "a", "clé", "ключ", "鍵"] {
        let mut buf = Vec::new();
        write_string(&mut buf, s);
        let (back, end) = read_string(&buf, 0).unwrap();
        assert_eq!(back, s);
        assert_eq!(end, buf.len());
    }
}

#[test]
fn string_negative_length_rejected() {
    let buf = vec![0x80, 0x00, 0x00, 0x00];
    assert_eq!(read_string(&buf, 0), Err(DecodeError::NegativeLength));
}

#[test]
fn string_invalid_utf8_rejected() {
    let buf = vec![0x00, 0x00, 0x00, 0x01, 0xFF];
    assert_eq!(read_string(&buf, 0), Err(DecodeError::InvalidUtf8));
}

#[test]
fn string_truncated_payload_rejected() {
    let buf = vec![0x00, 0x00, 0x00, 0x05, b'a'];
    assert_eq!(read_string(&buf, 0), Err(DecodeError::ShortBuffer));
}

#[test]
fn opt_string_absent() {
    let mut buf = Vec::new();
    write_opt_string(&mut buf, &None);
    assert_eq!(buf, vec![0x00]);
    assert_eq!(read_opt_string(&buf, 0), Ok((None, 1)));
}

#[test]
fn opt_string_present() {
    let mut buf = Vec::new();
    write_opt_string(&mut buf, &Some("alice".to_string()));
    assert_eq!(
        buf,
        vec![0x01, 0x00, 0x00, 0x00, 0x05, b'a', b'l', b'i', b'c', b'e']
    );
    assert_eq!(read_opt_string(&buf, 0), Ok((Some("alice".to_string()), 10)));
}

#[test]
fn opt_string_bad_tag_rejected() {
    let buf = vec![0x07];
    assert_eq!(read_opt_string(&buf, 0), Err(DecodeError::InvalidTag));
}

#[test]
fn entry_record_fields_in_order() {
    let entry = KeychainEntry { key: "username".to_string(), value: Some("alice".to_string()) };
    let mut buf = Vec::new();
    write_entry(&mut buf, &entry);
    let mut expected = Vec::new();
    write_string(&mut expected, "username");
    write_opt_string(&mut expected, &Some("alice".to_string()));
    assert_eq!(buf, expected);
    let (back, end) = read_entry(&buf, 0).unwrap();
    assert_eq!(back.key, "username");
    assert_eq!(back.value, Some("alice".to_string()));
    assert_eq!(end, buf.len());
}

#[test]
fn entry_record_roundtrip_absent_value() {
    let entry = KeychainEntry { key: "k".to_string(), value: None };
    let mut buf = Vec::new();
    write_entry(&mut buf, &entry);
    let (back, end) = read_entry(&buf, 0).unwrap();
    assert_eq!(back.key, "k");
    assert_eq!(back.value, None);
    assert_eq!(end, buf.len());
}

#[test]
fn reads_compose_at_positions() {
    let mut buf = Vec::new();
    write_u16(&mut buf, 7);
    write_string(&mut buf, "ab");
    write_bool(&mut buf, true);
    let (v, p) = read_u16(&buf, 0).unwrap();
    assert_eq!(v, 7);
    let (s, p) = read_string(&buf, p).unwrap();
    assert_eq!(s, "ab");
    let (b, p) = read_bool(&buf, p).unwrap();
    assert!(b);
    assert_eq!(p, buf.len());
}
