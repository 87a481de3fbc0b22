use rust_macios::geometry::{decode_rect, encode_rect, CGFloat, CGPoint, CGRect, CGSize};
use rust_macios::marshal::{
    alloc_string, from_bool, init_string, reply_bool, reply_int, reply_rect, reply_uint,
    string_bytes, string_from_bytes, string_from_reply, to_bool, utf8_contents, NO,
    UTF8_ENCODING, YES,
};
use rust_macios::ownership::ObjectRef;
use rust_macios::runtime::{ClassTag, Encoding, Handle, Receiver, Value};

fn rect(x: f64, y: f64, w: f64, h: f64) -> CGRect {
    CGRect::new(
        CGPoint::new(CGFloat::from_bits(x.to_bits()), CGFloat::from_bits(y.to_bits())),
        CGSize::new(CGFloat::from_bits(w.to_bits()), CGFloat::from_bits(h.to_bits())),
    )
}

#[test]
fn bool_encoding_is_one_byte() {
    assert_eq!(from_bool(true), YES);
    assert_eq!(from_bool(false), NO);
    assert!(to_bool(YES));
    assert!(!to_bool(NO));
    assert!(to_bool(-1));
    assert!(to_bool(from_bool(true)));
    assert!(!to_bool(from_bool(false)));
}

#[test]
fn string_round_trip_ascii() {
    let s = "Hello World!";
    let bytes = string_bytes(s);
    assert_eq!(bytes, s.as_bytes().to_vec());
    assert_eq!(string_from_bytes(&bytes).unwrap(), s);
}

#[test]
fn string_round_trip_multibyte() {
    let s = "héllo, 世界 🦀";
    let bytes = string_bytes(s);
    assert_eq!(bytes.len(), s.len());
    assert!(bytes.len() > s.chars().count());
    let back = string_from_bytes(&bytes).unwrap();
    assert_eq!(back, s);
    assert_eq!(back.as_bytes(), s.as_bytes());
}

#[test]
fn string_round_trip_empty() {
    assert!(string_bytes("").is_empty());
    assert_eq!(string_from_bytes(&[]).unwrap(), "");
}

#[test]
fn invalid_utf8_is_refused() {
    assert!(string_from_bytes(&[0xff, 0xfe]).is_none());
    assert!(string_from_bytes(&[b'a', 0xc3]).is_none());
    assert_eq!(string_from_bytes(&[0xc3, 0xa9]).unwrap(), "é");
}

#[test]
fn string_from_reply_reads_bytes_only() {
    let reply = Value::Bytes("grüße".as_bytes().to_vec());
    assert_eq!(string_from_reply(&reply).unwrap(), "grüße");
    assert!(string_from_reply(&Value::UInt(3)).is_none());
    assert!(string_from_reply(&Value::Nil).is_none());
}

#[test]
fn creating_a_foreign_string_copies_its_bytes() {
    let alloc = alloc_string();
    assert_eq!(alloc.selector.name, "alloc");
    match &alloc.receiver {
        Receiver::Class(c) => assert_eq!(c.name, "NSString"),
        Receiver::Instance(_) => panic!("alloc goes to the class"),
    }
    let allocated = ObjectRef::adopt_owned(Handle::new(0x5000, ClassTag::named("NSString")).unwrap());
    let mut local = String::from("añb");
    let m = init_string(allocated, &local);
    local.push('!');
    assert_eq!(m.selector.name, "initWithBytes:length:encoding:");
    assert_eq!(m.result, Encoding::Object);
    assert_eq!(m.args.len(), 3);
    match &m.args[0] {
        Value::Bytes(b) => assert_eq!(b, &"añb".as_bytes().to_vec()),
        _ => panic!("the first argument is the buffer"),
    }
    assert!(matches!(m.args[1], Value::UInt(4)));
    assert!(matches!(m.args[2], Value::UInt(e) if e == UTF8_ENCODING));
    match &m.receiver {
        Receiver::Instance(h) => assert_eq!(h.address, 0x5000),
        Receiver::Class(_) => panic!("init goes to the allocated object"),
    }
}

#[test]
fn reading_a_foreign_string_asks_for_utf8() {
    let s = ObjectRef::adopt_owned(Handle::new(0x5100, ClassTag::named("NSString")).unwrap());
    let m = utf8_contents(&s);
    assert_eq!(m.selector.name, "UTF8String");
    assert_eq!(m.result, Encoding::Bytes);
}

#[test]
fn rect_round_trip_is_field_identical() {
    let r = rect(0.0, 0.0, 300.0, 300.0);
    let bytes = encode_rect(&r);
    assert_eq!(bytes.len(), 32);
    let back = decode_rect(&bytes).unwrap();
    assert_eq!(back, r);
    assert_eq!(f64::from_bits(back.origin.x.bits), 0.0);
    assert_eq!(f64::from_bits(back.origin.y.bits), 0.0);
    assert_eq!(f64::from_bits(back.size.width.bits), 300.0);
    assert_eq!(f64::from_bits(back.size.height.bits), 300.0);
}

#[test]
fn rect_layout_order_and_endianness() {
    let r = rect(1.5, -2.0, 200.0, 0.25);
    let bytes = encode_rect(&r);
    assert_eq!(&bytes[0..8], &1.5f64.to_le_bytes());
    assert_eq!(&bytes[8..16], &(-2.0f64).to_le_bytes());
    assert_eq!(&bytes[16..24], &200.0f64.to_le_bytes());
    assert_eq!(&bytes[24..32], &0.25f64.to_le_bytes());
    assert_eq!(decode_rect(&bytes).unwrap(), r);
}

#[test]
fn rect_of_wrong_length_is_refused() {
    assert!(decode_rect(&[0u8; 31]).is_none());
    assert!(decode_rect(&[0u8; 33]).is_none());
    assert!(decode_rect(&[]).is_none());
}

#[test]
fn reply_readers_check_the_kind() {
    assert_eq!(reply_bool(&Value::Bool(1)), Some(true));
    assert_eq!(reply_bool(&Value::Bool(0)), Some(false));
    assert_eq!(reply_bool(&Value::Int(1)), None);
    assert_eq!(reply_uint(&Value::UInt(7)), Some(7));
    assert_eq!(reply_uint(&Value::Int(7)), None);
    assert_eq!(reply_int(&Value::Int(-7)), Some(-7));
    assert_eq!(reply_int(&Value::Void), None);
    let r = rect(0.0, 0.0, 300.0, 300.0);
    assert_eq!(reply_rect(&Value::Rect(r)), Some(r));
    assert_eq!(reply_rect(&Value::Nil), None);
}
