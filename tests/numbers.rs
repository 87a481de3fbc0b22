use rust_macios::number::{ComparisonResult, NSNumber};
use rust_macios::ownership::ObjectRef;
use rust_macios::runtime::{ClassTag, Encoding, Handle, Receiver, Value};
use rust_macios::color::NSColorSpace;
use rust_macios::text::{NSAttributedString, NSString};
use rust_macios::traits::{FromId, PNSObject};

fn object<T: FromId>(address: usize, class: &str) -> T {
    T::from_id(ObjectRef::adopt_owned(Handle::new(address, ClassTag::named(class)).unwrap()))
}

#[test]
fn numbers_keep_width_and_signedness() {
    assert!(matches!(NSNumber::number_with_bool(true).args[0], Value::Bool(1)));
    assert!(matches!(NSNumber::number_with_bool(false).args[0], Value::Bool(0)));
    assert!(matches!(NSNumber::number_with_char(-3).args[0], Value::Char(-3)));
    assert!(matches!(NSNumber::number_with_unsigned_char(200).args[0], Value::UChar(200)));
    assert!(matches!(NSNumber::number_with_short(-300).args[0], Value::Short(-300)));
    assert!(matches!(NSNumber::number_with_unsigned_short(60000).args[0], Value::UShort(60000)));
    assert!(matches!(NSNumber::number_with_int(-70000).args[0], Value::Int32(-70000)));
    assert!(matches!(NSNumber::number_with_unsigned_int(4_000_000_000).args[0], Value::UInt32(4_000_000_000)));
    assert!(matches!(NSNumber::number_with_integer(i64::MIN).args[0], Value::Int(i64::MIN)));
    assert!(matches!(NSNumber::number_with_long(-5).args[0], Value::Int(-5)));
    assert!(matches!(NSNumber::number_with_long_long(-6).args[0], Value::Int(-6)));
    assert!(matches!(NSNumber::number_with_unsigned_integer(u64::MAX).args[0], Value::UInt(u64::MAX)));
    assert!(matches!(NSNumber::number_with_unsigned_long(7).args[0], Value::UInt(7)));
    assert!(matches!(NSNumber::number_with_unsigned_long_long(8).args[0], Value::UInt(8)));
    let m = NSNumber::number_with_int(1);
    assert_eq!(m.selector.name, "numberWithInt:");
    assert!(matches!(&m.receiver, Receiver::Class(c) if c.name == "NSNumber"));
}

#[test]
fn number_readers_ask_for_their_width() {
    let n: NSNumber = object(0x900, "NSNumber");
    assert_eq!(n.bool_value().selector.name, "boolValue");
    assert_eq!(n.bool_value().result, Encoding::Bool);
    assert_eq!(n.short_value().result, Encoding::Short);
    assert_eq!(n.unsigned_int_value().result, Encoding::UInt32);
    assert_eq!(n.unsigned_long_long_value().selector.name, "unsignedLongLongValue");
    assert_eq!(n.integer_value().result, Encoding::Int);
    let other: NSNumber = object(0x910, "NSNumber");
    assert_eq!(n.compare(&other).selector.name, "compare:");
    assert_eq!(n.is_equal_to_number(&other).result, Encoding::Bool);
    assert_eq!(n.string_value().selector.name, "stringValue");
    let allocated = ObjectRef::adopt_owned(Handle::new(0x920, ClassTag::named("NSNumber")).unwrap());
    let init = NSNumber::init_with_unsigned_short(allocated, 9);
    assert_eq!(init.selector.name, "initWithUnsignedShort:");
    assert!(matches!(init.args[0], Value::UShort(9)));
}

#[test]
fn comparison_results_match_headers() {
    assert_eq!(ComparisonResult::from_raw(-1), Some(ComparisonResult::OrderedAscending));
    assert_eq!(ComparisonResult::from_raw(0), Some(ComparisonResult::OrderedSame));
    assert_eq!(ComparisonResult::from_raw(1), Some(ComparisonResult::OrderedDescending));
    assert_eq!(ComparisonResult::from_raw(2), None);
}

#[test]
fn integer_sum_is_checked() {
    assert_eq!(NSNumber::sum_integer_values(&[1, 2, 3]), Some(6));
    assert_eq!(NSNumber::sum_integer_values(&[]), Some(0));
    assert_eq!(NSNumber::sum_integer_values(&[i64::MAX, 1]), None);
    assert_eq!(NSNumber::sum_integer_values(&[i64::MAX, 1, -1]), None);
    assert_eq!(NSNumber::sum_integer_values(&[i64::MIN, -1]), None);
    assert_eq!(NSNumber::sum_integer_values(&[i64::MAX, -1, 1]), Some(i64::MAX));
}

#[test]
fn attributed_string_messages() {
    let s: NSAttributedString = object(0xa00, "NSAttributedString");
    let other: NSAttributedString = object(0xa10, "NSAttributedString");
    assert_eq!(s.string().selector.name, "string");
    assert_eq!(s.length().result, Encoding::UInt);
    let attrs = s.attributes_at_index_effective_range(3);
    assert_eq!(attrs.selector.name, "attributesAtIndex:effectiveRange:");
    assert!(matches!(attrs.args[1], Value::Nil));
    let longest = s.attributes_at_index_longest_effective_range_in_range(1, 0, 10);
    assert!(matches!(longest.args[2], Value::Range(0, 10)));
    assert_eq!(s.is_equal_to_attributed_string(&other).result, Encoding::Bool);
    assert!(matches!(s.attributed_substring_from_range(2, 4).args[0], Value::Range(2, 4)));
    let text: NSString = object(0xa20, "NSString");
    let allocated = ObjectRef::adopt_owned(Handle::new(0xa30, ClassTag::named("NSAttributedString")).unwrap());
    let init = NSAttributedString::init_with_string(allocated, &text);
    assert_eq!(init.selector.name, "initWithString:");
    assert!(matches!(&init.receiver, Receiver::Instance(h) if h.address == 0xa30));
}

#[test]
fn string_and_color_space_wrappers() {
    let allocated = ObjectRef::adopt_owned(Handle::new(0xb00, ClassTag::named("NSString")).unwrap());
    let m = NSString::init_with_str(allocated, "Hello World!");
    assert!(matches!(&m.args[0], Value::Bytes(b) if b == b"Hello World!"));
    let s: NSString = object(0xb10, "NSString");
    assert_eq!(s.utf8_string().result, Encoding::Bytes);
    assert_eq!(s.length().selector.name, "length");
    let space: NSColorSpace = object(0xb20, "NSColorSpace");
    assert_eq!(NSColorSpace::im_class().name, "NSColorSpace");
    let h = space.ip_hash();
    assert!(matches!(&h.receiver, Receiver::Instance(x) if x.address == 0xb20 && x.class_tag.name == "NSColorSpace"));
}
