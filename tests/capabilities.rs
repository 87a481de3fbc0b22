use rust_macios::dictionary::{INSDictionary, NSDictionary};
use rust_macios::locale::{direction_from_reply, LanguageDirection, NSLocale};
use rust_macios::ownership::ObjectRef;
use rust_macios::runtime::{ClassTag, Encoding, Handle, Message, Receiver, Selector, Value};
use rust_macios::text::NSString;
use rust_macios::traits::INSAutoreleasePool;
use rust_macios::traits::{adopt_reply, is_equal_from_reply, FromId, INSObject, PNSObject, ToId};

fn object<T: FromId>(address: usize, class: &str) -> T {
    T::from_id(ObjectRef::adopt_owned(Handle::new(address, ClassTag::named(class)).unwrap()))
}

fn receiver_of(m: &Message) -> (usize, String) {
    match &m.receiver {
        Receiver::Instance(h) => (h.address, h.class_tag.name.clone()),
        Receiver::Class(c) => (0, c.name.clone()),
    }
}

fn object_arg(v: &Value) -> usize {
    match v {
        Value::Object(h) => h.address,
        _ => panic!("expected an object argument"),
    }
}

#[test]
fn domain_default_forwards_with_selector_and_class() {
    let dict: NSDictionary<NSLocale, NSLocale> = object(0x7000, "NSDictionary");
    let m = dict.ip_count();
    assert_eq!(m.selector.name, "count");
    assert_eq!(receiver_of(&m), (0x7000, String::from("NSDictionary")));
    assert_eq!(m.result, Encoding::UInt);
    assert!(m.args.is_empty());
    let same = dict.count();
    assert_eq!(same.selector.name, "count");
    assert_eq!(receiver_of(&same), (0x7000, String::from("NSDictionary")));
}

#[test]
fn root_default_forwards_with_selector_and_class() {
    let dict: NSDictionary<NSLocale, NSLocale> = object(0x7100, "NSDictionary");
    let m = dict.ip_hash();
    assert_eq!(m.selector.name, "hash");
    assert_eq!(receiver_of(&m), (0x7100, String::from("NSDictionary")));
    assert_eq!(m.result, Encoding::UInt);
    assert_eq!(NSDictionary::<NSLocale, NSLocale>::im_class().name, "NSDictionary");
    let sup = NSDictionary::<NSLocale, NSLocale>::ip_superclass();
    assert_eq!(sup.selector.name, "superclass");
    assert_eq!(receiver_of(&sup), (0, String::from("NSDictionary")));
    assert_eq!(sup.result, Encoding::Class);
}

#[test]
fn object_for_key_passes_the_key() {
    let dict: NSDictionary<NSLocale, NSLocale> = object(0x7200, "NSDictionary");
    let key: NSLocale = object(0x7300, "NSLocale");
    let m = dict.object_for_key(&key);
    assert_eq!(m.selector.name, "objectForKey:");
    assert_eq!(m.args.len(), 1);
    assert_eq!(object_arg(&m.args[0]), 0x7300);
    assert_eq!(m.result, Encoding::Object);
    let same = dict.im_object_for_key(&key);
    assert_eq!(same.selector.name, "objectForKey:");
}

#[test]
fn new_dictionary_asks_the_class() {
    let m = NSDictionary::<NSLocale, NSLocale>::new();
    assert_eq!(m.selector.name, "dictionary");
    assert_eq!(receiver_of(&m), (0, String::from("NSDictionary")));
    assert_eq!(m.result, Encoding::Object);
    let made = <NSDictionary<NSLocale, NSLocale> as INSObject>::new();
    assert_eq!(made.selector.name, "new");
}

#[test]
fn adopted_dictionary_reply_is_retained() {
    let request = NSDictionary::<NSLocale, NSLocale>::new();
    let reply = Value::Object(Handle::new(0x7400, ClassTag::named("NSDictionary")).unwrap());
    let (dict, op) = adopt_reply::<NSDictionary<NSLocale, NSLocale>>(&request, reply);
    let dict = dict.unwrap();
    assert!(op.is_some());
    assert_eq!(dict.im_self().address, 0x7400);
    let id = dict.to_id();
    assert!(id.is_owning());
}

#[test]
fn adopted_new_reply_is_owned_without_retain() {
    let request = <NSDictionary<NSLocale, NSLocale> as INSObject>::new();
    let reply = Value::Object(Handle::new(0x7500, ClassTag::named("NSDictionary")).unwrap());
    let (dict, op) = adopt_reply::<NSDictionary<NSLocale, NSLocale>>(&request, reply);
    assert!(dict.is_some());
    assert!(op.is_none());
}

#[test]
fn equality_is_asked_of_the_runtime_for_one_address() {
    let a: NSLocale = object(0x8000, "NSLocale");
    let b: NSLocale = object(0x8000, "NSLocale");
    let m = a.im_is_equal(&b);
    assert_eq!(m.selector.name, "isEqual:");
    assert_eq!(receiver_of(&m).0, 0x8000);
    assert_eq!(object_arg(&m.args[0]), 0x8000);
    assert_eq!(m.result, Encoding::Bool);
    assert_eq!(is_equal_from_reply(&Value::Bool(1)), Some(true));
}

#[test]
fn equality_of_distinct_objects_is_the_runtime_answer() {
    let a: NSLocale = object(0x8100, "NSLocale");
    let b: NSLocale = object(0x8200, "NSLocale");
    let m = a.im_is_equal(&b);
    assert_eq!(receiver_of(&m).0, 0x8100);
    assert_eq!(object_arg(&m.args[0]), 0x8200);
    assert_eq!(is_equal_from_reply(&Value::Bool(1)), Some(true));
    assert_eq!(is_equal_from_reply(&Value::Bool(0)), Some(false));
    assert_eq!(is_equal_from_reply(&Value::UInt(1)), None);
}

#[test]
fn root_capability_messages() {
    let a: NSLocale = object(0x8300, "NSLocale");
    let kind = a.im_is_kind_of_class(ClassTag::named("NSObject"));
    assert_eq!(kind.selector.name, "isKindOfClass:");
    assert!(matches!(&kind.args[0], Value::Class(c) if c.name == "NSObject"));
    assert_eq!(a.im_is_member_of_class(ClassTag::named("NSLocale")).selector.name, "isMemberOfClass:");
    let responds = a.im_responds_to_selector(Selector::named("localeIdentifier"));
    assert_eq!(responds.selector.name, "respondsToSelector:");
    assert!(matches!(&responds.args[0], Value::Sel(s) if s.name == "localeIdentifier"));
    let proto = Handle::new(0x9000, ClassTag::named("Protocol")).unwrap();
    assert_eq!(a.im_conforms_to_protocol(proto).selector.name, "conformsToProtocol:");
    assert_eq!(a.ip_description().selector.name, "description");
    assert_eq!(a.ip_debug_description().selector.name, "debugDescription");
    assert_eq!(a.im_perform_selector(Selector::named("hash")).selector.name, "performSelector:");
    let with = a.im_perform_selector_with_object(Selector::named("isEqual:"), Value::Nil);
    assert_eq!(with.selector.name, "performSelector:withObject:");
    assert_eq!(with.args.len(), 2);
    assert!(matches!(with.args[1], Value::Nil));
    let proxy = a.im_is_proxy();
    assert_eq!(proxy.selector.name, "isProxy");
    assert_eq!(proxy.result, Encoding::Bool);
}

#[test]
fn language_direction_from_reply() {
    let code: NSString = object(0x8500, "NSString");
    let m = NSLocale::character_direction_for_language(&code);
    assert_eq!(m.selector.name, "characterDirectionForLanguage:");
    assert_eq!(receiver_of(&m), (0, String::from("NSLocale")));
    assert_eq!(m.result, Encoding::UInt);
    assert_eq!(object_arg(&m.args[0]), 0x8500);
    assert_eq!(NSLocale::line_direction_for_language(&code).selector.name, "lineDirectionForLanguage:");
    assert_eq!(direction_from_reply(&Value::UInt(2)), Some(LanguageDirection::RightToLeft));
    assert_eq!(direction_from_reply(&Value::UInt(1)), Some(LanguageDirection::LeftToRight));
    assert_eq!(direction_from_reply(&Value::UInt(5)), None);
    assert_eq!(direction_from_reply(&Value::Int(1)), None);
}

#[test]
fn locale_messages() {
    let locale: NSLocale = object(0x8600, "NSLocale");
    assert_eq!(locale.locale_identifier().selector.name, "localeIdentifier");
    assert_eq!(locale.uses_metric_system().result, Encoding::Bool);
    assert_eq!(locale.alternate_quotation_end_delimiter().selector.name, "alternateQuotationEndDelimiter");
    let current = NSLocale::current();
    assert_eq!(current.selector.name, "currentLocale");
    assert_eq!(receiver_of(&current), (0, String::from("NSLocale")));
    assert_eq!(NSLocale::iso_country_codes().selector.name, "ISOCountryCodes");
    let key: NSString = object(0x8700, "NSString");
    let value: NSString = object(0x8800, "NSString");
    let m = locale.display_name_for_key_value(&key, &value);
    assert_eq!(m.selector.name, "displayNameForKey:value:");
    assert_eq!(object_arg(&m.args[0]), 0x8700);
    assert_eq!(object_arg(&m.args[1]), 0x8800);
    let allocated = ObjectRef::adopt_owned(Handle::new(0x8900, ClassTag::named("NSLocale")).unwrap());
    let init = NSLocale::init_with_locale_identifier(allocated, &key);
    assert_eq!(init.selector.name, "initWithLocaleIdentifier:");
    assert_eq!(receiver_of(&init).0, 0x8900);
}

#[test]
fn wrapper_retain_shares_the_object() {
    let locale: NSLocale = object(0x8a00, "NSLocale");
    let (copy, op) = locale.retain();
    assert!(matches!(&op, rust_macios::ownership::RefCountOp::Retain(h) if h.address == 0x8a00));
    assert_eq!(copy.im_self().address, 0x8a00);
    assert!(copy.as_id().is_owning());
    assert!(locale.as_id().is_owning());
    assert_eq!(locale.im_self().address, 0x8a00);
}

#[test]
fn autorelease_pool_messages() {
    let mut pool: rust_macios::pool::NSAutoreleasePool = object(0x8b00, "NSAutoreleasePool");
    let drain = pool.im_drain();
    assert_eq!(drain.selector.name, "drain");
    assert_eq!(drain.result, Encoding::Void);
    let item = Handle::new(0x8c00, ClassTag::named("NSObject")).unwrap();
    let add = pool.im_add_object(item);
    assert_eq!(add.selector.name, "addObject:");
    assert_eq!(object_arg(&add.args[0]), 0x8c00);
}

#[test]
fn adopting_a_non_object_reply_gives_nothing() {
    let request = NSDictionary::<NSLocale, NSLocale>::new();
    let (dict, op) = adopt_reply::<NSDictionary<NSLocale, NSLocale>>(&request, Value::UInt(1));
    assert!(dict.is_none());
    assert!(op.is_none());
}
