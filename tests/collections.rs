use rust_macios::array::{index_from_reply, Array, NSArray, NS_NOT_FOUND};
use rust_macios::dictionary::{Dictionary, MutableDictionary, NSDictionary, NSMutableDictionary};
use rust_macios::ownership::ObjectRef;
use rust_macios::runtime::{ClassTag, Encoding, Handle, Message, Receiver, Value};
use rust_macios::text::NSString;
use rust_macios::traits::{FromId, PNSObject, ToId};

fn object<T: FromId>(address: usize, class: &str) -> T {
    T::from_id(ObjectRef::adopt_owned(Handle::new(address, ClassTag::named(class)).unwrap()))
}

fn receiver_of(m: &Message) -> (usize, String) {
    match &m.receiver {
        Receiver::Instance(h) => (h.address, h.class_tag.name.clone()),
        Receiver::Class(c) => (0, c.name.clone()),
    }
}

fn object_arg(v: &Value) -> usize {
    match v {
        Value::Object(h) => h.address,
        _ => panic!("expected an object argument"),
    }
}

#[test]
fn array_from_objects_passes_them_in_order() {
    let a: NSString = object(0x10, "NSString");
    let b: NSString = object(0x20, "NSString");
    let c: NSString = object(0x30, "NSString");
    let objects = vec![a, b, c];
    let m = Array::from_objects(&objects);
    assert_eq!(m.selector.name, "arrayWithObjects:count:");
    assert_eq!(receiver_of(&m), (0, String::from("NSArray")));
    match &m.args[0] {
        Value::Objects(hs) => {
            let addresses: Vec<usize> = hs.iter().map(|h| h.address).collect();
            assert_eq!(addresses, vec![0x10, 0x20, 0x30]);
        },
        _ => panic!("the first argument is the objects"),
    }
    assert!(matches!(m.args[1], Value::UInt(3)));
    let empty: Vec<NSString> = Vec::new();
    let m = NSArray::from_objects(&empty);
    assert!(matches!(&m.args[0], Value::Objects(hs) if hs.is_empty()));
    assert!(matches!(m.args[1], Value::UInt(0)));
}

#[test]
fn array_queries() {
    let array: Array<NSString> = object(0x100, "NSArray");
    let other: Array<NSString> = object(0x200, "NSArray");
    let item: NSString = object(0x300, "NSString");
    assert_eq!(array.count().selector.name, "count");
    assert_eq!(array.first_object().selector.name, "firstObject");
    assert_eq!(array.last_object().selector.name, "lastObject");
    let at = array.object_at(4);
    assert_eq!(at.selector.name, "objectAtIndex:");
    assert!(matches!(at.args[0], Value::UInt(4)));
    assert_eq!(array.object_at_indexed_subscript(1).selector.name, "objectAtIndexedSubscript:");
    assert_eq!(array.contains(&item).result, Encoding::Bool);
    assert_eq!(array.index_of(&item).selector.name, "indexOfObject:");
    let ranged = array.index_of_object_in_range(&item, 2, 5);
    assert!(matches!(ranged.args[1], Value::Range(2, 5)));
    assert_eq!(array.index_of_object_identical_to(&item).selector.name, "indexOfObjectIdenticalTo:");
    assert_eq!(
        array.index_of_object_identical_to_in_range(&item, 0, 1).selector.name,
        "indexOfObjectIdenticalTo:inRange:"
    );
    let common = array.first_object_common_with(&other);
    assert_eq!(common.selector.name, "firstObjectCommonWithArray:");
    assert_eq!(object_arg(&common.args[0]), 0x200);
    assert_eq!(array.is_equal_to(&other).selector.name, "isEqualToArray:");
    assert_eq!(object_arg(&array.adding(&item).args[0]), 0x300);
    assert_eq!(array.adding_objects(&other).selector.name, "arrayByAddingObjectsFromArray:");
    assert!(matches!(array.subarray_with_range(1, 2).args[0], Value::Range(1, 2)));
    let locale = Handle::new(0x400, ClassTag::named("NSLocale")).unwrap();
    assert_eq!(array.description_with_locale(&locale).selector.name, "descriptionWithLocale:");
    let indented = array.description_with_locale_indent(&locale, 2);
    assert!(matches!(indented.args[1], Value::UInt(2)));
    assert_eq!(Array::<NSString>::init().selector.name, "array");
}

#[test]
fn not_found_index_is_none() {
    assert_eq!(index_from_reply(&Value::UInt(3)), Some(3));
    assert_eq!(index_from_reply(&Value::UInt(NS_NOT_FOUND)), None);
    assert_eq!(NS_NOT_FOUND, i64::MAX as u64);
    assert_eq!(index_from_reply(&Value::Int(3)), None);
}

#[test]
fn mutable_dictionary_edits_keep_the_handle() {
    let mut dict: NSMutableDictionary<NSString, NSString> = object(0x500, "NSMutableDictionary");
    let key: NSString = object(0x510, "NSString");
    let value: NSString = object(0x520, "NSString");
    let m = dict.set_object(&key, &value);
    assert_eq!(m.selector.name, "setObject:forKey:");
    assert_eq!(object_arg(&m.args[0]), 0x520);
    assert_eq!(object_arg(&m.args[1]), 0x510);
    assert_eq!(m.result, Encoding::Void);
    assert_eq!(dict.set_object_for_keyed_superscript(&key, &value).selector.name, "setObject:forKeyedSubscript:");
    let kvc_key = Handle::new(0x530, ClassTag::named("NSString")).unwrap();
    assert_eq!(dict.set_value(&kvc_key, &value).selector.name, "setValue:forKey:");
    let other: NSDictionary<NSString, NSString> = object(0x540, "NSDictionary");
    assert_eq!(dict.add_entries_from_dictionary(&other).selector.name, "addEntriesFromDictionary:");
    assert_eq!(dict.set_dictionary(&other).selector.name, "setDictionary:");
    assert_eq!(dict.remove_object_for_key(&key).selector.name, "removeObjectForKey:");
    assert_eq!(dict.remove_all_objects().selector.name, "removeAllObjects");
    let keys: Array<NSString> = object(0x550, "NSArray");
    assert_eq!(dict.remove_objects_for_keys(&keys).selector.name, "removeObjectsForKeys:");
    assert_eq!(dict.im_self().address, 0x500);
    assert!(dict.as_id().is_owning());
}

#[test]
fn set_entries_sends_one_message_per_pair() {
    let mut dict: MutableDictionary<NSString, NSString> = object(0x600, "NSMutableDictionary");
    let entries: Vec<(NSString, NSString)> = vec![
        (object(0x610, "NSString"), object(0x611, "NSString")),
        (object(0x620, "NSString"), object(0x621, "NSString")),
    ];
    let ms = dict.set_entries(&entries);
    assert_eq!(ms.len(), 2);
    for (m, (k, v)) in ms.iter().zip([(0x610, 0x611), (0x620, 0x621)]) {
        assert_eq!(m.selector.name, "setObject:forKey:");
        assert_eq!(receiver_of(m).0, 0x600);
        assert_eq!(object_arg(&m.args[0]), v);
        assert_eq!(object_arg(&m.args[1]), k);
    }
    let none: Vec<(NSString, NSString)> = Vec::new();
    assert!(dict.set_entries(&none).is_empty());
    let frozen = NSMutableDictionary::to_dictionary(&dict);
    assert_eq!(frozen.selector.name, "dictionaryWithDictionary:");
    assert_eq!(receiver_of(&frozen), (0, String::from("NSDictionary")));
}

#[test]
fn dictionary_constructors() {
    let objects: Array<NSString> = object(0x700, "NSArray");
    let keys: Array<NSString> = object(0x710, "NSArray");
    let m = Dictionary::<NSString, NSString>::dictionary_with_objects(&objects, &keys);
    assert_eq!(m.selector.name, "dictionaryWithObjects:forKeys:");
    assert_eq!(object_arg(&m.args[0]), 0x700);
    assert_eq!(object_arg(&m.args[1]), 0x710);
    let dict: NSDictionary<NSString, NSString> = object(0x720, "NSDictionary");
    assert_eq!(dict.as_mut_dictionary().selector.name, "mutableCopy");
    assert_eq!(NSMutableDictionary::<NSString, NSString>::new().selector.name, "new");
    assert_eq!(NSMutableDictionary::<NSString, NSString>::allocate().selector.name, "alloc");
    let allocated = ObjectRef::adopt_owned(Handle::new(0x730, ClassTag::named("NSMutableDictionary")).unwrap());
    let init = NSMutableDictionary::init_with_dictionary(allocated, &dict);
    assert_eq!(init.selector.name, "initWithDictionary:");
    assert_eq!(receiver_of(&init).0, 0x730);
    let allocated = ObjectRef::adopt_owned(Handle::new(0x740, ClassTag::named("NSMutableDictionary")).unwrap());
    assert_eq!(NSMutableDictionary::<NSString, NSString>::init(allocated).selector.name, "init");
}

#[test]
fn array_walk_asks_for_each_index() {
    let array: Array<NSString> = object(0x800, "NSArray");
    let ms = array.object_requests(3);
    assert_eq!(ms.len(), 3);
    for (i, m) in ms.iter().enumerate() {
        assert_eq!(m.selector.name, "objectAtIndex:");
        assert_eq!(receiver_of(m).0, 0x800);
        assert!(matches!(m.args[0], Value::UInt(x) if x == i as u64));
    }
    assert!(array.object_requests(0).is_empty());
}
