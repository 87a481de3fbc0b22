use rust_macios::ownership::{adopt_result, method_family, returns_retained, MethodFamily, ObjectRef, RefCountOp};
use rust_macios::runtime::{ClassTag, Encoding, Handle, Receiver, Value};

fn handle(address: usize, class: &str) -> Handle {
    Handle::new(address, ClassTag::named(class)).unwrap()
}

fn op_address(op: &RefCountOp) -> (bool, usize) {
    match op {
        RefCountOp::Retain(h) => (true, h.address),
        RefCountOp::Release(h) => (false, h.address),
    }
}

#[test]
fn nil_address_gives_no_handle() {
    assert!(Handle::new(0, ClassTag::named("NSObject")).is_none());
    let h = handle(0x10, "NSObject");
    assert_eq!(h.address, 0x10);
    assert_eq!(h.class_tag.name, "NSObject");
}

#[test]
fn owned_path_releases_exactly_once() {
    let r = ObjectRef::adopt_owned(handle(0x1000, "NSArray"));
    assert!(r.is_owning());
    let op = r.release().expect("an owning wrapper releases");
    assert_eq!(op_address(&op), (false, 0x1000));
    let m = op.to_message();
    assert_eq!(m.selector.name, "release");
    assert_eq!(m.result, Encoding::Void);
    assert!(m.args.is_empty());
    match m.receiver {
        Receiver::Instance(h) => assert_eq!(h.address, 0x1000),
        Receiver::Class(_) => panic!("a release goes to the object"),
    }
}

#[test]
fn borrowed_path_retains_then_releases() {
    let mut r = ObjectRef::adopt_borrowed(handle(0x2000, "NSString"));
    assert!(!r.is_owning());
    let op = r.retain();
    assert_eq!(op_address(&op), (true, 0x2000));
    assert_eq!(op.to_message().selector.name, "retain");
    assert!(r.is_owning());
    let end = r.release().expect("a retained wrapper releases");
    assert_eq!(op_address(&end), (false, 0x2000));
}

#[test]
fn borrowed_without_retain_releases_nothing() {
    let r = ObjectRef::adopt_borrowed(handle(0x2100, "NSString"));
    assert!(r.release().is_none());
}

#[test]
fn share_adds_one_and_leaves_original() {
    let original = ObjectRef::adopt_owned(handle(0x3000, "NSNumber"));
    let (clone, op) = original.share();
    assert_eq!(op_address(&op), (true, 0x3000));
    assert!(clone.is_owning());
    assert_eq!(clone.handle().address, 0x3000);
    assert_eq!(clone.handle().class_tag.name, "NSNumber");
    let clone_end = clone.release().unwrap();
    assert_eq!(op_address(&clone_end), (false, 0x3000));
    assert!(original.is_owning());
    assert_eq!(original.handle().address, 0x3000);
    let original_end = original.release().unwrap();
    assert_eq!(op_address(&original_end), (false, 0x3000));
}

#[test]
fn share_of_borrowed_wrapper_owns() {
    let borrowed = ObjectRef::adopt_borrowed(handle(0x3100, "NSNumber"));
    let (clone, op) = borrowed.share();
    assert_eq!(op_address(&op), (true, 0x3100));
    assert!(clone.is_owning());
    assert!(!borrowed.is_owning());
}

#[test]
fn method_families_follow_naming_convention() {
    assert_eq!(method_family("alloc"), MethodFamily::Alloc);
    assert_eq!(method_family("allocWithZone:"), MethodFamily::Alloc);
    assert_eq!(method_family("copy"), MethodFamily::Copy);
    assert_eq!(method_family("copyWithZone:"), MethodFamily::Copy);
    assert_eq!(method_family("copyright"), MethodFamily::Plain);
    assert_eq!(method_family("mutableCopy"), MethodFamily::MutableCopy);
    assert_eq!(method_family("mutableCopyWithZone:"), MethodFamily::MutableCopy);
    assert_eq!(method_family("new"), MethodFamily::New);
    assert_eq!(method_family("newObject"), MethodFamily::New);
    assert_eq!(method_family("newsletter"), MethodFamily::Plain);
    assert_eq!(method_family("_newObject"), MethodFamily::New);
    assert_eq!(method_family("__copy"), MethodFamily::Copy);
    assert_eq!(method_family("init"), MethodFamily::Init);
    assert_eq!(method_family("initWithDictionary:"), MethodFamily::Init);
    assert_eq!(method_family("initialize"), MethodFamily::Plain);
    assert_eq!(method_family("dictionary"), MethodFamily::Plain);
    assert_eq!(method_family("objectForKey:"), MethodFamily::Plain);
    assert_eq!(method_family(""), MethodFamily::Plain);
    assert_eq!(method_family("___"), MethodFamily::Plain);
    assert_eq!(method_family("new:"), MethodFamily::New);
    assert_eq!(method_family("copy2"), MethodFamily::Copy);
    assert!(returns_retained("new"));
    assert!(!returns_retained("count"));
}

#[test]
fn adopt_result_owns_construction_results() {
    let (obj, op) = adopt_result("new", Value::Object(handle(0x4000, "NSDictionary")));
    let obj = obj.unwrap();
    assert!(obj.is_owning());
    assert!(op.is_none());
    assert_eq!(obj.handle().address, 0x4000);
}

#[test]
fn adopt_result_retains_accessor_results() {
    let (obj, op) = adopt_result("dictionary", Value::Object(handle(0x4100, "NSDictionary")));
    assert!(obj.unwrap().is_owning());
    assert_eq!(op_address(&op.unwrap()), (true, 0x4100));
}

#[test]
fn adopt_result_of_nil_is_empty() {
    let (obj, op) = adopt_result("objectForKey:", Value::Nil);
    assert!(obj.is_none());
    assert!(op.is_none());
}
