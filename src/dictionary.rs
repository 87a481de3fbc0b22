//! A static collection of objects associated with unique keys, held in the
//! foreign runtime; the wrapper caches none of its contents.
use crate::array::Array;
use crate::ownership::{ObjectRef, ObjectRefView};
use crate::runtime::{
    message_to, ClassTag, Encoding, Handle, HandleView, Message, ReceiverView, Value, ValueView,
};
use crate::traits::{instance_message, FromId, INSObject, PNSObject, ToId};
use std::marker::PhantomData;
use crate::runtime::{no_args, one_arg, two_args};
use vstd::prelude::*;

verus! {

/// The methods of foreign dictionaries.
pub trait INSDictionary<K, V>: PNSObject {
    /// Asks for the number of entries in the dictionary.
    fn ip_count(&self) -> (m: Message)
        ensures
            m@ == instance_message(self.self_view(), "count"@, Seq::empty(), Encoding::UInt),
    {
        Message::to_instance(&self.im_self(), "count", no_args(), Encoding::UInt)
    }

    /// Asks for the value associated with `key`; nil where there is none.
    fn im_object_for_key(&self, key: &K) -> (m: Message)
        where
            K: PNSObject,
        ensures
            m@ == instance_message(
                self.self_view(),
                "objectForKey:"@,
                seq![ValueView::Object(key.self_view())],
                Encoding::Object,
            ),
    {
        Message::to_instance(&self.im_self(), "objectForKey:", one_arg(Value::Object(key.im_self())), Encoding::Object)
    }
}

/// A static collection of objects associated with unique keys.
pub struct NSDictionary<K, V> {
    ptr: ObjectRef,
    _key: PhantomData<K>,
    _value: PhantomData<V>,
}

impl<K, V> ToId for NSDictionary<K, V> {
    closed spec fn id_view(&self) -> ObjectRefView {
        self.ptr@
    }

    fn as_id(&self) -> (r: &ObjectRef) {
        &self.ptr
    }

    fn to_id(self) -> (r: ObjectRef) {
        self.ptr
    }
}

impl<K, V> FromId for NSDictionary<K, V> {
    fn from_id(obj: ObjectRef) -> (r: Self) {
        NSDictionary { ptr: obj, _key: PhantomData, _value: PhantomData }
    }
}

impl<K, V> PNSObject for NSDictionary<K, V> {
    closed spec fn self_view(&self) -> HandleView {
        self.ptr@.handle
    }

    open spec fn class_view() -> Seq<char> {
        "NSDictionary"@
    }

    fn im_class() -> (c: ClassTag) {
        ClassTag::named("NSDictionary")
    }

    fn im_self(&self) -> (h: Handle) {
        self.ptr.handle().duplicate()
    }
}

impl<K, V> INSObject for NSDictionary<K, V> {

}

impl<K, V> INSDictionary<K, V> for NSDictionary<K, V> {

}

impl<K, V> NSDictionary<K, V> {
    /// Asks the class for an empty dictionary. The reply is not owned by the
    /// caller: adopting it takes a retain.
    pub fn new() -> (m: Message)
        ensures
            m@ == message_to(
                ReceiverView::Class("NSDictionary"@),
                "dictionary"@,
                Seq::empty(),
                Encoding::Object,
            ),
    {
        Message::to_class(&Self::im_class(), "dictionary", no_args(), Encoding::Object)
    }

    /// Asks the class for a dictionary whose values are `objects` and whose
    /// keys are `keys`, paired in order.
    pub fn dictionary_with_objects(objects: &Array<V>, keys: &Array<K>) -> (m: Message)
        ensures
            m@ == message_to(
                ReceiverView::Class("NSDictionary"@),
                "dictionaryWithObjects:forKeys:"@,
                seq![ValueView::Object(objects.self_view()), ValueView::Object(keys.self_view())],
                Encoding::Object,
            ),
    {
        Message::to_class(
            &Self::im_class(),
            "dictionaryWithObjects:forKeys:",
            two_args(Value::Object(objects.im_self()), Value::Object(keys.im_self())),
            Encoding::Object,
        )
    }

    /// Asks for a mutable copy of this dictionary, which the caller owns.
    pub fn as_mut_dictionary(&self) -> (m: Message)
        ensures
            m@ == instance_message(self.self_view(), "mutableCopy"@, Seq::empty(), Encoding::Object),
    {
        Message::to_instance(&self.im_self(), "mutableCopy", no_args(), Encoding::Object)
    }

    /// Asks for the number of entries in the dictionary.
    pub fn count(&self) -> (m: Message)
        ensures
            m@ == instance_message(self.self_view(), "count"@, Seq::empty(), Encoding::UInt),
    {
        self.ip_count()
    }

    /// Asks for the value associated with `key`.
    pub fn object_for_key(&self, key: &K) -> (m: Message)
        where
            K: PNSObject,
        ensures
            m@ == instance_message(
                self.self_view(),
                "objectForKey:"@,
                seq![ValueView::Object(key.self_view())],
                Encoding::Object,
            ),
    {
        self.im_object_for_key(key)
    }
}


/// The message that associates the object `value` with the object `key` in
/// the dictionary `dict`.
pub open spec fn set_object_message(dict: HandleView, key: HandleView, value: HandleView) -> crate::runtime::MessageView {
    instance_message(
        dict,
        "setObject:forKey:"@,
        seq![ValueView::Object(value), ValueView::Object(key)],
        Encoding::Void,
    )
}

/// Another name for a static dictionary.
pub type Dictionary<K, V> = NSDictionary<K, V>;

/// A dynamic collection of objects associated with unique keys. Every edit is
/// a message to the foreign object; the wrapper's own handle and retain never
/// change.
pub struct NSMutableDictionary<K, V> {
    ptr: ObjectRef,
    _key: PhantomData<K>,
    _value: PhantomData<V>,
}

/// Another name for a dynamic dictionary.
pub type MutableDictionary<K, V> = NSMutableDictionary<K, V>;

impl<K, V> ToId for NSMutableDictionary<K, V> {
    closed spec fn id_view(&self) -> ObjectRefView {
        self.ptr@
    }

    fn as_id(&self) -> (r: &ObjectRef) {
        &self.ptr
    }

    fn to_id(self) -> (r: ObjectRef) {
        self.ptr
    }
}

impl<K, V> FromId for NSMutableDictionary<K, V> {
    fn from_id(obj: ObjectRef) -> (r: Self) {
        NSMutableDictionary { ptr: obj, _key: PhantomData, _value: PhantomData }
    }
}

impl<K, V> PNSObject for NSMutableDictionary<K, V> {
    closed spec fn self_view(&self) -> HandleView {
        self.ptr@.handle
    }

    open spec fn class_view() -> Seq<char> {
        "NSMutableDictionary"@
    }

    fn im_class() -> (c: ClassTag) {
        ClassTag::named("NSMutableDictionary")
    }

    fn im_self(&self) -> (h: Handle) {
        self.ptr.handle().duplicate()
    }
}

impl<K, V> INSObject for NSMutableDictionary<K, V> {

}

impl<K, V> INSDictionary<K, V> for NSMutableDictionary<K, V> {

}

impl<K, V> NSMutableDictionary<K, V> {
    /// Asks the class for an empty dictionary, which the caller owns.
    pub fn new() -> (m: Message)
        ensures
            m@ == message_to(
                ReceiverView::Class("NSMutableDictionary"@),
                "new"@,
                Seq::empty(),
                Encoding::Object,
            ),
    {
        Message::to_class(&Self::im_class(), "new", no_args(), Encoding::Object)
    }

    /// Asks the class to allocate a dictionary, to be initialized next.
    pub fn allocate() -> (m: Message)
        ensures
            m@ == message_to(
                ReceiverView::Class("NSMutableDictionary"@),
                "alloc"@,
                Seq::empty(),
                Encoding::Object,
            ),
    {
        Message::to_class(&Self::im_class(), "alloc", no_args(), Encoding::Object)
    }

    /// Asks the allocated dictionary `allocated` to initialize itself empty.
    /// The allocation's retain passes to the call, which hands a retained
    /// dictionary back.
    pub fn init(allocated: ObjectRef) -> (m: Message)
        requires
            allocated@.owning,
        ensures
            m@ == instance_message(allocated@.handle, "init"@, Seq::empty(), Encoding::Object),
    {
        let target = allocated.hand_over();
        Message::to_instance(&target, "init", no_args(), Encoding::Object)
    }

    /// Asks the allocated dictionary `allocated` to initialize itself with the
    /// entries of `dictionary`. The allocation's retain passes to the call.
    pub fn init_with_dictionary(allocated: ObjectRef, dictionary: &NSDictionary<K, V>) -> (m:
        Message)
        requires
            allocated@.owning,
        ensures
            m@ == instance_message(
                allocated@.handle,
                "initWithDictionary:"@,
                seq![ValueView::Object(dictionary.self_view())],
                Encoding::Object,
            ),
    {
        let target = allocated.hand_over();
        Message::to_instance(
            &target,
            "initWithDictionary:",
            one_arg(Value::Object(dictionary.im_self())),
            Encoding::Object,
        )
    }

    /// Asks the dictionary to associate `value` with `key`.
    pub fn set_object(&mut self, key: &K, value: &V) -> (m: Message)
        where
            K: PNSObject,
            V: PNSObject,
        ensures
            final(self).id_view() == old(self).id_view(),
            m@ == set_object_message(old(self).self_view(), key.self_view(), value.self_view()),
    {
        Message::to_instance(
            &self.im_self(),
            "setObject:forKey:",
            two_args(Value::Object(value.im_self()), Value::Object(key.im_self())),
            Encoding::Void,
        )
    }

    /// Asks the dictionary to associate `value` with `key`, by subscript.
    pub fn set_object_for_keyed_superscript(&mut self, key: &K, value: &V) -> (m: Message)
        where
            K: PNSObject,
            V: PNSObject,
        ensures
            final(self).id_view() == old(self).id_view(),
            m@ == instance_message(
                old(self).self_view(),
                "setObject:forKeyedSubscript:"@,
                seq![ValueView::Object(value.self_view()), ValueView::Object(key.self_view())],
                Encoding::Void,
            ),
    {
        Message::to_instance(
            &self.im_self(),
            "setObject:forKeyedSubscript:",
            two_args(Value::Object(value.im_self()), Value::Object(key.im_self())),
            Encoding::Void,
        )
    }

    /// Asks the dictionary to associate `value` with the string key `key`,
    /// by key-value coding.
    pub fn set_value(&mut self, key: &Handle, value: &V) -> (m: Message)
        where
            V: PNSObject,
        ensures
            final(self).id_view() == old(self).id_view(),
            m@ == instance_message(
                old(self).self_view(),
                "setValue:forKey:"@,
                seq![ValueView::Object(value.self_view()), ValueView::Object(key@)],
                Encoding::Void,
            ),
    {
        Message::to_instance(
            &self.im_self(),
            "setValue:forKey:",
            two_args(Value::Object(value.im_self()), Value::Object(key.duplicate())),
            Encoding::Void,
        )
    }

    /// Asks the dictionary to add the entries of `dictionary`.
    pub fn add_entries_from_dictionary(&mut self, dictionary: &NSDictionary<K, V>) -> (m: Message)
        ensures
            final(self).id_view() == old(self).id_view(),
            m@ == instance_message(
                old(self).self_view(),
                "addEntriesFromDictionary:"@,
                seq![ValueView::Object(dictionary.self_view())],
                Encoding::Void,
            ),
    {
        Message::to_instance(
            &self.im_self(),
            "addEntriesFromDictionary:",
            one_arg(Value::Object(dictionary.im_self())),
            Encoding::Void,
        )
    }

    /// Asks the dictionary to hold exactly the entries of `dictionary`.
    pub fn set_dictionary(&mut self, dictionary: &NSDictionary<K, V>) -> (m: Message)
        ensures
            final(self).id_view() == old(self).id_view(),
            m@ == instance_message(
                old(self).self_view(),
                "setDictionary:"@,
                seq![ValueView::Object(dictionary.self_view())],
                Encoding::Void,
            ),
    {
        Message::to_instance(
            &self.im_self(),
            "setDictionary:",
            one_arg(Value::Object(dictionary.im_self())),
            Encoding::Void,
        )
    }

    /// Asks the dictionary to remove `key` and its value.
    pub fn remove_object_for_key(&mut self, key: &K) -> (m: Message)
        where
            K: PNSObject,
        ensures
            final(self).id_view() == old(self).id_view(),
            m@ == instance_message(
                old(self).self_view(),
                "removeObjectForKey:"@,
                seq![ValueView::Object(key.self_view())],
                Encoding::Void,
            ),
    {
        Message::to_instance(
            &self.im_self(),
            "removeObjectForKey:",
            one_arg(Value::Object(key.im_self())),
            Encoding::Void,
        )
    }

    /// Asks the dictionary to remove all its entries.
    pub fn remove_all_objects(&mut self) -> (m: Message)
        ensures
            final(self).id_view() == old(self).id_view(),
            m@ == instance_message(
                old(self).self_view(),
                "removeAllObjects"@,
                Seq::empty(),
                Encoding::Void,
            ),
    {
        Message::to_instance(&self.im_self(), "removeAllObjects", no_args(), Encoding::Void)
    }

    /// Asks the dictionary to remove the entries whose keys are in `keys`.
    pub fn remove_objects_for_keys(&mut self, keys: &Array<K>) -> (m: Message)
        ensures
            final(self).id_view() == old(self).id_view(),
            m@ == instance_message(
                old(self).self_view(),
                "removeObjectsForKeys:"@,
                seq![ValueView::Object(keys.self_view())],
                Encoding::Void,
            ),
    {
        Message::to_instance(
            &self.im_self(),
            "removeObjectsForKeys:",
            one_arg(Value::Object(keys.im_self())),
            Encoding::Void,
        )
    }

    /// Asks the dictionary to take every entry of `entries`, one
    /// `setObject:forKey:` message per entry, in order; a later entry with an
    /// equal key replaces an earlier one.
    pub fn set_entries(&mut self, entries: &[(K, V)]) -> (ms: Vec<Message>)
        where
            K: PNSObject,
            V: PNSObject,
        ensures
            final(self).id_view() == old(self).id_view(),
            ms@.len() == entries@.len(),
            forall|i: int|
                0 <= i < entries@.len() ==> (#[trigger] ms@[i])@ == set_object_message(
                    old(self).self_view(),
                    entries@[i].0.self_view(),
                    entries@[i].1.self_view(),
                ),
    {
        let mut ms: Vec<Message> = Vec::new();
        let mut i: usize = 0;
        while i < entries.len()
            invariant
                i <= entries@.len(),
                ms@.len() == i,
                self.id_view() == old(self).id_view(),
                forall|j: int|
                    0 <= j < i ==> (#[trigger] ms@[j])@ == set_object_message(
                        old(self).self_view(),
                        entries@[j].0.self_view(),
                        entries@[j].1.self_view(),
                    ),
            decreases entries@.len() - i,
        {
            let m = self.set_object(&entries[i].0, &entries[i].1);
            ms.push(m);
            i = i + 1;
        }
        ms
    }

    /// Asks the class for a static dictionary with the entries of `dict`.
    pub fn to_dictionary(dict: &NSMutableDictionary<K, V>) -> (m: Message)
        ensures
            m@ == message_to(
                ReceiverView::Class("NSDictionary"@),
                "dictionaryWithDictionary:"@,
                seq![ValueView::Object(dict.self_view())],
                Encoding::Object,
            ),
    {
        Message::to_class(
            &ClassTag::named("NSDictionary"),
            "dictionaryWithDictionary:",
            one_arg(Value::Object(dict.im_self())),
            Encoding::Object,
        )
    }
}

} // verus!
