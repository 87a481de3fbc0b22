//! A static ordered collection of objects, held in the foreign runtime; the
//! wrapper caches none of its contents.
use crate::ownership::{ObjectRef, ObjectRefView};
use crate::runtime::{
    handle_views, message_to, no_args, one_arg, two_args, ClassTag, Encoding, Handle, HandleView, Message,
    ReceiverView, Value, ValueView,
};
use crate::traits::{instance_message, FromId, PNSObject, ToId};
use std::marker::PhantomData;
use vstd::prelude::*;

verus! {

/// The index the runtime answers with when an object is not found.
pub const NS_NOT_FOUND: u64 = 0x7fff_ffff_ffff_ffff;

/// A static ordered collection of objects.
pub struct Array<T> {
    ptr: ObjectRef,
    _marker: PhantomData<T>,
}

/// The runtime's name for an ordered collection.
pub type NSArray<T> = Array<T>;

impl<T> ToId for Array<T> {
    closed spec fn id_view(&self) -> ObjectRefView {
        self.ptr@
    }

    fn as_id(&self) -> (r: &ObjectRef) {
        &self.ptr
    }

    fn to_id(self) -> (r: ObjectRef) {
        self.ptr
    }
}

impl<T> FromId for Array<T> {
    fn from_id(obj: ObjectRef) -> (r: Self) {
        Array { ptr: obj, _marker: PhantomData }
    }
}

impl<T> PNSObject for Array<T> {
    closed spec fn self_view(&self) -> HandleView {
        self.ptr@.handle
    }

    open spec fn class_view() -> Seq<char> {
        "NSArray"@
    }

    fn im_class() -> (c: ClassTag) {
        ClassTag::named("NSArray")
    }

    fn im_self(&self) -> (h: Handle) {
        self.ptr.handle().duplicate()
    }
}

/// The handles of the objects `objects` stands for, in order.
pub open spec fn handles_of<T: PNSObject>(objects: Seq<T>) -> Seq<HandleView> {
    objects.map_values(|t: T| t.self_view())
}

/// The handles of `objects`, in order.
fn collect_handles<T: PNSObject>(objects: &[T]) -> (r: Vec<Handle>)
    ensures
        handle_views(r@) == handles_of(objects@),
{
    let mut r: Vec<Handle> = Vec::new();
    let mut i: usize = 0;
    while i < objects.len()
        invariant
            i <= objects@.len(),
            r@.len() == i,
            handle_views(r@) == handles_of(objects@.take(i as int)),
        decreases objects@.len() - i,
    {
        let ghost before = r@;
        let h = objects[i].im_self();
        r.push(h);
        proof {
            let next = objects@.take(i + 1);
            assert(r@ == before.push(h));
            assert(h@ == objects@[i as int].self_view());
            assert forall|j: int| 0 <= j < i + 1 implies #[trigger] handle_views(r@)[j]
                == handles_of(next)[j] by {
                if j < i {
                    assert(r@[j] == before[j]);
                    assert(handle_views(before)[j] == handles_of(
                        objects@.take(i as int),
                    )[j]);
                    assert(objects@.take(i as int)[j] == next[j]);
                } else {
                    assert(r@[j] == h);
                    assert(next[j] == objects@[i as int]);
                }
            }
            assert(handle_views(r@) =~= handles_of(next));
        }
        i = i + 1;
    }
    assert(objects@.take(objects@.len() as int) =~= objects@);
    r
}

impl<T> Array<T> {
    /// Asks the class for an array holding `objects`, in order.
    pub fn from_objects(objects: &[T]) -> (m: Message)
        where
            T: PNSObject,
        ensures
            m@ == message_to(
                ReceiverView::Class("NSArray"@),
                "arrayWithObjects:count:"@,
                seq![ValueView::Objects(handles_of(objects@)), ValueView::UInt(objects@.len() as u64)],
                Encoding::Object,
            ),
    {
        let handles = collect_handles(objects);
        let n = objects.len() as u64;
        Message::to_class(
            &Self::im_class(),
            "arrayWithObjects:count:",
            two_args(Value::Objects(handles), Value::UInt(n)),
            Encoding::Object,
        )
    }

    /// Asks the class for an empty array.
    pub fn init() -> (m: Message)
        ensures
            m@ == message_to(
                ReceiverView::Class("NSArray"@),
                "array"@,
                Seq::empty(),
                Encoding::Object,
            ),
    {
        Message::to_class(&Self::im_class(), "array", no_args(), Encoding::Object)
    }

    /// The requests for the objects at indexes `0..count`, in order: how the
    /// array is walked once its count has been read back.
    pub fn object_requests(&self, count: u64) -> (ms: Vec<Message>)
        ensures
            ms@.len() == count,
            forall|i: int|
                0 <= i < count ==> (#[trigger] ms@[i])@ == instance_message(
                    self.self_view(),
                    "objectAtIndex:"@,
                    seq![ValueView::UInt(i as u64)],
                    Encoding::Object,
                ),
    {
        let mut ms: Vec<Message> = Vec::new();
        let mut i: u64 = 0;
        while i < count
            invariant
                i <= count,
                ms@.len() == i,
                forall|j: int|
                    0 <= j < i ==> (#[trigger] ms@[j])@ == instance_message(
                        self.self_view(),
                        "objectAtIndex:"@,
                        seq![ValueView::UInt(j as u64)],
                        Encoding::Object,
                    ),
            decreases count - i,
        {
            ms.push(self.object_at(i));
            i = i + 1;
        }
        ms
    }

    /// Asks whether `object` is in the array.
    pub fn contains(&self, object: &T) -> (m: Message)
        where
            T: PNSObject,
        ensures
            m@ == instance_message(
                self.self_view(),
                "containsObject:"@,
                seq![ValueView::Object(object.self_view())],
                Encoding::Bool,
            ),
    {
        Message::to_instance(
            &self.im_self(),
            "containsObject:",
            one_arg(Value::Object(object.im_self())),
            Encoding::Bool,
        )
    }

    /// Asks for the number of objects in the array.
    pub fn count(&self) -> (m: Message)
        ensures
            m@ == instance_message(self.self_view(), "count"@, Seq::empty(), Encoding::UInt),
    {
        Message::to_instance(&self.im_self(), "count", no_args(), Encoding::UInt)
    }

    /// Asks for the first object; nil for an empty array.
    pub fn first_object(&self) -> (m: Message)
        ensures
            m@ == instance_message(self.self_view(), "firstObject"@, Seq::empty(), Encoding::Object),
    {
        Message::to_instance(&self.im_self(), "firstObject", no_args(), Encoding::Object)
    }

    /// Asks for the last object; nil for an empty array.
    pub fn last_object(&self) -> (m: Message)
        ensures
            m@ == instance_message(self.self_view(), "lastObject"@, Seq::empty(), Encoding::Object),
    {
        Message::to_instance(&self.im_self(), "lastObject", no_args(), Encoding::Object)
    }

    /// Asks for the object at `index`.
    pub fn object_at(&self, index: u64) -> (m: Message)
        ensures
            m@ == instance_message(
                self.self_view(),
                "objectAtIndex:"@,
                seq![ValueView::UInt(index)],
                Encoding::Object,
            ),
    {
        Message::to_instance(&self.im_self(), "objectAtIndex:", one_arg(Value::UInt(index)), Encoding::Object)
    }

    /// Asks for the object at `index`, by subscript.
    pub fn object_at_indexed_subscript(&self, index: u64) -> (m: Message)
        ensures
            m@ == instance_message(
                self.self_view(),
                "objectAtIndexedSubscript:"@,
                seq![ValueView::UInt(index)],
                Encoding::Object,
            ),
    {
        Message::to_instance(
            &self.im_self(),
            "objectAtIndexedSubscript:",
            one_arg(Value::UInt(index)),
            Encoding::Object,
        )
    }

    /// Asks for the lowest index of an object equal to `object`.
    pub fn index_of(&self, object: &T) -> (m: Message)
        where
            T: PNSObject,
        ensures
            m@ == instance_message(
                self.self_view(),
                "indexOfObject:"@,
                seq![ValueView::Object(object.self_view())],
                Encoding::UInt,
            ),
    {
        Message::to_instance(
            &self.im_self(),
            "indexOfObject:",
            one_arg(Value::Object(object.im_self())),
            Encoding::UInt,
        )
    }

    /// Asks for the lowest index within `location..location + length` of an
    /// object equal to `object`.
    pub fn index_of_object_in_range(&self, object: &T, location: u64, length: u64) -> (m: Message)
        where
            T: PNSObject,
        ensures
            m@ == instance_message(
                self.self_view(),
                "indexOfObject:inRange:"@,
                seq![ValueView::Object(object.self_view()), ValueView::Range(location, length)],
                Encoding::UInt,
            ),
    {
        Message::to_instance(
            &self.im_self(),
            "indexOfObject:inRange:",
            two_args(Value::Object(object.im_self()), Value::Range(location, length)),
            Encoding::UInt,
        )
    }

    /// Asks for the lowest index of `object` itself.
    pub fn index_of_object_identical_to(&self, object: &T) -> (m: Message)
        where
            T: PNSObject,
        ensures
            m@ == instance_message(
                self.self_view(),
                "indexOfObjectIdenticalTo:"@,
                seq![ValueView::Object(object.self_view())],
                Encoding::UInt,
            ),
    {
        Message::to_instance(
            &self.im_self(),
            "indexOfObjectIdenticalTo:",
            one_arg(Value::Object(object.im_self())),
            Encoding::UInt,
        )
    }

    /// Asks for the lowest index within `location..location + length` of
    /// `object` itself.
    pub fn index_of_object_identical_to_in_range(&self, object: &T, location: u64, length: u64) -> (m:
        Message)
        where
            T: PNSObject,
        ensures
            m@ == instance_message(
                self.self_view(),
                "indexOfObjectIdenticalTo:inRange:"@,
                seq![ValueView::Object(object.self_view()), ValueView::Range(location, length)],
                Encoding::UInt,
            ),
    {
        Message::to_instance(
            &self.im_self(),
            "indexOfObjectIdenticalTo:inRange:",
            two_args(Value::Object(object.im_self()), Value::Range(location, length)),
            Encoding::UInt,
        )
    }

    /// Asks for the first object of this array that is also in `other`; nil
    /// where there is none.
    pub fn first_object_common_with(&self, other: &Array<T>) -> (m: Message)
        ensures
            m@ == instance_message(
                self.self_view(),
                "firstObjectCommonWithArray:"@,
                seq![ValueView::Object(other.self_view())],
                Encoding::Object,
            ),
    {
        Message::to_instance(
            &self.im_self(),
            "firstObjectCommonWithArray:",
            one_arg(Value::Object(other.im_self())),
            Encoding::Object,
        )
    }

    /// Asks whether this array and `other` hold equal objects in the same order.
    pub fn is_equal_to(&self, other: &Array<T>) -> (m: Message)
        ensures
            m@ == instance_message(
                self.self_view(),
                "isEqualToArray:"@,
                seq![ValueView::Object(other.self_view())],
                Encoding::Bool,
            ),
    {
        Message::to_instance(
            &self.im_self(),
            "isEqualToArray:",
            one_arg(Value::Object(other.im_self())),
            Encoding::Bool,
        )
    }

    /// Asks for a new array: this one with `object` added at the end.
    pub fn adding(&self, object: &T) -> (m: Message)
        where
            T: PNSObject,
        ensures
            m@ == instance_message(
                self.self_view(),
                "arrayByAddingObject:"@,
                seq![ValueView::Object(object.self_view())],
                Encoding::Object,
            ),
    {
        Message::to_instance(
            &self.im_self(),
            "arrayByAddingObject:",
            one_arg(Value::Object(object.im_self())),
            Encoding::Object,
        )
    }

    /// Asks for a new array: this one with the objects of `objects` added.
    pub fn adding_objects(&self, objects: &Array<T>) -> (m: Message)
        ensures
            m@ == instance_message(
                self.self_view(),
                "arrayByAddingObjectsFromArray:"@,
                seq![ValueView::Object(objects.self_view())],
                Encoding::Object,
            ),
    {
        Message::to_instance(
            &self.im_self(),
            "arrayByAddingObjectsFromArray:",
            one_arg(Value::Object(objects.im_self())),
            Encoding::Object,
        )
    }

    /// Asks for a new array of the objects in `location..location + length`.
    pub fn subarray_with_range(&self, location: u64, length: u64) -> (m: Message)
        ensures
            m@ == instance_message(
                self.self_view(),
                "subarrayWithRange:"@,
                seq![ValueView::Range(location, length)],
                Encoding::Object,
            ),
    {
        Message::to_instance(
            &self.im_self(),
            "subarrayWithRange:",
            one_arg(Value::Range(location, length)),
            Encoding::Object,
        )
    }

    /// Asks for a description of the array formatted for the locale object
    /// `locale`.
    pub fn description_with_locale(&self, locale: &Handle) -> (m: Message)
        ensures
            m@ == instance_message(
                self.self_view(),
                "descriptionWithLocale:"@,
                seq![ValueView::Object(locale@)],
                Encoding::Object,
            ),
    {
        Message::to_instance(
            &self.im_self(),
            "descriptionWithLocale:",
            one_arg(Value::Object(locale.duplicate())),
            Encoding::Object,
        )
    }

    /// Asks for a description of the array formatted for `locale`, indented
    /// `indent` levels.
    pub fn description_with_locale_indent(&self, locale: &Handle, indent: u64) -> (m: Message)
        ensures
            m@ == instance_message(
                self.self_view(),
                "descriptionWithLocale:indent:"@,
                seq![ValueView::Object(locale@), ValueView::UInt(indent)],
                Encoding::Object,
            ),
    {
        Message::to_instance(
            &self.im_self(),
            "descriptionWithLocale:indent:",
            two_args(Value::Object(locale.duplicate()), Value::UInt(indent)),
            Encoding::Object,
        )
    }
}

/// The index a reply to an index request holds: `None` where the object was
/// not found, or where the reply is not an unsigned integer.
pub fn index_from_reply(reply: &Value) -> (r: Option<u64>)
    ensures
        match reply@ {
            ValueView::UInt(u) => r == (if u == NS_NOT_FOUND {
                None
            } else {
                Some(u)
            }),
            _ => r.is_none(),
        },
{
    match reply {
        Value::UInt(u) => {
            if *u == NS_NOT_FOUND {
                None
            } else {
                Some(*u)
            }
        },
        _ => None,
    }
}

} // verus!
