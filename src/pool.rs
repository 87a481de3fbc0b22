//! Autorelease pools.
use crate::ownership::{ObjectRef, ObjectRefView};
use crate::runtime::{ClassTag, Handle, HandleView};
use crate::traits::{FromId, INSAutoreleasePool, INSObject, PNSObject, ToId};
use vstd::prelude::*;

verus! {

/// A pool of objects that are released together when it drains.
pub struct NSAutoreleasePool {
    ptr: ObjectRef,
}

impl ToId for NSAutoreleasePool {
    closed spec fn id_view(&self) -> ObjectRefView {
        self.ptr@
    }

    fn as_id(&self) -> (r: &ObjectRef) {
        &self.ptr
    }

    fn to_id(self) -> (r: ObjectRef) {
        self.ptr
    }
}

impl FromId for NSAutoreleasePool {
    fn from_id(obj: ObjectRef) -> (r: Self) {
        NSAutoreleasePool { ptr: obj }
    }
}

impl PNSObject for NSAutoreleasePool {
    closed spec fn self_view(&self) -> HandleView {
        self.ptr@.handle
    }

    open spec fn class_view() -> Seq<char> {
        "NSAutoreleasePool"@
    }

    fn im_class() -> (c: ClassTag) {
        ClassTag::named("NSAutoreleasePool")
    }

    fn im_self(&self) -> (h: Handle) {
        self.ptr.handle().duplicate()
    }
}

impl INSObject for NSAutoreleasePool {

}

impl INSAutoreleasePool for NSAutoreleasePool {

}

} // verus!
