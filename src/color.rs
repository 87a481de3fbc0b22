//! Color spaces.
use crate::ownership::{ObjectRef, ObjectRefView};
use crate::runtime::{ClassTag, Handle, HandleView};
use crate::traits::{FromId, PNSObject, ToId};
use vstd::prelude::*;

verus! {

/// An object that represents a custom color space.
pub struct NSColorSpace {
    ptr: ObjectRef,
}

impl ToId for NSColorSpace {
    closed spec fn id_view(&self) -> ObjectRefView {
        self.ptr@
    }

    fn as_id(&self) -> (r: &ObjectRef) {
        &self.ptr
    }

    fn to_id(self) -> (r: ObjectRef) {
        self.ptr
    }
}

impl FromId for NSColorSpace {
    fn from_id(obj: ObjectRef) -> (r: Self) {
        NSColorSpace { ptr: obj }
    }
}

impl PNSObject for NSColorSpace {
    closed spec fn self_view(&self) -> HandleView {
        self.ptr@.handle
    }

    open spec fn class_view() -> Seq<char> {
        "NSColorSpace"@
    }

    fn im_class() -> (c: ClassTag) {
        ClassTag::named("NSColorSpace")
    }

    fn im_self(&self) -> (h: Handle) {
        self.ptr.handle().duplicate()
    }
}

} // verus!
