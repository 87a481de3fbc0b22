//! Strings with attributes, and the plain strings they are made from.
use crate::dictionary::NSDictionary;
use crate::marshal::{init_string, init_string_message, utf8_contents};
use crate::ownership::{ObjectRef, ObjectRefView};
use crate::runtime::{
    four_args, message_to, no_args, one_arg, three_args, two_args, ClassTag, Encoding, Handle, HandleView, Message,
    ReceiverView, Value, ValueView,
};
use crate::traits::{instance_message, FromId, INSObject, PNSObject, ToId};
use vstd::prelude::*;

verus! {

/// A static string held in the foreign runtime.
pub struct NSString {
    ptr: ObjectRef,
}

impl ToId for NSString {
    closed spec fn id_view(&self) -> ObjectRefView {
        self.ptr@
    }

    fn as_id(&self) -> (r: &ObjectRef) {
        &self.ptr
    }

    fn to_id(self) -> (r: ObjectRef) {
        self.ptr
    }
}

impl FromId for NSString {
    fn from_id(obj: ObjectRef) -> (r: Self) {
        NSString { ptr: obj }
    }
}

impl PNSObject for NSString {
    closed spec fn self_view(&self) -> HandleView {
        self.ptr@.handle
    }

    open spec fn class_view() -> Seq<char> {
        "NSString"@
    }

    fn im_class() -> (c: ClassTag) {
        ClassTag::named("NSString")
    }

    fn im_self(&self) -> (h: Handle) {
        self.ptr.handle().duplicate()
    }
}

impl INSObject for NSString {

}

impl NSString {
    /// Asks the class to allocate a string, to be initialized next.
    pub fn allocate() -> (m: Message)
        ensures
            m@ == message_to(
                ReceiverView::Class("NSString"@),
                "alloc"@,
                Seq::empty(),
                Encoding::Object,
            ),
    {
        Message::to_class(&Self::im_class(), "alloc", no_args(), Encoding::Object)
    }

    /// Asks the allocated string `allocated` to hold a copy of `s`. The
    /// allocation's retain passes to the call, which hands a retained string
    /// back.
    pub fn init_with_str(allocated: ObjectRef, s: &str) -> (m: Message)
        requires
            allocated@.owning,
        ensures
            m@ == init_string_message(allocated@.handle, s@),
    {
        init_string(allocated, s)
    }

    /// Asks for the string's contents as UTF-8 bytes, which the caller copies.
    pub fn utf8_string(&self) -> (m: Message)
        ensures
            m@ == instance_message(self.self_view(), "UTF8String"@, Seq::empty(), Encoding::Bytes),
    {
        utf8_contents(&self.ptr)
    }

    /// Asks for the number of UTF-16 code units in the string.
    pub fn length(&self) -> (m: Message)
        ensures
            m@ == instance_message(self.self_view(), "length"@, Seq::empty(), Encoding::UInt),
    {
        Message::to_instance(&self.im_self(), "length", no_args(), Encoding::UInt)
    }
}

/// A string with associated attributes for portions of its text.
pub struct NSAttributedString {
    ptr: ObjectRef,
}

impl ToId for NSAttributedString {
    closed spec fn id_view(&self) -> ObjectRefView {
        self.ptr@
    }

    fn as_id(&self) -> (r: &ObjectRef) {
        &self.ptr
    }

    fn to_id(self) -> (r: ObjectRef) {
        self.ptr
    }
}

impl FromId for NSAttributedString {
    fn from_id(obj: ObjectRef) -> (r: Self) {
        NSAttributedString { ptr: obj }
    }
}

impl PNSObject for NSAttributedString {
    closed spec fn self_view(&self) -> HandleView {
        self.ptr@.handle
    }

    open spec fn class_view() -> Seq<char> {
        "NSAttributedString"@
    }

    fn im_class() -> (c: ClassTag) {
        ClassTag::named("NSAttributedString")
    }

    fn im_self(&self) -> (h: Handle) {
        self.ptr.handle().duplicate()
    }
}

impl INSObject for NSAttributedString {

}

impl NSAttributedString {
    /// Asks the class to allocate an attributed string, to be initialized next.
    pub fn allocate() -> (m: Message)
        ensures
            m@ == message_to(
                ReceiverView::Class("NSAttributedString"@),
                "alloc"@,
                Seq::empty(),
                Encoding::Object,
            ),
    {
        Message::to_class(&Self::im_class(), "alloc", no_args(), Encoding::Object)
    }

    /// Asks the allocated `allocated` to hold the characters of `string`, with
    /// no attributes. The allocation's retain passes to the call, which hands a
    /// retained string back.
    pub fn init_with_string(allocated: ObjectRef, string: &NSString) -> (m: Message)
        requires
            allocated@.owning,
        ensures
            m@ == instance_message(
                allocated@.handle,
                "initWithString:"@,
                seq![ValueView::Object(string.self_view())],
                Encoding::Object,
            ),
    {
        let target = allocated.hand_over();
        Message::to_instance(&target, "initWithString:", one_arg(Value::Object(string.im_self())), Encoding::Object)
    }

    /// Asks the allocated `allocated` to hold `string` with `attributes`. The allocation's retain passes to the call, which hands a
    /// retained string back.
    pub fn init_with_string_attributes(allocated: ObjectRef, string: &NSString, attributes: &NSDictionary<NSString, Handle>) -> (m: Message)
        requires
            allocated@.owning,
        ensures
            m@ == instance_message(
                allocated@.handle,
                "initWithString:attributes:"@,
                seq![ValueView::Object(string.self_view()), ValueView::Object(attributes.self_view())],
                Encoding::Object,
            ),
    {
        let target = allocated.hand_over();
        Message::to_instance(&target, "initWithString:attributes:", two_args(Value::Object(string.im_self()), Value::Object(attributes.im_self())), Encoding::Object)
    }

    /// Asks the allocated `allocated` to hold the characters and attributes of
    /// `attr_string`. The allocation's retain passes to the call, which hands a
    /// retained string back.
    pub fn init_with_attributed_string(allocated: ObjectRef, attr_string: &NSAttributedString) -> (m: Message)
        requires
            allocated@.owning,
        ensures
            m@ == instance_message(
                allocated@.handle,
                "initWithAttributedString:"@,
                seq![ValueView::Object(attr_string.self_view())],
                Encoding::Object,
            ),
    {
        let target = allocated.hand_over();
        Message::to_instance(&target, "initWithAttributedString:", one_arg(Value::Object(attr_string.im_self())), Encoding::Object)
    }

    /// Asks the allocated `allocated` to read itself from the data object
    /// `data`, with the reading options `options` and the document attributes
    /// `document`; errors are not asked for. The allocation's retain passes to
    /// the call, which hands a retained string back, or nil.
    pub fn init_with_data_options_document_attributes_error(
        allocated: ObjectRef,
        data: &Handle,
        options: &NSDictionary<NSString, Handle>,
        document: &NSDictionary<NSString, Handle>,
    ) -> (m: Message)
        requires
            allocated@.owning,
        ensures
            m@ == instance_message(
                allocated@.handle,
                "initWithData:options:documentAttributes:error:"@,
                seq![
                    ValueView::Object(data@),
                    ValueView::Object(options.self_view()),
                    ValueView::Object(document.self_view()),
                    ValueView::Nil,
                ],
                Encoding::Object,
            ),
    {
        let target = allocated.hand_over();
        let args = four_args(
            Value::Object(data.duplicate()),
            Value::Object(options.im_self()),
            Value::Object(document.im_self()),
            Value::Nil,
        );
        Message::to_instance(
            &target,
            "initWithData:options:documentAttributes:error:",
            args,
            Encoding::Object,
        )
    }

    /// Asks for the character contents as a string object.
    pub fn string(&self) -> (m: Message)
        ensures
            m@ == instance_message(
                self.self_view(),
                "string"@,
                Seq::empty(),
                Encoding::Object,
            ),
    {
        Message::to_instance(&self.im_self(), "string", no_args(), Encoding::Object)
    }

    /// Asks for the length of the attributed string.
    pub fn length(&self) -> (m: Message)
        ensures
            m@ == instance_message(
                self.self_view(),
                "length"@,
                Seq::empty(),
                Encoding::UInt,
            ),
    {
        Message::to_instance(&self.im_self(), "length", no_args(), Encoding::UInt)
    }

    /// Asks for the attributes of the character at `location`; the effective
    /// range is not asked for.
    pub fn attributes_at_index_effective_range(&self, location: u64) -> (m: Message)
        ensures
            m@ == instance_message(
                self.self_view(),
                "attributesAtIndex:effectiveRange:"@,
                seq![ValueView::UInt(location), ValueView::Nil],
                Encoding::Object,
            ),
    {
        Message::to_instance(&self.im_self(), "attributesAtIndex:effectiveRange:", two_args(Value::UInt(location), Value::Nil), Encoding::Object)
    }

    /// Asks for the attributes of the character at `location`, looked for
    /// within `limit_location..limit_location + limit_length`; the longest
    /// effective range is not asked for.
    pub fn attributes_at_index_longest_effective_range_in_range(
        &self,
        location: u64,
        limit_location: u64,
        limit_length: u64,
    ) -> (m: Message)
        ensures
            m@ == instance_message(
                self.self_view(),
                "attributesAtIndex:longestEffectiveRange:inRange:"@,
                seq![
                    ValueView::UInt(location),
                    ValueView::Nil,
                    ValueView::Range(limit_location, limit_length),
                ],
                Encoding::Object,
            ),
    {
        let args = three_args(
            Value::UInt(location),
            Value::Nil,
            Value::Range(limit_location, limit_length),
        );
        Message::to_instance(
            &self.im_self(),
            "attributesAtIndex:longestEffectiveRange:inRange:",
            args,
            Encoding::Object,
        )
    }

    /// Asks whether this attributed string equals `other`.
    pub fn is_equal_to_attributed_string(&self, other: &NSAttributedString) -> (m: Message)
        ensures
            m@ == instance_message(
                self.self_view(),
                "isEqualToAttributedString:"@,
                seq![ValueView::Object(other.self_view())],
                Encoding::Bool,
            ),
    {
        Message::to_instance(&self.im_self(), "isEqualToAttributedString:", one_arg(Value::Object(other.im_self())), Encoding::Bool)
    }

    /// Asks for the characters and attributes within
    /// `location..location + length`.
    pub fn attributed_substring_from_range(&self, location: u64, length: u64) -> (m: Message)
        ensures
            m@ == instance_message(
                self.self_view(),
                "attributedSubstringFromRange:"@,
                seq![ValueView::Range(location, length)],
                Encoding::Object,
            ),
    {
        Message::to_instance(&self.im_self(), "attributedSubstringFromRange:", one_arg(Value::Range(location, length)), Encoding::Object)
    }
}

} // verus!
