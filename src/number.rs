//! Object wrappers for primitive scalar numbers. Each width and signedness
//! crosses the boundary as the runtime's own type of that width.
use crate::marshal::{from_bool, NO, YES};
use crate::ownership::{ObjectRef, ObjectRefView};
use crate::runtime::{
    message_to, no_args, one_arg, ClassTag, Encoding, Handle, HandleView, Message, ReceiverView,
    Value, ValueView,
};
use crate::traits::{instance_message, FromId, INSObject, INSValue, PNSObject, ToId};
use vstd::prelude::*;

verus! {

/// An object wrapper for a primitive scalar numeric value.
pub struct NSNumber {
    ptr: ObjectRef,
}

impl ToId for NSNumber {
    closed spec fn id_view(&self) -> ObjectRefView {
        self.ptr@
    }

    fn as_id(&self) -> (r: &ObjectRef) {
        &self.ptr
    }

    fn to_id(self) -> (r: ObjectRef) {
        self.ptr
    }
}

impl FromId for NSNumber {
    fn from_id(obj: ObjectRef) -> (r: Self) {
        NSNumber { ptr: obj }
    }
}

impl PNSObject for NSNumber {
    closed spec fn self_view(&self) -> HandleView {
        self.ptr@.handle
    }

    open spec fn class_view() -> Seq<char> {
        "NSNumber"@
    }

    fn im_class() -> (c: ClassTag) {
        ClassTag::named("NSNumber")
    }

    fn im_self(&self) -> (h: Handle) {
        self.ptr.handle().duplicate()
    }
}

impl INSObject for NSNumber {

}

impl INSValue for NSNumber {

}

/// The order of two values, as the runtime reports it.
#[derive(Debug, Clone, Copy, PartialEq, Eq, Structural)]
pub enum ComparisonResult {
    /// The left value is smaller.
    OrderedAscending,
    /// The two values are equal.
    OrderedSame,
    /// The left value is greater.
    OrderedDescending,
}

impl ComparisonResult {
    /// The value the runtime's headers give this result.
    pub open spec fn spec_raw(self) -> i64 {
        match self {
            ComparisonResult::OrderedAscending => -1i64,
            ComparisonResult::OrderedSame => 0i64,
            ComparisonResult::OrderedDescending => 1i64,
        }
    }

    /// The result with the value `raw`, or `None` where there is none.
    pub fn from_raw(raw: i64) -> (r: Option<ComparisonResult>)
        ensures
            r matches Some(c) ==> c.spec_raw() == raw,
            r.is_none() ==> forall|c: ComparisonResult| c.spec_raw() != raw,
    {
        match raw {
            -1 => Some(ComparisonResult::OrderedAscending),
            0 => Some(ComparisonResult::OrderedSame),
            1 => Some(ComparisonResult::OrderedDescending),
            _ => None,
        }
    }
}

/// The sum of `values`, where it fits in 64 bits.
pub open spec fn sum_of(values: Seq<i64>) -> int
    decreases values.len(),
{
    if values.len() == 0 {
        0
    } else {
        sum_of(values.drop_last()) + values.last()
    }
}

/// Whether every partial sum of `values`, from the left, fits in 64 bits.
pub open spec fn sums_fit(values: Seq<i64>) -> bool {
    forall|k: int|
        0 <= k <= values.len() ==> i64::MIN <= #[trigger] sum_of(values.take(k)) <= i64::MAX
}

impl NSNumber {
    /// Asks the class for a number holding `value`.
    pub fn number_with_bool(value: bool) -> (m: Message)
        ensures
            m@ == message_to(
                ReceiverView::Class("NSNumber"@),
                "numberWithBool:"@,
                seq![ValueView::Bool(if value { YES } else { NO })],
                Encoding::Object,
            ),
    {
        Message::to_class(&Self::im_class(), "numberWithBool:", one_arg(Value::Bool(from_bool(value))), Encoding::Object)
    }

    /// Asks the allocated number `allocated` to initialize itself with
    /// `value`. The allocation's retain passes to the call.
    pub fn init_with_bool(allocated: ObjectRef, value: bool) -> (m: Message)
        requires
            allocated@.owning,
        ensures
            m@ == instance_message(
                allocated@.handle,
                "initWithBool:"@,
                seq![ValueView::Bool(if value { YES } else { NO })],
                Encoding::Object,
            ),
    {
        let target = allocated.hand_over();
        Message::to_instance(&target, "initWithBool:", one_arg(Value::Bool(from_bool(value))), Encoding::Object)
    }

    /// Asks for the value as the runtime's type of this width.
    pub fn bool_value(&self) -> (m: Message)
        ensures
            m@ == instance_message(self.self_view(), "boolValue"@, Seq::empty(), Encoding::Bool),
    {
        Message::to_instance(&self.im_self(), "boolValue", no_args(), Encoding::Bool)
    }

    /// Asks the class for a number holding `value`.
    pub fn number_with_char(value: libc::c_schar) -> (m: Message)
        ensures
            m@ == message_to(
                ReceiverView::Class("NSNumber"@),
                "numberWithChar:"@,
                seq![ValueView::Char(value)],
                Encoding::Object,
            ),
    {
        Message::to_class(&Self::im_class(), "numberWithChar:", one_arg(Value::Char(value)), Encoding::Object)
    }

    /// Asks the allocated number `allocated` to initialize itself with
    /// `value`. The allocation's retain passes to the call.
    pub fn init_with_char(allocated: ObjectRef, value: libc::c_schar) -> (m: Message)
        requires
            allocated@.owning,
        ensures
            m@ == instance_message(
                allocated@.handle,
                "initWithChar:"@,
                seq![ValueView::Char(value)],
                Encoding::Object,
            ),
    {
        let target = allocated.hand_over();
        Message::to_instance(&target, "initWithChar:", one_arg(Value::Char(value)), Encoding::Object)
    }

    /// Asks for the value as the runtime's type of this width.
    pub fn char_value(&self) -> (m: Message)
        ensures
            m@ == instance_message(self.self_view(), "charValue"@, Seq::empty(), Encoding::Char),
    {
        Message::to_instance(&self.im_self(), "charValue", no_args(), Encoding::Char)
    }

    /// Asks the class for a number holding `value`.
    pub fn number_with_int(value: libc::c_int) -> (m: Message)
        ensures
            m@ == message_to(
                ReceiverView::Class("NSNumber"@),
                "numberWithInt:"@,
                seq![ValueView::Int32(value)],
                Encoding::Object,
            ),
    {
        Message::to_class(&Self::im_class(), "numberWithInt:", one_arg(Value::Int32(value)), Encoding::Object)
    }

    /// Asks the allocated number `allocated` to initialize itself with
    /// `value`. The allocation's retain passes to the call.
    pub fn init_with_int(allocated: ObjectRef, value: libc::c_int) -> (m: Message)
        requires
            allocated@.owning,
        ensures
            m@ == instance_message(
                allocated@.handle,
                "initWithInt:"@,
                seq![ValueView::Int32(value)],
                Encoding::Object,
            ),
    {
        let target = allocated.hand_over();
        Message::to_instance(&target, "initWithInt:", one_arg(Value::Int32(value)), Encoding::Object)
    }

    /// Asks for the value as the runtime's type of this width.
    pub fn int_value(&self) -> (m: Message)
        ensures
            m@ == instance_message(self.self_view(), "intValue"@, Seq::empty(), Encoding::Int32),
    {
        Message::to_instance(&self.im_self(), "intValue", no_args(), Encoding::Int32)
    }

    /// Asks the class for a number holding `value`.
    pub fn number_with_integer(value: i64) -> (m: Message)
        ensures
            m@ == message_to(
                ReceiverView::Class("NSNumber"@),
                "numberWithInteger:"@,
                seq![ValueView::Int(value)],
                Encoding::Object,
            ),
    {
        Message::to_class(&Self::im_class(), "numberWithInteger:", one_arg(Value::Int(value)), Encoding::Object)
    }

    /// Asks the allocated number `allocated` to initialize itself with
    /// `value`. The allocation's retain passes to the call.
    pub fn init_with_integer(allocated: ObjectRef, value: i64) -> (m: Message)
        requires
            allocated@.owning,
        ensures
            m@ == instance_message(
                allocated@.handle,
                "initWithInteger:"@,
                seq![ValueView::Int(value)],
                Encoding::Object,
            ),
    {
        let target = allocated.hand_over();
        Message::to_instance(&target, "initWithInteger:", one_arg(Value::Int(value)), Encoding::Object)
    }

    /// Asks for the value as the runtime's type of this width.
    pub fn integer_value(&self) -> (m: Message)
        ensures
            m@ == instance_message(self.self_view(), "integerValue"@, Seq::empty(), Encoding::Int),
    {
        Message::to_instance(&self.im_self(), "integerValue", no_args(), Encoding::Int)
    }

    /// Asks the class for a number holding `value`.
    pub fn number_with_long(value: libc::c_long) -> (m: Message)
        ensures
            m@ == message_to(
                ReceiverView::Class("NSNumber"@),
                "numberWithLong:"@,
                seq![ValueView::Int(value)],
                Encoding::Object,
            ),
    {
        Message::to_class(&Self::im_class(), "numberWithLong:", one_arg(Value::Int(value)), Encoding::Object)
    }

    /// Asks the allocated number `allocated` to initialize itself with
    /// `value`. The allocation's retain passes to the call.
    pub fn init_with_long(allocated: ObjectRef, value: libc::c_long) -> (m: Message)
        requires
            allocated@.owning,
        ensures
            m@ == instance_message(
                allocated@.handle,
                "initWithLong:"@,
                seq![ValueView::Int(value)],
                Encoding::Object,
            ),
    {
        let target = allocated.hand_over();
        Message::to_instance(&target, "initWithLong:", one_arg(Value::Int(value)), Encoding::Object)
    }

    /// Asks for the value as the runtime's type of this width.
    pub fn long_value(&self) -> (m: Message)
        ensures
            m@ == instance_message(self.self_view(), "longValue"@, Seq::empty(), Encoding::Int),
    {
        Message::to_instance(&self.im_self(), "longValue", no_args(), Encoding::Int)
    }

    /// Asks the class for a number holding `value`.
    pub fn number_with_long_long(value: libc::c_longlong) -> (m: Message)
        ensures
            m@ == message_to(
                ReceiverView::Class("NSNumber"@),
                "numberWithLongLong:"@,
                seq![ValueView::Int(value)],
                Encoding::Object,
            ),
    {
        Message::to_class(&Self::im_class(), "numberWithLongLong:", one_arg(Value::Int(value)), Encoding::Object)
    }

    /// Asks the allocated number `allocated` to initialize itself with
    /// `value`. The allocation's retain passes to the call.
    pub fn init_with_long_long(allocated: ObjectRef, value: libc::c_longlong) -> (m: Message)
        requires
            allocated@.owning,
        ensures
            m@ == instance_message(
                allocated@.handle,
                "initWithLongLong:"@,
                seq![ValueView::Int(value)],
                Encoding::Object,
            ),
    {
        let target = allocated.hand_over();
        Message::to_instance(&target, "initWithLongLong:", one_arg(Value::Int(value)), Encoding::Object)
    }

    /// Asks for the value as the runtime's type of this width.
    pub fn long_long_value(&self) -> (m: Message)
        ensures
            m@ == instance_message(self.self_view(), "longLongValue"@, Seq::empty(), Encoding::Int),
    {
        Message::to_instance(&self.im_self(), "longLongValue", no_args(), Encoding::Int)
    }

    /// Asks the class for a number holding `value`.
    pub fn number_with_short(value: libc::c_short) -> (m: Message)
        ensures
            m@ == message_to(
                ReceiverView::Class("NSNumber"@),
                "numberWithShort:"@,
                seq![ValueView::Short(value)],
                Encoding::Object,
            ),
    {
        Message::to_class(&Self::im_class(), "numberWithShort:", one_arg(Value::Short(value)), Encoding::Object)
    }

    /// Asks the allocated number `allocated` to initialize itself with
    /// `value`. The allocation's retain passes to the call.
    pub fn init_with_short(allocated: ObjectRef, value: libc::c_short) -> (m: Message)
        requires
            allocated@.owning,
        ensures
            m@ == instance_message(
                allocated@.handle,
                "initWithShort:"@,
                seq![ValueView::Short(value)],
                Encoding::Object,
            ),
    {
        let target = allocated.hand_over();
        Message::to_instance(&target, "initWithShort:", one_arg(Value::Short(value)), Encoding::Object)
    }

    /// Asks for the value as the runtime's type of this width.
    pub fn short_value(&self) -> (m: Message)
        ensures
            m@ == instance_message(self.self_view(), "shortValue"@, Seq::empty(), Encoding::Short),
    {
        Message::to_instance(&self.im_self(), "shortValue", no_args(), Encoding::Short)
    }

    /// Asks the class for a number holding `value`.
    pub fn number_with_unsigned_char(value: libc::c_uchar) -> (m: Message)
        ensures
            m@ == message_to(
                ReceiverView::Class("NSNumber"@),
                "numberWithUnsignedChar:"@,
                seq![ValueView::UChar(value)],
                Encoding::Object,
            ),
    {
        Message::to_class(&Self::im_class(), "numberWithUnsignedChar:", one_arg(Value::UChar(value)), Encoding::Object)
    }

    /// Asks the allocated number `allocated` to initialize itself with
    /// `value`. The allocation's retain passes to the call.
    pub fn init_with_unsigned_char(allocated: ObjectRef, value: libc::c_uchar) -> (m: Message)
        requires
            allocated@.owning,
        ensures
            m@ == instance_message(
                allocated@.handle,
                "initWithUnsignedChar:"@,
                seq![ValueView::UChar(value)],
                Encoding::Object,
            ),
    {
        let target = allocated.hand_over();
        Message::to_instance(&target, "initWithUnsignedChar:", one_arg(Value::UChar(value)), Encoding::Object)
    }

    /// Asks for the value as the runtime's type of this width.
    pub fn unsigned_char_value(&self) -> (m: Message)
        ensures
            m@ == instance_message(self.self_view(), "unsignedCharValue"@, Seq::empty(), Encoding::UChar),
    {
        Message::to_instance(&self.im_self(), "unsignedCharValue", no_args(), Encoding::UChar)
    }

    /// Asks the class for a number holding `value`.
    pub fn number_with_unsigned_int(value: libc::c_uint) -> (m: Message)
        ensures
            m@ == message_to(
                ReceiverView::Class("NSNumber"@),
                "numberWithUnsignedInt:"@,
                seq![ValueView::UInt32(value)],
                Encoding::Object,
            ),
    {
        Message::to_class(&Self::im_class(), "numberWithUnsignedInt:", one_arg(Value::UInt32(value)), Encoding::Object)
    }

    /// Asks the allocated number `allocated` to initialize itself with
    /// `value`. The allocation's retain passes to the call.
    pub fn init_with_unsigned_int(allocated: ObjectRef, value: libc::c_uint) -> (m: Message)
        requires
            allocated@.owning,
        ensures
            m@ == instance_message(
                allocated@.handle,
                "initWithUnsignedInt:"@,
                seq![ValueView::UInt32(value)],
                Encoding::Object,
            ),
    {
        let target = allocated.hand_over();
        Message::to_instance(&target, "initWithUnsignedInt:", one_arg(Value::UInt32(value)), Encoding::Object)
    }

    /// Asks for the value as the runtime's type of this width.
    pub fn unsigned_int_value(&self) -> (m: Message)
        ensures
            m@ == instance_message(self.self_view(), "unsignedIntValue"@, Seq::empty(), Encoding::UInt32),
    {
        Message::to_instance(&self.im_self(), "unsignedIntValue", no_args(), Encoding::UInt32)
    }

    /// Asks the class for a number holding `value`.
    pub fn number_with_unsigned_integer(value: u64) -> (m: Message)
        ensures
            m@ == message_to(
                ReceiverView::Class("NSNumber"@),
                "numberWithUnsignedInteger:"@,
                seq![ValueView::UInt(value)],
                Encoding::Object,
            ),
    {
        Message::to_class(&Self::im_class(), "numberWithUnsignedInteger:", one_arg(Value::UInt(value)), Encoding::Object)
    }

    /// Asks the allocated number `allocated` to initialize itself with
    /// `value`. The allocation's retain passes to the call.
    pub fn init_with_unsigned_integer(allocated: ObjectRef, value: u64) -> (m: Message)
        requires
            allocated@.owning,
        ensures
            m@ == instance_message(
                allocated@.handle,
                "initWithUnsignedInteger:"@,
                seq![ValueView::UInt(value)],
                Encoding::Object,
            ),
    {
        let target = allocated.hand_over();
        Message::to_instance(&target, "initWithUnsignedInteger:", one_arg(Value::UInt(value)), Encoding::Object)
    }

    /// Asks for the value as the runtime's type of this width.
    pub fn unsigned_integer_value(&self) -> (m: Message)
        ensures
            m@ == instance_message(self.self_view(), "unsignedIntegerValue"@, Seq::empty(), Encoding::UInt),
    {
        Message::to_instance(&self.im_self(), "unsignedIntegerValue", no_args(), Encoding::UInt)
    }

    /// Asks the class for a number holding `value`.
    pub fn number_with_unsigned_long(value: libc::c_ulong) -> (m: Message)
        ensures
            m@ == message_to(
                ReceiverView::Class("NSNumber"@),
                "numberWithUnsignedLong:"@,
                seq![ValueView::UInt(value)],
                Encoding::Object,
            ),
    {
        Message::to_class(&Self::im_class(), "numberWithUnsignedLong:", one_arg(Value::UInt(value)), Encoding::Object)
    }

    /// Asks the allocated number `allocated` to initialize itself with
    /// `value`. The allocation's retain passes to the call.
    pub fn init_with_unsigned_long(allocated: ObjectRef, value: libc::c_ulong) -> (m: Message)
        requires
            allocated@.owning,
        ensures
            m@ == instance_message(
                allocated@.handle,
                "initWithUnsignedLong:"@,
                seq![ValueView::UInt(value)],
                Encoding::Object,
            ),
    {
        let target = allocated.hand_over();
        Message::to_instance(&target, "initWithUnsignedLong:", one_arg(Value::UInt(value)), Encoding::Object)
    }

    /// Asks for the value as the runtime's type of this width.
    pub fn unsigned_long_value(&self) -> (m: Message)
        ensures
            m@ == instance_message(self.self_view(), "unsignedLongValue"@, Seq::empty(), Encoding::UInt),
    {
        Message::to_instance(&self.im_self(), "unsignedLongValue", no_args(), Encoding::UInt)
    }

    /// Asks the class for a number holding `value`.
    pub fn number_with_unsigned_long_long(value: libc::c_ulonglong) -> (m: Message)
        ensures
            m@ == message_to(
                ReceiverView::Class("NSNumber"@),
                "numberWithUnsignedLongLong:"@,
                seq![ValueView::UInt(value)],
                Encoding::Object,
            ),
    {
        Message::to_class(&Self::im_class(), "numberWithUnsignedLongLong:", one_arg(Value::UInt(value)), Encoding::Object)
    }

    /// Asks the allocated number `allocated` to initialize itself with
    /// `value`. The allocation's retain passes to the call.
    pub fn init_with_unsigned_long_long(allocated: ObjectRef, value: libc::c_ulonglong) -> (m: Message)
        requires
            allocated@.owning,
        ensures
            m@ == instance_message(
                allocated@.handle,
                "initWithUnsignedLongLong:"@,
                seq![ValueView::UInt(value)],
                Encoding::Object,
            ),
    {
        let target = allocated.hand_over();
        Message::to_instance(&target, "initWithUnsignedLongLong:", one_arg(Value::UInt(value)), Encoding::Object)
    }

    /// Asks for the value as the runtime's type of this width.
    pub fn unsigned_long_long_value(&self) -> (m: Message)
        ensures
            m@ == instance_message(self.self_view(), "unsignedLongLongValue"@, Seq::empty(), Encoding::UInt),
    {
        Message::to_instance(&self.im_self(), "unsignedLongLongValue", no_args(), Encoding::UInt)
    }

    /// Asks the class for a number holding `value`.
    pub fn number_with_unsigned_short(value: libc::c_ushort) -> (m: Message)
        ensures
            m@ == message_to(
                ReceiverView::Class("NSNumber"@),
                "numberWithUnsignedShort:"@,
                seq![ValueView::UShort(value)],
                Encoding::Object,
            ),
    {
        Message::to_class(&Self::im_class(), "numberWithUnsignedShort:", one_arg(Value::UShort(value)), Encoding::Object)
    }

    /// Asks the allocated number `allocated` to initialize itself with
    /// `value`. The allocation's retain passes to the call.
    pub fn init_with_unsigned_short(allocated: ObjectRef, value: libc::c_ushort) -> (m: Message)
        requires
            allocated@.owning,
        ensures
            m@ == instance_message(
                allocated@.handle,
                "initWithUnsignedShort:"@,
                seq![ValueView::UShort(value)],
                Encoding::Object,
            ),
    {
        let target = allocated.hand_over();
        Message::to_instance(&target, "initWithUnsignedShort:", one_arg(Value::UShort(value)), Encoding::Object)
    }

    /// Asks for the value as the runtime's type of this width.
    pub fn unsigned_short_value(&self) -> (m: Message)
        ensures
            m@ == instance_message(self.self_view(), "unsignedShortValue"@, Seq::empty(), Encoding::UShort),
    {
        Message::to_instance(&self.im_self(), "unsignedShortValue", no_args(), Encoding::UShort)
    }

    /// Asks the class to allocate a number, to be initialized next.
    pub fn allocate() -> (m: Message)
        ensures
            m@ == message_to(
                ReceiverView::Class("NSNumber"@),
                "alloc"@,
                Seq::empty(),
                Encoding::Object,
            ),
    {
        Message::to_class(&Self::im_class(), "alloc", no_args(), Encoding::Object)
    }

    /// Asks for a description of the number formatted for the locale object
    /// `locale`.
    pub fn description_with_locale(&self, locale: &Handle) -> (m: Message)
        ensures
            m@ == instance_message(
                self.self_view(),
                "descriptionWithLocale:"@,
                seq![ValueView::Object(locale@)],
                Encoding::Object,
            ),
    {
        Message::to_instance(
            &self.im_self(),
            "descriptionWithLocale:",
            one_arg(Value::Object(locale.duplicate())),
            Encoding::Object,
        )
    }

    /// Asks for the number as a string object.
    pub fn string_value(&self) -> (m: Message)
        ensures
            m@ == instance_message(self.self_view(), "stringValue"@, Seq::empty(), Encoding::Object),
    {
        Message::to_instance(&self.im_self(), "stringValue", no_args(), Encoding::Object)
    }

    /// Asks how this number orders against `other`.
    pub fn compare(&self, other: &NSNumber) -> (m: Message)
        ensures
            m@ == instance_message(
                self.self_view(),
                "compare:"@,
                seq![ValueView::Object(other.self_view())],
                Encoding::Int,
            ),
    {
        Message::to_instance(
            &self.im_self(),
            "compare:",
            one_arg(Value::Object(other.im_self())),
            Encoding::Int,
        )
    }

    /// Asks whether this number and `other` hold equal values.
    pub fn is_equal_to_number(&self, other: &NSNumber) -> (m: Message)
        ensures
            m@ == instance_message(
                self.self_view(),
                "isEqualToNumber:"@,
                seq![ValueView::Object(other.self_view())],
                Encoding::Bool,
            ),
    {
        Message::to_instance(
            &self.im_self(),
            "isEqualToNumber:",
            one_arg(Value::Object(other.im_self())),
            Encoding::Bool,
        )
    }

    /// The sum of the integer values of several numbers, read back with
    /// `integer_value`, from which `number_with_integer` makes the sum's
    /// number. `None` where a partial sum leaves the 64-bit range.
    pub fn sum_integer_values(values: &[i64]) -> (r: Option<i64>)
        ensures
            r is Some <==> sums_fit(values@),
            r matches Some(s) ==> s == sum_of(values@),
    {
        let mut total: i64 = 0;
        let mut i: usize = 0;
        assert(values@.take(0) =~= Seq::<i64>::empty());
        while i < values.len()
            invariant
                i <= values@.len(),
                total == sum_of(values@.take(i as int)),
                forall|k: int|
                    0 <= k <= i ==> i64::MIN <= #[trigger] sum_of(values@.take(k)) <= i64::MAX,
            decreases values@.len() - i,
        {
            assert(values@.take(i + 1).drop_last() =~= values@.take(i as int));
            match total.checked_add(values[i]) {
                Some(t) => {
                    total = t;
                },
                None => {
                    assert(!(i64::MIN <= sum_of(values@.take(i + 1)) <= i64::MAX));
                    return None;
                },
            }
            i = i + 1;
        }
        assert(values@.take(values@.len() as int) =~= values@);
        Some(total)
    }
}

} // verus!
