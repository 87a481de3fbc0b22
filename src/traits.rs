//! Capability traits. A wrapper type supplies `im_self` and `im_class`; every
//! other method is a default that builds the message for the dispatcher.
use crate::marshal::NO;
use crate::ownership::{adopt_result, adopted, ops_of, ObjectRef, ObjectRefView, RefCountOp};
use crate::runtime::{
    message_to, ClassTag, Encoding, Handle, HandleView, Message, MessageView, ReceiverView,
    Selector, Value, ValueView,
};
use crate::runtime::{no_args, one_arg, two_args};
use vstd::prelude::*;

verus! {

/// The message `selector` with `args` sent to the object `h`.
pub open spec fn instance_message(
    h: HandleView,
    selector: Seq<char>,
    args: Seq<ValueView>,
    result: Encoding,
) -> MessageView {
    message_to(ReceiverView::Instance(h), selector, args, result)
}

/// Sends `selector` with no arguments to `target`.
fn plain_message(target: &Handle, selector: &str, result: Encoding) -> (m: Message)
    ensures
        m@ == instance_message(target@, selector@, Seq::empty(), result),
{
    Message::to_instance(target, selector, no_args(), result)
}

/// Sends `selector` with the single argument `arg` to `target`.
fn unary_message(target: &Handle, selector: &str, arg: Value, result: Encoding) -> (m: Message)
    ensures
        m@ == instance_message(target@, selector@, seq![arg@], result),
{
    Message::to_instance(target, selector, one_arg(arg), result)
}

/// The group of methods that are fundamental to all foreign objects.
pub trait PNSObject {
    /// The object this wrapper stands for.
    spec fn self_view(&self) -> HandleView;

    /// The name of the class this wrapper type stands for.
    spec fn class_view() -> Seq<char>;

    /// The class object for the receiver's class.
    fn im_class() -> (c: ClassTag)
        ensures
            c@ == Self::class_view(),
    ;

    /// The receiver.
    fn im_self(&self) -> (h: Handle)
        ensures
            h@ == self.self_view(),
    ;

    /// Asks for the class object of the receiver's superclass.
    fn ip_superclass() -> (m: Message)
        ensures
            m@ == message_to(
                ReceiverView::Class(Self::class_view()),
                "superclass"@,
                Seq::empty(),
                Encoding::Class,
            ),
    {
        Message::to_class(&Self::im_class(), "superclass", no_args(), Encoding::Class)
    }

    /// Asks whether the receiver and `object` are equal. The foreign equality
    /// method decides, also for two wrappers of one object.
    fn im_is_equal(&self, object: &Self) -> (m: Message)
        ensures
            m@ == is_equal_request(self.self_view(), object.self_view()),
    {
        unary_message(&self.im_self(), "isEqual:", Value::Object(object.im_self()), Encoding::Bool)
    }

    /// Asks for an integer usable as a table address in a hash table.
    fn ip_hash(&self) -> (m: Message)
        ensures
            m@ == instance_message(self.self_view(), "hash"@, Seq::empty(), Encoding::UInt),
    {
        plain_message(&self.im_self(), "hash", Encoding::UInt)
    }

    /// Asks whether the receiver is an instance of `class` or of a subclass.
    fn im_is_kind_of_class(&self, class: ClassTag) -> (m: Message)
        ensures
            m@ == instance_message(
                self.self_view(),
                "isKindOfClass:"@,
                seq![ValueView::Class(class@)],
                Encoding::Bool,
            ),
    {
        unary_message(&self.im_self(), "isKindOfClass:", Value::Class(class), Encoding::Bool)
    }

    /// Asks whether the receiver is an instance of exactly `class`.
    fn im_is_member_of_class(&self, class: ClassTag) -> (m: Message)
        ensures
            m@ == instance_message(
                self.self_view(),
                "isMemberOfClass:"@,
                seq![ValueView::Class(class@)],
                Encoding::Bool,
            ),
    {
        unary_message(&self.im_self(), "isMemberOfClass:", Value::Class(class), Encoding::Bool)
    }

    /// Asks whether the receiver implements or inherits a method for `selector`.
    fn im_responds_to_selector(&self, selector: Selector) -> (m: Message)
        ensures
            m@ == instance_message(
                self.self_view(),
                "respondsToSelector:"@,
                seq![ValueView::Sel(selector@)],
                Encoding::Bool,
            ),
    {
        unary_message(&self.im_self(), "respondsToSelector:", Value::Sel(selector), Encoding::Bool)
    }

    /// Asks whether the receiver conforms to the protocol object `protocol`.
    fn im_conforms_to_protocol(&self, protocol: Handle) -> (m: Message)
        ensures
            m@ == instance_message(
                self.self_view(),
                "conformsToProtocol:"@,
                seq![ValueView::Object(protocol@)],
                Encoding::Bool,
            ),
    {
        unary_message(
            &self.im_self(),
            "conformsToProtocol:",
            Value::Object(protocol),
            Encoding::Bool,
        )
    }

    /// Asks for a textual representation of the receiver.
    fn ip_description(&self) -> (m: Message)
        ensures
            m@ == instance_message(self.self_view(), "description"@, Seq::empty(), Encoding::Object),
    {
        plain_message(&self.im_self(), "description", Encoding::Object)
    }

    /// Asks for a textual representation of the receiver for a debugger.
    fn ip_debug_description(&self) -> (m: Message)
        ensures
            m@ == instance_message(
                self.self_view(),
                "debugDescription"@,
                Seq::empty(),
                Encoding::Object,
            ),
    {
        plain_message(&self.im_self(), "debugDescription", Encoding::Object)
    }

    /// Sends `selector` to the receiver through `performSelector:`.
    fn im_perform_selector(&self, selector: Selector) -> (m: Message)
        ensures
            m@ == instance_message(
                self.self_view(),
                "performSelector:"@,
                seq![ValueView::Sel(selector@)],
                Encoding::Object,
            ),
    {
        unary_message(&self.im_self(), "performSelector:", Value::Sel(selector), Encoding::Object)
    }

    /// Sends `selector` with the object argument `with_object` to the receiver.
    fn im_perform_selector_with_object(&self, selector: Selector, with_object: Value) -> (m:
        Message)
        requires
            with_object@ is Object || with_object@ is Nil,
        ensures
            m@ == instance_message(
                self.self_view(),
                "performSelector:withObject:"@,
                seq![ValueView::Sel(selector@), with_object@],
                Encoding::Object,
            ),
    {
        Message::to_instance(&self.im_self(), "performSelector:withObject:", two_args(Value::Sel(selector), with_object), Encoding::Object)
    }

    /// Asks whether the receiver does not descend from the root class.
    fn im_is_proxy(&self) -> (m: Message)
        ensures
            m@ == instance_message(self.self_view(), "isProxy"@, Seq::empty(), Encoding::Bool),
    {
        plain_message(&self.im_self(), "isProxy", Encoding::Bool)
    }
}

/// What an equality check reports, given the foreign reply: the reply's
/// `BOOL`, and nothing else.
pub open spec fn equality_verdict(reply: ValueView) -> Option<bool> {
    match reply {
        ValueView::Bool(b) => Some(b != NO),
        _ => None,
    }
}

/// The verdict of an equality check, read from the foreign reply to the
/// message `im_is_equal` built.
pub fn is_equal_from_reply(reply: &Value) -> (r: Option<bool>)
    ensures
        r == equality_verdict(reply@),
{
    crate::marshal::reply_bool(reply)
}

/// The message asking whether the object `a` equals the object `b`.
pub open spec fn is_equal_request(a: HandleView, b: HandleView) -> MessageView {
    instance_message(a, "isEqual:"@, seq![ValueView::Object(b)], Encoding::Bool)
}

/// Equality is never decided by address. For any two objects, the same one
/// or distinct ones, the question goes to the foreign equality method, and
/// what is reported is its answer alone: wrappers of one object report equal
/// because the runtime answers `YES` for an object and itself, and wrappers
/// of distinct objects with equal content report equal exactly when the
/// foreign method answers `YES`.
pub proof fn lemma_equality_is_foreign(a: HandleView, b: HandleView, answer: i8)
    ensures
        is_equal_request(a, b).receiver == ReceiverView::Instance(a),
        is_equal_request(a, b).selector == "isEqual:"@,
        is_equal_request(a, b).args == seq![ValueView::Object(b)],
        equality_verdict(ValueView::Bool(answer)) == Some(answer != NO),
{
}

/// Converting an object wrapper to the reference it holds.
pub trait ToId {
    /// The reference this wrapper holds.
    spec fn id_view(&self) -> ObjectRefView;

    /// The reference this wrapper holds, lent.
    fn as_id(&self) -> (r: &ObjectRef)
        ensures
            r@ == self.id_view(),
    ;

    /// The reference this wrapper holds, given up with the wrapper.
    fn to_id(self) -> (r: ObjectRef)
        ensures
            r@ == self.id_view(),
    ;
}

/// Converting a reference to an object wrapper.
pub trait FromId: ToId + Sized {
    /// The wrapper that holds `obj`.
    fn from_id(obj: ObjectRef) -> (r: Self)
        ensures
            r.id_view() == obj@,
    ;
}

/// Wraps the object a reply to `request` holds, owning it by the naming
/// convention of the request's selector, with the retain this takes, if any.
/// A nil reply, or one that is not an object, gives no wrapper.
pub fn adopt_reply<T: FromId>(request: &Message, reply: Value) -> (r: (Option<T>, Option<
    RefCountOp,
>))
    ensures
        !(reply@ is Object) ==> r.0.is_none() && r.1.is_none(),
        reply@ is Object ==> (r.0 matches Some(t) && (t.id_view(), ops_of(r.1)) == adopted(
            request@.selector,
            reply@->Object_0,
        )),
{
    let (obj, op) = adopt_result(request.selector.name.as_str(), reply);
    match obj {
        Some(o) => (Some(T::from_id(o)), op),
        None => (None, op),
    }
}

/// The group of methods that are fundamental to all foreign objects and that
/// make and copy wrappers.
pub trait INSObject: PNSObject + FromId {
    /// Asks the class for a new instance; the result comes back retained.
    fn new() -> (m: Message)
        ensures
            m@ == message_to(
                ReceiverView::Class(Self::class_view()),
                "new"@,
                Seq::empty(),
                Encoding::Object,
            ),
    {
        Message::to_class(&Self::im_class(), "new", no_args(), Encoding::Object)
    }

    /// A second owning wrapper of the receiver's object, with the retain it
    /// takes; the receiver is left as it was.
    fn retain(&self) -> (r: (Self, RefCountOp))
        ensures
            r.0.id_view() == (ObjectRefView { handle: self.id_view().handle, owning: true }),
            r.1@ == crate::ownership::RefCountOpView::Retain(self.id_view().handle),
    {
        let (o, op) = self.as_id().share();
        (Self::from_id(o), op)
    }

    /// Asks for a textual representation of the receiver.
    fn description(&self) -> (m: Message)
        ensures
            m@ == instance_message(self.self_view(), "description"@, Seq::empty(), Encoding::Object),
    {
        self.ip_description()
    }

    /// Asks for a textual representation of the receiver for a debugger.
    fn debug_description(&self) -> (m: Message)
        ensures
            m@ == instance_message(
                self.self_view(),
                "debugDescription"@,
                Seq::empty(),
                Encoding::Object,
            ),
    {
        self.ip_debug_description()
    }
}

/// Object wrappers for values.
pub trait INSValue: PNSObject {

}

/// An object that supports reference-counted memory management by pools.
pub trait INSAutoreleasePool: PNSObject + Sized {
    /// Asks the pool to release its objects and pop itself.
    fn im_drain(&mut self) -> (m: Message)
        ensures
            *final(self) == *old(self),
            m@ == instance_message(old(self).self_view(), "drain"@, Seq::empty(), Encoding::Void),
    {
        plain_message(&self.im_self(), "drain", Encoding::Void)
    }

    /// Asks the pool to take `object`, which it releases when it drains.
    fn im_add_object(&mut self, object: Handle) -> (m: Message)
        ensures
            *final(self) == *old(self),
            m@ == instance_message(
                old(self).self_view(),
                "addObject:"@,
                seq![ValueView::Object(object@)],
                Encoding::Void,
            ),
    {
        unary_message(&self.im_self(), "addObject:", Value::Object(object), Encoding::Void)
    }
}

} // verus!
