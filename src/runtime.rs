//! Handles to foreign objects, selectors, marshaled values and the messages
//! that the dispatcher performs.
use crate::geometry::{CGPoint, CGRect, CGSize};
use vstd::prelude::*;

verus! {

/// The name of a foreign class: the tag a handle carries for dynamic checks,
/// and the receiver of class messages.
#[derive(Debug)]
pub struct ClassTag {
    pub name: String,
}

/// The symbolic name of a foreign method.
#[derive(Debug)]
pub struct Selector {
    pub name: String,
}

/// An opaque reference to a foreign object: its address and the tag of its
/// class. Consumers never dereference it; all access goes through messages.
#[derive(Debug)]
pub struct Handle {
    pub address: usize,
    pub class_tag: ClassTag,
}

/// What a handle denotes, as plain values.
pub struct HandleView {
    pub address: usize,
    pub class_tag: Seq<char>,
}

impl View for ClassTag {
    type V = Seq<char>;

    open spec fn view(&self) -> Seq<char> {
        self.name@
    }
}

impl View for Selector {
    type V = Seq<char>;

    open spec fn view(&self) -> Seq<char> {
        self.name@
    }
}

impl View for Handle {
    type V = HandleView;

    open spec fn view(&self) -> HandleView {
        HandleView { address: self.address, class_tag: self.class_tag@ }
    }
}

impl ClassTag {
    /// The tag of the class with the given name.
    pub fn named(name: &str) -> (r: ClassTag)
        ensures
            r@ == name@,
    {
        ClassTag { name: name.to_owned() }
    }

    /// A second tag naming the same class.
    pub fn duplicate(&self) -> (r: ClassTag)
        ensures
            r@ == self@,
    {
        ClassTag { name: self.name.clone() }
    }
}

impl Selector {
    /// The selector with the given name.
    pub fn named(name: &str) -> (r: Selector)
        ensures
            r@ == name@,
    {
        Selector { name: name.to_owned() }
    }

    /// A second selector with the same name.
    pub fn duplicate(&self) -> (r: Selector)
        ensures
            r@ == self@,
    {
        Selector { name: self.name.clone() }
    }
}

impl Handle {
    /// The handle of the object at `address`, or `None` for the nil address.
    pub fn new(address: usize, class_tag: ClassTag) -> (r: Option<Handle>)
        ensures
            address == 0 ==> r.is_none(),
            address != 0 ==> (r matches Some(h) && h@ == (HandleView {
                address,
                class_tag: class_tag@,
            })),
    {
        if address == 0 {
            None
        } else {
            Some(Handle { address, class_tag })
        }
    }

    /// A second handle to the same object. Copying a handle does not touch
    /// the foreign retain count; only an owning wrapper does.
    pub fn duplicate(&self) -> (r: Handle)
        ensures
            r@ == self@,
    {
        Handle { address: self.address, class_tag: self.class_tag.duplicate() }
    }
}

/// The type encodings the dispatcher lays arguments and results out by.
#[derive(PartialEq, Eq, Structural, Clone, Copy, Debug)]
pub enum Encoding {
    Void,
    Object,
    Class,
    Sel,
    Bool,
    Char,
    UChar,
    Short,
    UShort,
    Int32,
    UInt32,
    Int,
    UInt,
    Point,
    Size,
    Rect,
    Range,
    Bytes,
    Objects,
}

/// The type-encoding string of `e`, as the runtime writes it in method
/// signatures.
pub open spec fn code_of(e: Encoding) -> Seq<char> {
    match e {
        Encoding::Void => "v"@,
        Encoding::Object => "@"@,
        Encoding::Class => "#"@,
        Encoding::Sel => ":"@,
        Encoding::Bool => "c"@,
        Encoding::Char => "c"@,
        Encoding::UChar => "C"@,
        Encoding::Short => "s"@,
        Encoding::UShort => "S"@,
        Encoding::Int32 => "i"@,
        Encoding::UInt32 => "I"@,
        Encoding::Int => "q"@,
        Encoding::UInt => "Q"@,
        Encoding::Point => "{CGPoint=dd}"@,
        Encoding::Size => "{CGSize=dd}"@,
        Encoding::Rect => "{CGRect={CGPoint=dd}{CGSize=dd}}"@,
        Encoding::Range => "{_NSRange=QQ}"@,
        Encoding::Bytes => "r*"@,
        Encoding::Objects => "^@"@,
    }
}

impl Encoding {
    /// The type-encoding string of this encoding.
    pub fn code(&self) -> (r: &'static str)
        ensures
            r@ == code_of(*self),
    {
        match self {
            Encoding::Void => "v",
            Encoding::Object => "@",
            Encoding::Class => "#",
            Encoding::Sel => ":",
            Encoding::Bool => "c",
            Encoding::Char => "c",
            Encoding::UChar => "C",
            Encoding::Short => "s",
            Encoding::UShort => "S",
            Encoding::Int32 => "i",
            Encoding::UInt32 => "I",
            Encoding::Int => "q",
            Encoding::UInt => "Q",
            Encoding::Point => "{CGPoint=dd}",
            Encoding::Size => "{CGSize=dd}",
            Encoding::Rect => "{CGRect={CGPoint=dd}{CGSize=dd}}",
            Encoding::Range => "{_NSRange=QQ}",
            Encoding::Bytes => "r*",
            Encoding::Objects => "^@",
        }
    }
}

/// A value crossing the boundary, as an argument or as a result.
#[derive(Debug)]
pub enum Value {
    Void,
    Nil,
    Object(Handle),
    Class(ClassTag),
    Sel(Selector),
    /// A `BOOL` as the runtime stores it: one signed byte.
    Bool(libc::c_schar),
    Char(libc::c_schar),
    UChar(libc::c_uchar),
    Short(libc::c_short),
    UShort(libc::c_ushort),
    Int32(libc::c_int),
    UInt32(libc::c_uint),
    /// A 64-bit signed integer (`NSInteger`, `long`, `long long`).
    Int(i64),
    /// A 64-bit unsigned integer (`NSUInteger`, `unsigned long`).
    UInt(u64),
    Point(CGPoint),
    Size(CGSize),
    Rect(CGRect),
    /// A range: its location and its length.
    Range(u64, u64),
    /// A buffer handed over by pointer and length; the callee copies it.
    Bytes(Vec<u8>),
    /// A C array of objects, handed over by pointer; its count goes separately.
    Objects(Vec<Handle>),
}

/// A marshaled value, as plain values.
pub enum ValueView {
    Void,
    Nil,
    Object(HandleView),
    Class(Seq<char>),
    Sel(Seq<char>),
    Bool(i8),
    Char(i8),
    UChar(u8),
    Short(i16),
    UShort(u16),
    Int32(i32),
    UInt32(u32),
    Int(i64),
    UInt(u64),
    Point(CGPoint),
    Size(CGSize),
    Rect(CGRect),
    Range(u64, u64),
    Bytes(Seq<u8>),
    Objects(Seq<HandleView>),
}

impl View for Value {
    type V = ValueView;

    open spec fn view(&self) -> ValueView {
        match self {
            Value::Void => ValueView::Void,
            Value::Nil => ValueView::Nil,
            Value::Object(h) => ValueView::Object(h@),
            Value::Class(c) => ValueView::Class(c@),
            Value::Sel(s) => ValueView::Sel(s@),
            Value::Bool(b) => ValueView::Bool(*b),
            Value::Char(c) => ValueView::Char(*c),
            Value::UChar(c) => ValueView::UChar(*c),
            Value::Short(x) => ValueView::Short(*x),
            Value::UShort(x) => ValueView::UShort(*x),
            Value::Int32(x) => ValueView::Int32(*x),
            Value::UInt32(x) => ValueView::UInt32(*x),
            Value::Int(i) => ValueView::Int(*i),
            Value::UInt(u) => ValueView::UInt(*u),
            Value::Point(p) => ValueView::Point(*p),
            Value::Size(s) => ValueView::Size(*s),
            Value::Rect(r) => ValueView::Rect(*r),
            Value::Range(l, n) => ValueView::Range(*l, *n),
            Value::Bytes(b) => ValueView::Bytes(b@),
            Value::Objects(hs) => ValueView::Objects(handle_views(hs@)),
        }
    }
}

/// The encoding a value is laid out by; nil is an object.
pub open spec fn encoding_of(v: ValueView) -> Encoding {
    match v {
        ValueView::Void => Encoding::Void,
        ValueView::Nil => Encoding::Object,
        ValueView::Object(_) => Encoding::Object,
        ValueView::Class(_) => Encoding::Class,
        ValueView::Sel(_) => Encoding::Sel,
        ValueView::Bool(_) => Encoding::Bool,
        ValueView::Char(_) => Encoding::Char,
        ValueView::UChar(_) => Encoding::UChar,
        ValueView::Short(_) => Encoding::Short,
        ValueView::UShort(_) => Encoding::UShort,
        ValueView::Int32(_) => Encoding::Int32,
        ValueView::UInt32(_) => Encoding::UInt32,
        ValueView::Int(_) => Encoding::Int,
        ValueView::UInt(_) => Encoding::UInt,
        ValueView::Point(_) => Encoding::Point,
        ValueView::Size(_) => Encoding::Size,
        ValueView::Rect(_) => Encoding::Rect,
        ValueView::Range(_, _) => Encoding::Range,
        ValueView::Bytes(_) => Encoding::Bytes,
        ValueView::Objects(_) => Encoding::Objects,
    }
}

impl Value {
    /// The encoding this value is laid out by.
    pub fn encoding(&self) -> (r: Encoding)
        ensures
            r == encoding_of(self@),
    {
        match self {
            Value::Void => Encoding::Void,
            Value::Nil => Encoding::Object,
            Value::Object(_) => Encoding::Object,
            Value::Class(_) => Encoding::Class,
            Value::Sel(_) => Encoding::Sel,
            Value::Bool(_) => Encoding::Bool,
            Value::Char(_) => Encoding::Char,
            Value::UChar(_) => Encoding::UChar,
            Value::Short(_) => Encoding::Short,
            Value::UShort(_) => Encoding::UShort,
            Value::Int32(_) => Encoding::Int32,
            Value::UInt32(_) => Encoding::UInt32,
            Value::Int(_) => Encoding::Int,
            Value::UInt(_) => Encoding::UInt,
            Value::Point(_) => Encoding::Point,
            Value::Size(_) => Encoding::Size,
            Value::Rect(_) => Encoding::Rect,
            Value::Range(_, _) => Encoding::Range,
            Value::Bytes(_) => Encoding::Bytes,
            Value::Objects(_) => Encoding::Objects,
        }
    }
}

/// The views of a list of handles.
pub open spec fn handle_views(hs: Seq<Handle>) -> Seq<HandleView> {
    hs.map_values(|h: Handle| h@)
}

/// The views of a list of marshaled values.
pub open spec fn views(args: Seq<Value>) -> Seq<ValueView> {
    args.map_values(|v: Value| v@)
}

/// No arguments.
pub fn no_args() -> (r: Vec<Value>)
    ensures
        views(r@) == Seq::<ValueView>::empty(),
{
    let r: Vec<Value> = Vec::new();
    assert(views(r@) =~= Seq::<ValueView>::empty());
    r
}

/// The single argument `a`.
pub fn one_arg(a: Value) -> (r: Vec<Value>)
    ensures
        views(r@) == seq![a@],
{
    let mut r: Vec<Value> = Vec::new();
    r.push(a);
    assert(views(r@) =~= seq![a@]);
    r
}

/// The arguments `a`, then `b`.
pub fn two_args(a: Value, b: Value) -> (r: Vec<Value>)
    ensures
        views(r@) == seq![a@, b@],
{
    let mut r: Vec<Value> = Vec::new();
    r.push(a);
    r.push(b);
    assert(views(r@) =~= seq![a@, b@]);
    r
}

/// The arguments `a`, `b`, then `c`.
pub fn three_args(a: Value, b: Value, c: Value) -> (r: Vec<Value>)
    ensures
        views(r@) == seq![a@, b@, c@],
{
    let mut r: Vec<Value> = Vec::new();
    r.push(a);
    r.push(b);
    r.push(c);
    assert(views(r@) =~= seq![a@, b@, c@]);
    r
}

/// The arguments `a`, `b`, `c`, then `d`.
pub fn four_args(a: Value, b: Value, c: Value, d: Value) -> (r: Vec<Value>)
    ensures
        views(r@) == seq![a@, b@, c@, d@],
{
    let mut r: Vec<Value> = Vec::new();
    r.push(a);
    r.push(b);
    r.push(c);
    r.push(d);
    assert(views(r@) =~= seq![a@, b@, c@, d@]);
    r
}

/// Who a message goes to: an object, or a class.
#[derive(Debug)]
pub enum Receiver {
    Instance(Handle),
    Class(ClassTag),
}

pub enum ReceiverView {
    Instance(HandleView),
    Class(Seq<char>),
}

impl View for Receiver {
    type V = ReceiverView;

    open spec fn view(&self) -> ReceiverView {
        match self {
            Receiver::Instance(h) => ReceiverView::Instance(h@),
            Receiver::Class(c) => ReceiverView::Class(c@),
        }
    }
}

/// One message send: the receiver, the selector resolved against it at the
/// time of the call, the marshaled arguments, and the encoding of the result
/// the caller reads back.
#[derive(Debug)]
pub struct Message {
    pub receiver: Receiver,
    pub selector: Selector,
    pub args: Vec<Value>,
    pub result: Encoding,
}

pub struct MessageView {
    pub receiver: ReceiverView,
    pub selector: Seq<char>,
    pub args: Seq<ValueView>,
    pub result: Encoding,
}

impl View for Message {
    type V = MessageView;

    open spec fn view(&self) -> MessageView {
        MessageView {
            receiver: self.receiver@,
            selector: self.selector@,
            args: views(self.args@),
            result: self.result,
        }
    }
}

/// The message `selector` sent to `receiver` with `args`, read back as `result`.
pub open spec fn message_to(
    receiver: ReceiverView,
    selector: Seq<char>,
    args: Seq<ValueView>,
    result: Encoding,
) -> MessageView {
    MessageView { receiver, selector, args, result }
}

impl Message {
    /// A message to the object behind `target`.
    pub fn to_instance(target: &Handle, selector: &str, args: Vec<Value>, result: Encoding) -> (r:
        Message)
        ensures
            r@ == message_to(
                ReceiverView::Instance(target@),
                selector@,
                views(args@),
                result,
            ),
    {
        Message {
            receiver: Receiver::Instance(target.duplicate()),
            selector: Selector::named(selector),
            args,
            result,
        }
    }

    /// A message to the class named by `class`.
    pub fn to_class(class: &ClassTag, selector: &str, args: Vec<Value>, result: Encoding) -> (r:
        Message)
        ensures
            r@ == message_to(
                ReceiverView::Class(class@),
                selector@,
                views(args@),
                result,
            ),
    {
        Message {
            receiver: Receiver::Class(class.duplicate()),
            selector: Selector::named(selector),
            args,
            result,
        }
    }

    /// Whether `reply` is laid out as this message's result is read back.
    pub fn accepts(&self, reply: &Value) -> (r: bool)
        ensures
            r == (encoding_of(reply@) == self.result),
    {
        reply.encoding() == self.result
    }
}

} // verus!
