//! Conversions between local values and what crosses the boundary: `BOOL`,
//! strings, and the readers of marshaled replies.
use crate::geometry::CGRect;
use crate::ownership::ObjectRef;
use crate::runtime::{ClassTag, Encoding, Message, MessageView, ReceiverView, Value, ValueView};
use crate::runtime::{no_args};
use vstd::prelude::*;
use vstd::string::*;
use vstd::utf8::*;

verus! {

/// The runtime's `YES`.
pub const YES: libc::c_schar = 1;

/// The runtime's `NO`.
pub const NO: libc::c_schar = 0;

/// A runtime `BOOL` read as a `bool`: anything but `NO` is true.
pub fn to_bool(b: libc::c_schar) -> (r: bool)
    ensures
        r == (b != NO),
{
    b != NO
}

/// A `bool` as the runtime's `BOOL`.
pub fn from_bool(b: bool) -> (r: libc::c_schar)
    ensures
        r == (if b {
            YES
        } else {
            NO
        }),
{
    if b {
        YES
    } else {
        NO
    }
}

/// Turning a `bool` into a `BOOL` and back gives the same `bool`.
pub proof fn lemma_bool_round_trip(b: bool)
    ensures
        (if b {
            YES
        } else {
            NO
        }) != NO <==> b,
{
}

// ---------------------------------------------------------------------------
// Strings.
/// The bytes a local string is handed over as: its UTF-8 encoding, copied, so
/// that the foreign string does not depend on the local buffer.
pub fn string_bytes(s: &str) -> (b: Vec<u8>)
    ensures
        b@ == encode_utf8(s@),
{
    s.as_bytes_vec()
}

/// Relies on `std::str::from_utf8`: it succeeds exactly on valid UTF-8, and the
/// string it gives has exactly the bytes it was given.
#[verifier::external_body]
fn utf8_to_string(b: &[u8]) -> (r: Option<String>)
    ensures
        r.is_some() == valid_utf8(b@),
        r matches Some(s) ==> encode_utf8(s@) == b@,
{
    match std::str::from_utf8(b) {
        Ok(s) => Some(s.to_owned()),
        Err(_) => None,
    }
}

/// An owned local copy of the string whose UTF-8 bytes are `b`, or `None`
/// where `b` is not valid UTF-8.
pub fn string_from_bytes(b: &[u8]) -> (r: Option<String>)
    ensures
        r.is_some() == valid_utf8(b@),
        r matches Some(s) ==> s@ == decode_utf8(b@),
{
    let r = utf8_to_string(b);
    proof {
        if r.is_some() {
            encode_utf8_decode_utf8(r->Some_0@);
        }
    }
    r
}

/// The UTF-8 encoding that foreign strings are created from and read in.
pub const UTF8_ENCODING: u64 = 4;

/// The message that creates a foreign string holding a copy of `s`, sent to
/// a freshly allocated string object, whose retain it consumes.
pub open spec fn init_string_message(target: crate::runtime::HandleView, s: Seq<char>) -> MessageView {
    crate::runtime::message_to(
        ReceiverView::Instance(target),
        "initWithBytes:length:encoding:"@,
        seq![
            ValueView::Bytes(encode_utf8(s)),
            ValueView::UInt(encode_utf8(s).len() as u64),
            ValueView::UInt(UTF8_ENCODING),
        ],
        Encoding::Object,
    )
}

/// The message that allocates a string object.
pub fn alloc_string() -> (m: Message)
    ensures
        m@ == crate::runtime::message_to(
            ReceiverView::Class("NSString"@),
            "alloc"@,
            Seq::empty(),
            Encoding::Object,
        ),
{
    Message::to_class(&ClassTag::named("NSString"), "alloc", no_args(), Encoding::Object)
}

/// The message that fills the allocated string object `allocated` with a
/// copy of `s`. The allocation's retain passes to the call, which hands a
/// retained string back.
pub fn init_string(allocated: ObjectRef, s: &str) -> (m: Message)
    requires
        allocated@.owning,
    ensures
        m@ == init_string_message(allocated@.handle, s@),
{
    let bytes = string_bytes(s);
    let n = bytes.len();
    let mut args: Vec<Value> = Vec::new();
    args.push(Value::Bytes(bytes));
    args.push(Value::UInt(n as u64));
    args.push(Value::UInt(UTF8_ENCODING));
    let target = allocated.hand_over();
    let m = Message::to_instance(&target, "initWithBytes:length:encoding:", args, Encoding::Object);
    assert(m@.args =~= init_string_message(allocated@.handle, s@).args);
    m
}

/// The message that reads a foreign string's contents back as UTF-8 bytes.
pub fn utf8_contents(string: &ObjectRef) -> (m: Message)
    ensures
        m@ == crate::runtime::message_to(
            ReceiverView::Instance(string@.handle),
            "UTF8String"@,
            Seq::empty(),
            Encoding::Bytes,
        ),
{
    Message::to_instance(string.handle(), "UTF8String", no_args(), Encoding::Bytes)
}

/// The local string a reply holds: an owned copy of the bytes, read as UTF-8.
/// `None` where the reply holds no bytes or they are not valid UTF-8.
pub fn string_from_reply(reply: &Value) -> (r: Option<String>)
    ensures
        match reply@ {
            ValueView::Bytes(b) => {
                &&& r.is_some() == valid_utf8(b)
                &&& r matches Some(s) ==> s@ == decode_utf8(b)
            },
            _ => r.is_none(),
        },
{
    match reply {
        Value::Bytes(b) => string_from_bytes(b.as_slice()),
        _ => None,
    }
}

/// A string handed over and read back is the same string: the bytes sent are
/// valid UTF-8 and decode to exactly the original characters, ASCII or not.
pub proof fn lemma_string_round_trip(s: Seq<char>)
    ensures
        valid_utf8(encode_utf8(s)),
        decode_utf8(encode_utf8(s)) == s,
{
    encode_utf8_valid_utf8(s);
    encode_utf8_decode_utf8(s);
}

// ---------------------------------------------------------------------------
// Readers of replies.
/// The `bool` a `BOOL` reply holds, or `None` for a reply of another kind.
pub fn reply_bool(reply: &Value) -> (r: Option<bool>)
    ensures
        match reply@ {
            ValueView::Bool(b) => r == Some(b != NO),
            _ => r.is_none(),
        },
{
    match reply {
        Value::Bool(b) => Some(to_bool(*b)),
        _ => None,
    }
}

/// The unsigned integer a reply holds, or `None` for a reply of another kind.
pub fn reply_uint(reply: &Value) -> (r: Option<u64>)
    ensures
        match reply@ {
            ValueView::UInt(u) => r == Some(u),
            _ => r.is_none(),
        },
{
    match reply {
        Value::UInt(u) => Some(*u),
        _ => None,
    }
}

/// The signed integer a reply holds, or `None` for a reply of another kind.
pub fn reply_int(reply: &Value) -> (r: Option<i64>)
    ensures
        match reply@ {
            ValueView::Int(i) => r == Some(i),
            _ => r.is_none(),
        },
{
    match reply {
        Value::Int(i) => Some(*i),
        _ => None,
    }
}

/// The rectangle a reply holds, or `None` for a reply of another kind.
pub fn reply_rect(reply: &Value) -> (r: Option<CGRect>)
    ensures
        match reply@ {
            ValueView::Rect(x) => r == Some(x),
            _ => r.is_none(),
        },
{
    match reply {
        Value::Rect(x) => Some(*x),
        _ => None,
    }
}

} // verus!
