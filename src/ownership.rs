//! Retain/release discipline: each wrapper carries one flag that says whether
//! it owes the foreign runtime a release, and that flag is consumed once.
use crate::runtime::{Encoding, Handle, HandleView, Message, Value};
use crate::runtime::{no_args};
use vstd::prelude::*;

verus! {

/// A change this bridge makes to a foreign retain count.
#[derive(Debug)]
pub enum RefCountOp {
    Retain(Handle),
    Release(Handle),
}

pub enum RefCountOpView {
    Retain(HandleView),
    Release(HandleView),
}

impl View for RefCountOp {
    type V = RefCountOpView;

    open spec fn view(&self) -> RefCountOpView {
        match self {
            RefCountOp::Retain(h) => RefCountOpView::Retain(h@),
            RefCountOp::Release(h) => RefCountOpView::Release(h@),
        }
    }
}

/// What one operation does to the retain count of the object at `address`.
pub open spec fn op_delta(op: RefCountOpView, address: usize) -> int {
    match op {
        RefCountOpView::Retain(h) => if h.address == address {
            1
        } else {
            0
        },
        RefCountOpView::Release(h) => if h.address == address {
            -1
        } else {
            0
        },
    }
}

/// What a sequence of operations does to the retain count of the object at
/// `address`.
pub open spec fn balance(ops: Seq<RefCountOpView>, address: usize) -> int
    decreases ops.len(),
{
    if ops.len() == 0 {
        0
    } else {
        balance(ops.drop_last(), address) + op_delta(ops.last(), address)
    }
}

/// The operations of an optional single step.
pub open spec fn ops_of(op: Option<RefCountOp>) -> Seq<RefCountOpView> {
    match op {
        Some(o) => seq![o@],
        None => Seq::empty(),
    }
}

impl RefCountOp {
    /// The message that performs this operation.
    pub fn to_message(&self) -> (m: Message)
        ensures
            m@ == retain_count_message(self@),
    {
        match self {
            RefCountOp::Retain(h) => Message::to_instance(h, "retain", no_args(), Encoding::Object),
            RefCountOp::Release(h) => Message::to_instance(h, "release", no_args(), Encoding::Void),
        }
    }
}

/// The message a retain-count operation is performed by.
pub open spec fn retain_count_message(op: RefCountOpView) -> crate::runtime::MessageView {
    match op {
        RefCountOpView::Retain(h) => crate::runtime::message_to(
            crate::runtime::ReceiverView::Instance(h),
            "retain"@,
            Seq::empty(),
            Encoding::Object,
        ),
        RefCountOpView::Release(h) => crate::runtime::message_to(
            crate::runtime::ReceiverView::Instance(h),
            "release"@,
            Seq::empty(),
            Encoding::Void,
        ),
    }
}

/// A wrapper's hold on one foreign object: the handle, and whether this
/// wrapper owns one retain on it.
#[derive(Debug)]
pub struct ObjectRef {
    handle: Handle,
    owning: bool,
}

pub struct ObjectRefView {
    pub handle: HandleView,
    pub owning: bool,
}

impl View for ObjectRef {
    type V = ObjectRefView;

    closed spec fn view(&self) -> ObjectRefView {
        ObjectRefView { handle: self.handle@, owning: self.owning }
    }
}

/// The operations that ending a wrapper's life performs: one release if it
/// owns a retain, none otherwise.
pub open spec fn release_ops(r: ObjectRefView) -> Seq<RefCountOpView> {
    if r.owning {
        seq![RefCountOpView::Release(r.handle)]
    } else {
        Seq::empty()
    }
}

impl ObjectRef {
    /// Wraps an object the caller already owns a retain on, such as the
    /// result of a construction or copy call. No retain is issued.
    pub fn adopt_owned(handle: Handle) -> (r: ObjectRef)
        ensures
            r@ == (ObjectRefView { handle: handle@, owning: true }),
    {
        ObjectRef { handle, owning: true }
    }

    /// Wraps an object the bridge does not own yet, such as the result of an
    /// accessor. The wrapper owes nothing until `retain` is called.
    pub fn adopt_borrowed(handle: Handle) -> (r: ObjectRef)
        ensures
            r@ == (ObjectRefView { handle: handle@, owning: false }),
    {
        ObjectRef { handle, owning: false }
    }

    /// Takes a retain on a borrowed object, so that the wrapper owns it.
    pub fn retain(&mut self) -> (op: RefCountOp)
        requires
            !old(self)@.owning,
        ensures
            final(self)@ == (ObjectRefView { handle: old(self)@.handle, owning: true }),
            op@ == RefCountOpView::Retain(old(self)@.handle),
    {
        self.owning = true;
        RefCountOp::Retain(self.handle.duplicate())
    }

    /// Ends this wrapper's life; it releases its retain if it owns one. The
    /// wrapper is consumed, so the release can happen only once.
    pub fn release(self) -> (op: Option<RefCountOp>)
        ensures
            ops_of(op) == release_ops(self@),
    {
        if self.owning {
            Some(RefCountOp::Release(self.handle))
        } else {
            None
        }
    }

    /// A second owning wrapper of the same object, with the retain it takes.
    /// This wrapper is left as it was.
    pub fn share(&self) -> (r: (ObjectRef, RefCountOp))
        ensures
            r.0@ == (ObjectRefView { handle: self@.handle, owning: true }),
            r.1@ == RefCountOpView::Retain(self@.handle),
    {
        (
            ObjectRef { handle: self.handle.duplicate(), owning: true },
            RefCountOp::Retain(self.handle.duplicate()),
        )
    }

    /// Gives this wrapper up without a release, passing its retain, if it owns
    /// one, to a call that consumes its receiver (an `init` method).
    pub fn hand_over(self) -> (h: Handle)
        ensures
            h@ == self@.handle,
    {
        self.handle
    }

    /// The handle of the wrapped object.
    pub fn handle(&self) -> (h: &Handle)
        ensures
            h@ == self@.handle,
    {
        &self.handle
    }

    /// Whether this wrapper owns a retain on its object.
    pub fn is_owning(&self) -> (b: bool)
        ensures
            b == self@.owning,
    {
        self.owning
    }
}

// ---------------------------------------------------------------------------
// Which results arrive already retained.
/// The families of methods whose results the caller owns.
#[derive(PartialEq, Eq, Structural, Clone, Copy, Debug)]
pub enum MethodFamily {
    Alloc,
    Copy,
    MutableCopy,
    New,
    Init,
    /// Any other method: its result is not owned by the caller.
    Plain,
}

/// `s` with its leading underscores removed.
pub open spec fn strip_underscores(s: Seq<char>) -> Seq<char>
    decreases s.len(),
{
    if s.len() > 0 && s[0] == '_' {
        strip_underscores(s.drop_first())
    } else {
        s
    }
}

pub open spec fn is_lowercase(c: char) -> bool {
    'a' <= c && c <= 'z'
}

/// Whether `s`, without leading underscores, starts with the word `family`
/// followed by the end of the name or by a character that is not a lowercase
/// letter.
pub open spec fn in_family(s: Seq<char>, family: Seq<char>) -> bool {
    let t = strip_underscores(s);
    &&& family.len() <= t.len()
    &&& t.subrange(0, family.len() as int) == family
    &&& (t.len() == family.len() || !is_lowercase(t[family.len() as int]))
}

/// The family of the method named `s`.
pub open spec fn family_of(s: Seq<char>) -> MethodFamily {
    if in_family(s, "alloc"@) {
        MethodFamily::Alloc
    } else if in_family(s, "copy"@) {
        MethodFamily::Copy
    } else if in_family(s, "mutableCopy"@) {
        MethodFamily::MutableCopy
    } else if in_family(s, "new"@) {
        MethodFamily::New
    } else if in_family(s, "init"@) {
        MethodFamily::Init
    } else {
        MethodFamily::Plain
    }
}

/// Whether a method of this family hands its caller a retained result.
pub open spec fn family_returns_retained(f: MethodFamily) -> bool {
    f != MethodFamily::Plain
}

proof fn lemma_strip_prefix(s: Seq<char>, k: int)
    requires
        0 <= k <= s.len(),
        forall|j: int| 0 <= j < k ==> s[j] == '_',
        k < s.len() ==> s[k] != '_',
    ensures
        strip_underscores(s) == s.subrange(k, s.len() as int),
    decreases k,
{
    if k == 0 {
        assert(s.subrange(0, s.len() as int) =~= s);
    } else {
        let t = s.drop_first();
        assert forall|j: int| 0 <= j < k - 1 implies t[j] == '_' by {
            assert(t[j] == s[j + 1]);
        }
        if k - 1 < t.len() {
            assert(t[k - 1] == s[k]);
        }
        lemma_strip_prefix(t, k - 1);
        assert(t.subrange(k - 1, t.len() as int) =~= s.subrange(k, s.len() as int));
    }
}

/// The number of leading underscores of `s`.
fn leading_underscores(s: &str) -> (k: usize)
    ensures
        k <= s@.len(),
        strip_underscores(s@) == s@.subrange(k as int, s@.len() as int),
{
    let n = s.unicode_len();
    let mut k: usize = 0;
    while k < n && s.get_char(k) == '_'
        invariant
            k <= n,
            n == s@.len(),
            forall|j: int| 0 <= j < k ==> s@[j] == '_',
        decreases n - k,
    {
        k = k + 1;
    }
    proof {
        lemma_strip_prefix(s@, k as int);
    }
    k
}

/// Whether the name `s`, read from position `start`, is the word `family`
/// followed by the end of the name or by a character that is not a lowercase
/// letter.
fn starts_family(s: &str, n: usize, start: usize, family: &str) -> (r: bool)
    requires
        n == s@.len(),
        start <= n,
    ensures
        r == ({
            let t = s@.subrange(start as int, n as int);
            &&& family@.len() <= t.len()
            &&& t.subrange(0, family@.len() as int) == family@
            &&& (t.len() == family@.len() || !is_lowercase(t[family@.len() as int]))
        }),
{
    let m = family.unicode_len();
    if m > n - start {
        return false;
    }
    let mut j: usize = 0;
    while j < m
        invariant
            j <= m,
            m == family@.len(),
            start + m <= n,
            n == s@.len(),
            forall|i: int| 0 <= i < j ==> s@[start + i] == family@[i],
        decreases m - j,
    {
        if s.get_char(start + j) != family.get_char(j) {
            let ghost t = s@.subrange(start as int, n as int);
            assert(t.subrange(0, m as int)[j as int] != family@[j as int]);
            return false;
        }
        j = j + 1;
    }
    let ghost t = s@.subrange(start as int, n as int);
    assert(t.subrange(0, m as int) =~= family@);
    if start + m == n {
        true
    } else {
        let c = s.get_char(start + m);
        !('a' <= c && c <= 'z')
    }
}

/// The family of the method named `selector`, by the runtime's naming
/// convention: leading underscores are skipped, and the name must start with
/// the family's word, followed by its end or by a character other than a
/// lowercase letter (`copyWithZone:` is a copy method, `copyright` is not).
pub fn method_family(selector: &str) -> (f: MethodFamily)
    ensures
        f == family_of(selector@),
{
    let n = selector.unicode_len();
    let k = leading_underscores(selector);
    if starts_family(selector, n, k, "alloc") {
        MethodFamily::Alloc
    } else if starts_family(selector, n, k, "copy") {
        MethodFamily::Copy
    } else if starts_family(selector, n, k, "mutableCopy") {
        MethodFamily::MutableCopy
    } else if starts_family(selector, n, k, "new") {
        MethodFamily::New
    } else if starts_family(selector, n, k, "init") {
        MethodFamily::Init
    } else {
        MethodFamily::Plain
    }
}

/// Whether the method named `selector` hands its caller a retained result.
pub fn returns_retained(selector: &str) -> (b: bool)
    ensures
        b == family_returns_retained(family_of(selector@)),
{
    let f = method_family(selector);
    match f {
        MethodFamily::Plain => false,
        _ => true,
    }
}

/// How a result object of the method `selector` is held: owned outright when
/// the method hands over a retain, otherwise borrowed and then retained.
pub open spec fn adopted(selector: Seq<char>, h: HandleView) -> (ObjectRefView, Seq<
    RefCountOpView,
>) {
    if family_returns_retained(family_of(selector)) {
        (ObjectRefView { handle: h, owning: true }, Seq::empty())
    } else {
        (ObjectRefView { handle: h, owning: true }, seq![RefCountOpView::Retain(h)])
    }
}

/// Wraps the object that the method `selector` returned, with the retain that
/// the wrapper must take on it, if any. A nil reply, or a reply that is not an
/// object, gives no wrapper.
pub fn adopt_result(selector: &str, reply: Value) -> (r: (Option<ObjectRef>, Option<RefCountOp>))
    ensures
        !(reply@ is Object) ==> r.0.is_none() && r.1.is_none(),
        reply@ is Object ==> (r.0 matches Some(o) && (o@, ops_of(r.1)) == adopted(
            selector@,
            reply@->Object_0,
        )),
{
    match reply {
        Value::Object(h) => {
            if returns_retained(selector) {
                (Some(ObjectRef::adopt_owned(h)), None)
            } else {
                let mut o = ObjectRef::adopt_borrowed(h);
                let op = o.retain();
                (Some(o), Some(op))
            }
        },
        _ => (None, None),
    }
}



// ---------------------------------------------------------------------------
// The balance of a wrapper's life.
proof fn lemma_balance_concat(a: Seq<RefCountOpView>, b: Seq<RefCountOpView>, address: usize)
    ensures
        balance(a + b, address) == balance(a, address) + balance(b, address),
    decreases b.len(),
{
    if b.len() == 0 {
        assert(a + b =~= a);
    } else {
        assert((a + b).drop_last() =~= a + b.drop_last());
        lemma_balance_concat(a, b.drop_last(), address);
    }
}

proof fn lemma_balance_single(op: RefCountOpView, address: usize)
    ensures
        balance(seq![op], address) == op_delta(op, address),
{
    let s = seq![op];
    assert(s.drop_last() =~= Seq::<RefCountOpView>::empty());
    assert(s.last() == op);
    assert(balance(s.drop_last(), address) == 0);
    reveal_with_fuel(balance, 2);
}

/// The retain a call hands its caller with the result: one for the methods
/// of the owning families, none for the others.
pub open spec fn transferred(selector: Seq<char>) -> int {
    if family_returns_retained(family_of(selector)) {
        1
    } else {
        0
    }
}

/// A wrapper made on the owning path (`adopt_owned`) issues no retain, and
/// exactly one release of its object when its life ends, which matches the
/// retain the construction call handed over: the count ends where it began.
pub proof fn lemma_owned_path_balanced(h: HandleView)
    ensures
        release_ops(ObjectRefView { handle: h, owning: true }) == seq![RefCountOpView::Release(h)],
        1 + balance(release_ops(ObjectRefView { handle: h, owning: true }), h.address) == 0,
{
    lemma_balance_single(RefCountOpView::Release(h), h.address);
}

/// A wrapper made on the borrowing path (`adopt_borrowed`, then `retain`)
/// adds one to its object's count when it is adopted and takes one away when
/// its life ends. A borrowed wrapper that was never retained releases nothing.
pub proof fn lemma_borrowed_path_balanced(h: HandleView)
    ensures
        balance(seq![RefCountOpView::Retain(h)], h.address) == 1,
        balance(release_ops(ObjectRefView { handle: h, owning: true }), h.address) == -1,
        release_ops(ObjectRefView { handle: h, owning: false }) == Seq::<RefCountOpView>::empty(),
{
    lemma_balance_single(RefCountOpView::Retain(h), h.address);
    lemma_balance_single(RefCountOpView::Release(h), h.address);
}

/// Cloning (`share`) adds exactly one to the object's count and gives an
/// owning wrapper of the same object; ending the clone's life takes exactly
/// one away. The original wrapper is not touched, and still owes what it owed.
pub proof fn lemma_share_balanced(r: ObjectRefView)
    ensures
        balance(seq![RefCountOpView::Retain(r.handle)], r.handle.address) == 1,
        balance(
            release_ops(ObjectRefView { handle: r.handle, owning: true }),
            r.handle.address,
        ) == -1,
        balance(
            seq![RefCountOpView::Retain(r.handle)] + release_ops(
                ObjectRefView { handle: r.handle, owning: true },
            ),
            r.handle.address,
        ) == 0,
{
    lemma_balance_single(RefCountOpView::Retain(r.handle), r.handle.address);
    lemma_balance_single(RefCountOpView::Release(r.handle), r.handle.address);
    lemma_balance_concat(
        seq![RefCountOpView::Retain(r.handle)],
        release_ops(ObjectRefView { handle: r.handle, owning: true }),
        r.handle.address,
    );
}

/// Whatever method returned an object, the wrapper `adopt_result` makes of it
/// leaves the count where it began once its life ends: what the call handed
/// over, the retain taken on adoption, and the release at the end add up to
/// nothing.
pub proof fn lemma_adopted_result_balanced(selector: Seq<char>, h: HandleView)
    ensures
        adopted(selector, h).0.owning,
        transferred(selector) + balance(
            adopted(selector, h).1 + release_ops(adopted(selector, h).0),
            h.address,
        ) == 0,
{
    lemma_balance_single(RefCountOpView::Retain(h), h.address);
    lemma_balance_single(RefCountOpView::Release(h), h.address);
    lemma_balance_concat(adopted(selector, h).1, release_ops(adopted(selector, h).0), h.address);
}

} // verus!
