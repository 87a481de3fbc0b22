//! Geometric structs and their fixed layout at the boundary.
//!
//! The bridge never computes with coordinates: it moves them. A coordinate is
//! therefore held by its IEEE-754 double bit pattern, which is exactly what the
//! foreign ABI receives.
use vstd::bytes::*;
use vstd::prelude::*;

verus! {

/// A coordinate, held by the bit pattern of its 64-bit floating-point value.
#[derive(PartialEq, Eq, Structural, Clone, Copy, Debug)]
pub struct CGFloat {
    pub bits: u64,
}

/// A point in a two-dimensional coordinate system.
#[derive(PartialEq, Eq, Structural, Clone, Copy, Debug)]
pub struct CGPoint {
    pub x: CGFloat,
    pub y: CGFloat,
}

/// A width and a height.
#[derive(PartialEq, Eq, Structural, Clone, Copy, Debug)]
pub struct CGSize {
    pub width: CGFloat,
    pub height: CGFloat,
}

/// The location and dimensions of a rectangle.
#[derive(PartialEq, Eq, Structural, Clone, Copy, Debug)]
pub struct CGRect {
    pub origin: CGPoint,
    pub size: CGSize,
}

/// The bytes of a coordinate, little-endian as on the targeted platforms.
pub open spec fn float_layout(f: CGFloat) -> Seq<u8> {
    spec_u64_to_le_bytes(f.bits)
}

/// The bytes of a point: `x`, then `y`.
pub open spec fn point_layout(p: CGPoint) -> Seq<u8> {
    float_layout(p.x) + float_layout(p.y)
}

/// The bytes of a size: `width`, then `height`.
pub open spec fn size_layout(s: CGSize) -> Seq<u8> {
    float_layout(s.width) + float_layout(s.height)
}

/// The bytes of a rectangle: its origin, then its size.
pub open spec fn rect_layout(r: CGRect) -> Seq<u8> {
    point_layout(r.origin) + size_layout(r.size)
}

/// The coordinate laid out in the eight bytes at `start`.
pub open spec fn float_at(b: Seq<u8>, start: int) -> CGFloat {
    CGFloat { bits: spec_u64_from_le_bytes(b.subrange(start, start + 8)) }
}

/// The rectangle laid out in the 32 bytes of `b`.
pub open spec fn rect_from_layout(b: Seq<u8>) -> CGRect {
    CGRect {
        origin: CGPoint { x: float_at(b, 0), y: float_at(b, 8) },
        size: CGSize { width: float_at(b, 16), height: float_at(b, 24) },
    }
}

impl CGFloat {
    /// The coordinate with the given bit pattern.
    pub fn from_bits(bits: u64) -> (r: CGFloat)
        ensures
            r.bits == bits,
    {
        CGFloat { bits }
    }
}

impl CGPoint {
    /// The point at (`x`, `y`).
    pub fn new(x: CGFloat, y: CGFloat) -> (r: CGPoint)
        ensures
            r.x == x && r.y == y,
    {
        CGPoint { x, y }
    }
}

impl CGSize {
    /// The size `width` by `height`.
    pub fn new(width: CGFloat, height: CGFloat) -> (r: CGSize)
        ensures
            r.width == width && r.height == height,
    {
        CGSize { width, height }
    }
}

impl CGRect {
    /// The rectangle at `origin` with the given size.
    pub fn new(origin: CGPoint, size: CGSize) -> (r: CGRect)
        ensures
            r.origin == origin && r.size == size,
    {
        CGRect { origin, size }
    }
}

fn append_float(out: &mut Vec<u8>, f: CGFloat)
    ensures
        final(out)@ == old(out)@ + float_layout(f),
{
    let bytes = u64_to_le_bytes(f.bits);
    let mut i: usize = 0;
    while i < bytes.len()
        invariant
            i <= bytes@.len(),
            bytes@ == float_layout(f),
            out@ == old(out)@ + bytes@.subrange(0, i as int),
        decreases bytes@.len() - i,
    {
        out.push(bytes[i]);
        assert(bytes@.subrange(0, i + 1) == bytes@.subrange(0, i as int).push(bytes@[i as int]));
        i = i + 1;
    }
    assert(bytes@.subrange(0, bytes@.len() as int) == bytes@);
}

/// The bytes the foreign ABI receives for `r`: four coordinates of eight bytes,
/// in the order origin x, origin y, width, height.
pub fn encode_rect(r: &CGRect) -> (out: Vec<u8>)
    ensures
        out@ == rect_layout(*r),
        out@.len() == 32,
{
    proof {
        lemma_auto_spec_u64_to_from_le_bytes();
    }
    let mut out: Vec<u8> = Vec::new();
    append_float(&mut out, r.origin.x);
    append_float(&mut out, r.origin.y);
    append_float(&mut out, r.size.width);
    append_float(&mut out, r.size.height);
    assert(out@ =~= rect_layout(*r));
    out
}

fn float_from(b: &[u8], start: usize) -> (r: CGFloat)
    requires
        start + 8 <= b@.len(),
    ensures
        r == float_at(b@, start as int),
{
    let mut word: Vec<u8> = Vec::new();
    let n: usize = b.len();
    assert(start + 8 <= n);
    let end: usize = start + 8;
    let mut i: usize = start;
    while i < end
        invariant
            start <= i <= end,
            end == start + 8,
            end <= b@.len(),
            word@ == b@.subrange(start as int, i as int),
        decreases end - i,
    {
        word.push(b[i]);
        assert(b@.subrange(start as int, i + 1) == b@.subrange(start as int, i as int).push(
            b@[i as int],
        ));
        i = i + 1;
    }
    CGFloat { bits: u64_from_le_bytes(word.as_slice()) }
}

/// The rectangle laid out in `b`, or `None` where `b` is not 32 bytes long.
pub fn decode_rect(b: &[u8]) -> (r: Option<CGRect>)
    ensures
        b@.len() == 32 ==> r == Some(rect_from_layout(b@)),
        b@.len() != 32 ==> r.is_none(),
{
    if b.len() != 32 {
        return None;
    }
    let x = float_from(b, 0);
    let y = float_from(b, 8);
    let width = float_from(b, 16);
    let height = float_from(b, 24);
    Some(CGRect { origin: CGPoint { x, y }, size: CGSize { width, height } })
}

/// Laying a rectangle out and reading it back gives the same rectangle,
/// field for field.
pub proof fn lemma_rect_layout_round_trip(r: CGRect)
    ensures
        rect_layout(r).len() == 32,
        rect_from_layout(rect_layout(r)) == r,
{
    lemma_auto_spec_u64_to_from_le_bytes();
    let b = rect_layout(r);
    assert(b.subrange(0, 8) =~= float_layout(r.origin.x));
    assert(b.subrange(8, 16) =~= float_layout(r.origin.y));
    assert(b.subrange(16, 24) =~= float_layout(r.size.width));
    assert(b.subrange(24, 32) =~= float_layout(r.size.height));
}

} // verus!
