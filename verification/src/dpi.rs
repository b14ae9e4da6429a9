//! Sizes, positions and rectangles in physical pixels, and the integer casts
//! between the widths that the system and the events use.

use vstd::prelude::*;

verus! {

/// A size in physical pixels.
#[derive(Clone, Copy, Debug, PartialEq, Eq, Hash)]
pub struct PhysicalSize<P> {
    pub width: P,
    pub height: P,
}

/// A position in physical pixels.
#[derive(Clone, Copy, Debug, PartialEq, Eq, Hash)]
pub struct PhysicalPosition<P> {
    pub x: P,
    pub y: P,
}

/// A rectangle as the system reports it.
#[derive(Clone, Copy, Debug, PartialEq, Eq, Hash)]
pub struct Rect {
    pub top: i32,
    pub left: i32,
    pub width: i32,
    pub height: i32,
}

/// A size that is asked for.
#[derive(Clone, Copy, Debug, PartialEq, Eq)]
pub enum Size {
    /// In physical pixels.
    Physical(PhysicalSize<u32>),
    /// In units of length, and scaled to physical pixels by now.
    Scaled(PhysicalSize<i32>),
}

/// The unsigned number with the same 32 bits.
pub open spec fn unsigned32(x: i32) -> u32 {
    if x >= 0 {
        x as u32
    } else {
        (x + 0x1_0000_0000) as u32
    }
}

/// The 64-bit unsigned number that sign extension makes of the bits.
pub open spec fn unsigned64(x: i32) -> u64 {
    if x >= 0 {
        x as u64
    } else {
        (x + 0x1_0000_0000_0000_0000) as u64
    }
}

/// The number with the same low 32 bits.
pub open spec fn low32(x: i64) -> i32 {
    ((x + 0x8000_0000) % 0x1_0000_0000 - 0x8000_0000) as i32
}

/// The size of a rectangle, its sides taken as unsigned.
pub open spec fn rect_size(rect: Rect) -> PhysicalSize<u32> {
    PhysicalSize { width: unsigned32(rect.width), height: unsigned32(rect.height) }
}

/// The number, or the largest one that can be had where it is too large.
pub open spec fn saturated32(x: u32) -> i32 {
    if x <= i32::MAX {
        x as i32
    } else {
        i32::MAX
    }
}

/// The size in physical pixels.
pub open spec fn pixels(size: Size) -> PhysicalSize<i32> {
    match size {
        Size::Physical(size) => PhysicalSize {
            width: saturated32(size.width),
            height: saturated32(size.height),
        },
        Size::Scaled(size) => size,
    }
}

/// Takes the number, or the largest one that can be had where it is too large.
pub fn to_saturated32(x: u32) -> (r: i32)
    ensures
        r == saturated32(x),
{
    if x <= 0x7fff_ffff {
        x as i32
    } else {
        i32::MAX
    }
}

impl Size {
    /// The size in physical pixels.
    pub fn to_pixels(self) -> (r: PhysicalSize<i32>)
        ensures
            r == pixels(self),
    {
        match self {
            Size::Physical(size) => PhysicalSize {
                width: to_saturated32(size.width),
                height: to_saturated32(size.height),
            },
            Size::Scaled(size) => size,
        }
    }
}

/// Reads the 32 bits as an unsigned number.
pub fn to_unsigned32(x: i32) -> (r: u32)
    ensures
        r == unsigned32(x),
{
    assert(x < 0 ==> (x as u32) == x + 0x1_0000_0000) by (bit_vector);
    x as u32
}

/// Extends the sign to 64 bits and reads them as an unsigned number.
pub fn to_unsigned64(x: i32) -> (r: u64)
    ensures
        r == unsigned64(x),
{
    assert(x < 0 ==> (x as u64) == x + 0x1_0000_0000_0000_0000) by (bit_vector);
    x as u64
}

/// Keeps the low 32 bits.
pub fn to_low32(x: i64) -> (r: i32)
    ensures
        r == low32(x),
{
    assert((x as i32) == (x + 0x8000_0000) % 0x1_0000_0000 - 0x8000_0000) by (bit_vector);
    x as i32
}

impl Rect {
    /// The size of the rectangle, its sides taken as unsigned.
    pub fn size(self) -> (r: PhysicalSize<u32>)
        ensures
            r == rect_size(self),
    {
        PhysicalSize { width: to_unsigned32(self.width), height: to_unsigned32(self.height) }
    }
}

/// The casts keep the low bits: they differ from the number by a multiple of 2 to the
/// width that is read, and not at all where it fits.
pub proof fn lemma_casts_keep_the_low_bits(x: i32, y: i64)
    ensures
        (unsigned32(x) - x) % 0x1_0000_0000 == 0,
        x >= 0 ==> unsigned32(x) == x,
        (unsigned64(x) - x) % 0x1_0000_0000_0000_0000 == 0,
        x >= 0 ==> unsigned64(x) == x,
        (low32(y) - y) % 0x1_0000_0000 == 0,
        i32::MIN <= y <= i32::MAX ==> low32(y) == y,
{
}

/// A size that is asked for is kept: one that was scaled as it is, one in pixels up to
/// the largest that can be had, and never made smaller below that.
pub proof fn lemma_sizes_are_kept(size: PhysicalSize<u32>, scaled: PhysicalSize<i32>)
    ensures
        pixels(Size::Scaled(scaled)) == scaled,
        size.width <= i32::MAX ==> pixels(Size::Physical(size)).width == size.width,
        size.height <= i32::MAX ==> pixels(Size::Physical(size)).height == size.height,
        size.width > i32::MAX ==> pixels(Size::Physical(size)).width == i32::MAX,
        size.height > i32::MAX ==> pixels(Size::Physical(size)).height == i32::MAX,
{
}

/// Reading a side as unsigned keeps it where it is not negative.
pub proof fn lemma_sides_are_kept(rect: Rect)
    requires
        rect.width >= 0,
        rect.height >= 0,
    ensures
        rect_size(rect).width == rect.width,
        rect_size(rect).height == rect.height,
        pixels(Size::Physical(rect_size(rect))) == (PhysicalSize {
            width: rect.width,
            height: rect.height,
        }),
{
}

} // verus!
