//! Points, sizes and rectangles measured in whole pixels.
//!
//! Rectangles that callers describe use the logical convention: the origin is
//! the top-left corner and `y` grows downwards. A rectangle may be given with a
//! negative width or height; [`Rect::normalized`] brings it to the form with a
//! minimal origin and a non-negative size.

use vstd::prelude::*;

verus! {

/// A coordinate pair.
#[derive(Clone, Copy, Debug, PartialEq, Eq, Structural)]
pub struct Point<T> {
    pub x: T,
    pub y: T,
}

/// A width and a height.
#[derive(Clone, Copy, Debug, PartialEq, Eq, Structural)]
pub struct Size<T> {
    pub width: T,
    pub height: T,
}

/// An area given by its origin and its size.
#[derive(Clone, Copy, Debug, PartialEq, Eq, Structural)]
pub struct Rect<T> {
    pub origin: Point<T>,
    pub size: Size<T>,
}

/// The absolute value of an integer.
pub open spec fn abs(v: int) -> int {
    if v < 0 {
        -v
    } else {
        v
    }
}

/// The smaller of two integers.
pub open spec fn min(a: int, b: int) -> int {
    if a <= b {
        a
    } else {
        b
    }
}

/// The larger of two integers.
pub open spec fn max(a: int, b: int) -> int {
    if a <= b {
        b
    } else {
        a
    }
}

/// `figures::Size::area` on unsigned pixels: the product of width and height.
/// The product is formed in `u32`, so it has to fit.
#[verifier::external_body]
fn size_area(size: &Size<u32>) -> (area: u32)
    requires
        size.width * size.height <= u32::MAX,
    ensures
        area == size.width * size.height,
{
    figures::Size::new(size.width, size.height).area()
}

/// `figures::Rect::extent` on signed pixels: the origin moved by the size,
/// component by component. Each sum is formed in `i32`, so it has to fit.
#[verifier::external_body]
fn rect_extent(rect: &Rect<i32>) -> (extent: Point<i32>)
    requires
        i32::MIN <= rect.origin.x + rect.size.width <= i32::MAX,
        i32::MIN <= rect.origin.y + rect.size.height <= i32::MAX,
    ensures
        extent.x == rect.origin.x + rect.size.width,
        extent.y == rect.origin.y + rect.size.height,
{
    let extent = figures::Rect::new(
        figures::Point::new(rect.origin.x, rect.origin.y),
        figures::Size::new(rect.size.width, rect.size.height),
    ).extent();
    Point { x: extent.x, y: extent.y }
}

/// `figures::Rect::from_extents` on signed pixels: the rectangle spanned by two
/// corners in either order. Its origin takes the smaller of each component and
/// its size is the larger minus the smaller, formed in `i32`, so each
/// difference has to fit.
#[verifier::external_body]
fn rect_from_extents(p1: Point<i32>, p2: Point<i32>) -> (rect: Rect<i32>)
    requires
        max(p1.x as int, p2.x as int) - min(p1.x as int, p2.x as int) <= i32::MAX,
        max(p1.y as int, p2.y as int) - min(p1.y as int, p2.y as int) <= i32::MAX,
    ensures
        rect.origin.x == min(p1.x as int, p2.x as int),
        rect.origin.y == min(p1.y as int, p2.y as int),
        rect.size.width == max(p1.x as int, p2.x as int) - min(p1.x as int, p2.x as int),
        rect.size.height == max(p1.y as int, p2.y as int) - min(p1.y as int, p2.y as int),
{
    let rect = figures::Rect::from_extents(
        figures::Point::new(p1.x, p1.y),
        figures::Point::new(p2.x, p2.y),
    );
    Rect {
        origin: Point { x: rect.origin.x, y: rect.origin.y },
        size: Size { width: rect.size.width, height: rect.size.height },
    }
}

impl<T> Point<T> {
    pub fn new(x: T, y: T) -> (point: Self)
        ensures
            point.x == x,
            point.y == y,
    {
        Point { x, y }
    }
}

impl<T> Size<T> {
    pub fn new(width: T, height: T) -> (size: Self)
        ensures
            size.width == width,
            size.height == height,
    {
        Size { width, height }
    }
}

impl<T> Rect<T> {
    pub fn new(origin: Point<T>, size: Size<T>) -> (rect: Self)
        ensures
            rect.origin == origin,
            rect.size == size,
    {
        Rect { origin, size }
    }
}

impl Size<u32> {
    /// The number of pixels that the size covers.
    pub open spec fn spec_area(self) -> int {
        self.width * self.height
    }

    /// Whether the number of pixels can be held in 32 bits.
    pub fn area_fits(&self) -> (fits: bool)
        ensures
            fits == (self.spec_area() <= u32::MAX),
    {
        self.width.checked_mul(self.height).is_some()
    }

    /// The number of pixels that the size covers.
    pub fn area(&self) -> (area: u32)
        requires
            self.spec_area() <= u32::MAX,
        ensures
            area == self.spec_area(),
    {
        size_area(self)
    }
}

impl Rect<i32> {
    /// The signed number of pixels: negative when exactly one of width and
    /// height is negative.
    pub open spec fn signed_area(self) -> int {
        self.size.width * self.size.height
    }

    /// Whether the far corner and the absolute size can be held in 32 bits.
    /// Rectangles outside this range have no normal form.
    pub open spec fn normalizable(self) -> bool {
        &&& i32::MIN <= self.origin.x + self.size.width <= i32::MAX
        &&& i32::MIN <= self.origin.y + self.size.height <= i32::MAX
        &&& self.size.width > i32::MIN
        &&& self.size.height > i32::MIN
    }

    /// The normal form: the same pixels, described from the corner with the
    /// smallest coordinates and with a non-negative size.
    pub open spec fn spec_normalized(self) -> Rect<i32> {
        Rect {
            origin: Point {
                x: min(self.origin.x as int, self.origin.x + self.size.width) as i32,
                y: min(self.origin.y as int, self.origin.y + self.size.height) as i32,
            },
            size: Size {
                width: abs(self.size.width as int) as i32,
                height: abs(self.size.height as int) as i32,
            },
        }
    }

    /// The same rectangle described from another corner: from the opposite
    /// end of its width if `x` holds, and of its height if `y` holds.
    pub open spec fn described_from(self, x: bool, y: bool) -> Rect<i32> {
        Rect {
            origin: Point {
                x: if x {
                    (self.origin.x + self.size.width) as i32
                } else {
                    self.origin.x
                },
                y: if y {
                    (self.origin.y + self.size.height) as i32
                } else {
                    self.origin.y
                },
            },
            size: Size {
                width: if x {
                    (-self.size.width) as i32
                } else {
                    self.size.width
                },
                height: if y {
                    (-self.size.height) as i32
                } else {
                    self.size.height
                },
            },
        }
    }

    /// Decides [`Rect::normalizable`].
    pub fn is_normalizable(&self) -> (ok: bool)
        ensures
            ok == self.normalizable(),
    {
        self.origin.x.checked_add(self.size.width).is_some()
            && self.origin.y.checked_add(self.size.height).is_some()
            && self.size.width > i32::MIN
            && self.size.height > i32::MIN
    }

    /// The corner opposite the origin.
    pub fn extent(&self) -> (extent: Point<i32>)
        requires
            i32::MIN <= self.origin.x + self.size.width <= i32::MAX,
            i32::MIN <= self.origin.y + self.size.height <= i32::MAX,
        ensures
            extent.x == self.origin.x + self.size.width,
            extent.y == self.origin.y + self.size.height,
    {
        rect_extent(self)
    }

    /// The rectangle spanned by two corners, given in either order.
    pub fn from_extents(p1: Point<i32>, p2: Point<i32>) -> (rect: Rect<i32>)
        requires
            abs(p1.x - p2.x) <= i32::MAX,
            abs(p1.y - p2.y) <= i32::MAX,
        ensures
            rect.origin.x == min(p1.x as int, p2.x as int),
            rect.origin.y == min(p1.y as int, p2.y as int),
            rect.size.width == abs(p1.x - p2.x),
            rect.size.height == abs(p1.y - p2.y),
    {
        rect_from_extents(p1, p2)
    }

    /// Brings a rectangle with any corner ordering to its normal form. The
    /// result has a non-negative size and covers as many pixels as the input.
    pub fn normalized(&self) -> (normal: Rect<i32>)
        requires
            self.normalizable(),
        ensures
            normal == self.spec_normalized(),
            normal.size.width >= 0,
            normal.size.height >= 0,
            normal.signed_area() == abs(self.signed_area()),
    {
        let far = self.extent();
        let normal = Rect::from_extents(self.origin, far);
        proof {
            lemma_abs_product(self.size.width as int, self.size.height as int);
        }
        normal
    }
}

/// The product of two absolute values is the absolute value of the product.
pub proof fn lemma_abs_product(a: int, b: int)
    ensures
        abs(a) * abs(b) == abs(a * b),
{
    assert(abs(a) * abs(b) == abs(a * b)) by (nonlinear_arith)
        requires
            abs(a) == (if a < 0 { -a } else { a }),
            abs(b) == (if b < 0 { -b } else { b }),
            abs(a * b) == (if a * b < 0 { -(a * b) } else { a * b }),
    ;
}

/// Normalizing leaves a rectangle of non-negative size whose area is the
/// absolute value of the signed area it was given, whichever corner the
/// rectangle was described from.
pub proof fn lemma_normalized_area(rect: Rect<i32>)
    requires
        rect.normalizable(),
    ensures
        rect.spec_normalized().size.width >= 0,
        rect.spec_normalized().size.height >= 0,
        rect.spec_normalized().signed_area() == abs(rect.signed_area()),
        rect.spec_normalized().origin.x <= rect.origin.x,
        rect.spec_normalized().origin.y <= rect.origin.y,
{
    lemma_abs_product(rect.size.width as int, rect.size.height as int);
}

/// The normal form does not depend on the corner that a rectangle is
/// described from: from whichever of its four corners it is described, it
/// has a normal form and the normal form is the same.
pub proof fn lemma_normalized_corner_order(rect: Rect<i32>, x: bool, y: bool)
    requires
        rect.normalizable(),
    ensures
        rect.described_from(x, y).normalizable(),
        rect.described_from(x, y).spec_normalized() == rect.spec_normalized(),
{
}

/// A rectangle that is already in normal form is left as it is, so
/// normalizing twice gives what normalizing once gives.
pub proof fn lemma_normalized_idempotent(rect: Rect<i32>)
    requires
        rect.normalizable(),
    ensures
        rect.spec_normalized().normalizable(),
        rect.spec_normalized().spec_normalized() == rect.spec_normalized(),
{
}

} // verus!
