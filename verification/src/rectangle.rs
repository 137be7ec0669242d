use vstd::prelude::*;

verus! {

/// An axis-aligned rectangle given by its side lengths.
#[derive(Debug, Clone, Copy)]
pub struct Rectangle {
    pub width: u32,
    pub height: u32,
}

/// The area of a `width` by `height` rectangle.
pub open spec fn area_of(width: u32, height: u32) -> int {
    width * height
}

/// Whether a `width` by `height` rectangle fits strictly inside one of
/// `outer_width` by `outer_height`, sides kept parallel.
pub open spec fn fits_inside(width: u32, height: u32, outer_width: u32, outer_height: u32) -> bool {
    outer_width > width && outer_height > height
}

impl Rectangle {
    /// The area of the rectangle; it must fit in a `u32`.
    pub fn area(&self) -> (r: u32)
        requires
            area_of(self.width, self.height) <= u32::MAX,
        ensures
            r == area_of(self.width, self.height),
    {
        self.width * self.height
    }

    /// Whether `other` fits strictly inside this rectangle: both its sides
    /// are shorter than the matching sides of this one.
    pub fn can_hold(&self, other: &Rectangle) -> (r: bool)
        ensures
            r == fits_inside(other.width, other.height, self.width, self.height),
            r <==> other.width < self.width && other.height < self.height,
    {
        self.width > other.width && self.height > other.height
    }

    /// The square with sides of length `width`.
    pub fn square(width: u32) -> (r: Rectangle)
        ensures
            r.width == width,
            r.height == width,
    {
        Rectangle { width: width, height: width }
    }
}

/// The area of `rectangle`; it must fit in a `u32`.
pub fn area(rectangle: &Rectangle) -> (r: u32)
    requires
        area_of(rectangle.width, rectangle.height) <= u32::MAX,
    ensures
        r == area_of(rectangle.width, rectangle.height),
{
    rectangle.width * rectangle.height
}

/// When one rectangle fits inside another: exactly when its width is less
/// than the other's width and its height less than the other's height; the
/// height of one is never compared with the width of the other.
pub proof fn lemma_fits_inside_exactly(width: u32, height: u32, outer_width: u32, outer_height: u32)
    ensures
        fits_inside(width, height, outer_width, outer_height) <==> (width < outer_width && height
            < outer_height),
{
}

/// The area of a rectangle is its width times its height; a square's area is
/// the square of its side.
pub proof fn lemma_area_is_product(width: u32, height: u32)
    ensures
        area_of(width, height) == width as int * height as int,
        area_of(width, width) == width as int * width as int,
        area_of(width, height) == area_of(height, width),
{
    assert(width as int * height as int == height as int * width as int) by (nonlinear_arith);
}

/// No rectangle holds itself, holding is transitive, and a rectangle that is
/// held has a smaller area than the one holding it.
pub proof fn lemma_holding_is_strict_order(a: Rectangle, b: Rectangle, c: Rectangle)
    ensures
        !fits_inside(a.width, a.height, a.width, a.height),
        fits_inside(c.width, c.height, b.width, b.height) && fits_inside(
            b.width,
            b.height,
            a.width,
            a.height,
        ) ==> fits_inside(c.width, c.height, a.width, a.height),
        fits_inside(b.width, b.height, a.width, a.height) ==> area_of(b.width, b.height) < area_of(
            a.width,
            a.height,
        ),
{
    if fits_inside(b.width, b.height, a.width, a.height) {
        let (bw, bh, aw, ah) = (b.width as int, b.height as int, a.width as int, a.height as int);
        assert(bw * bh < aw * ah) by (nonlinear_arith)
            requires
                0 <= bw < aw,
                0 <= bh < ah,
        ;
    }
}

} // verus!
