//! Plain values of the drawing interface: points, sizes, rectangles and coloured pixels.
use crate::three_color::ThreeColor;
use vstd::prelude::*;

verus! {

/// A point of the drawing plane; `x` grows to the right and `y` downwards.
#[derive(Clone, Copy, PartialEq, Eq, Debug, Structural)]
pub struct Point {
    pub x: i32,
    pub y: i32,
}

impl Point {
    /// The point `(x, y)`.
    pub fn new(x: i32, y: i32) -> (point: Self)
        ensures
            point == (Point { x, y }),
    {
        Point { x, y }
    }

    /// The origin.
    pub fn zero() -> (point: Self)
        ensures
            point == (Point { x: 0, y: 0 }),
    {
        Point { x: 0, y: 0 }
    }
}

/// An extent in pixels.
#[derive(Clone, Copy, PartialEq, Eq, Debug, Structural)]
pub struct Size {
    pub width: u32,
    pub height: u32,
}

impl Size {
    /// The extent of `width` by `height` pixels.
    pub fn new(width: u32, height: u32) -> (size: Self)
        ensures
            size == (Size { width, height }),
    {
        Size { width, height }
    }
}

/// A rectangle with its sides along the axes.
#[derive(Clone, Copy, PartialEq, Eq, Debug, Structural)]
pub struct Rectangle {
    pub top_left: Point,
    pub size: Size,
}

impl Rectangle {
    /// The rectangle of the given size whose top left corner is `top_left`.
    pub fn new(top_left: Point, size: Size) -> (rectangle: Self)
        ensures
            rectangle == (Rectangle { top_left, size }),
    {
        Rectangle { top_left, size }
    }
}

/// A point together with the colour to give it.
#[derive(Clone, Copy, PartialEq, Eq, Debug, Structural)]
pub struct Pixel(pub Point, pub ThreeColor);

} // verus!
