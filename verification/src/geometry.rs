use vstd::prelude::*;

verus! {

/// A point in a two-dimensional integer coordinate space.
#[derive(Clone, Copy, Debug, PartialEq, Eq, Structural)]
pub struct Point2<T> {
    pub x: T,
    pub y: T,
}

/// A displacement or a size in a two-dimensional integer coordinate space.
#[derive(Clone, Copy, Debug, PartialEq, Eq, Structural)]
pub struct Vector2<T> {
    pub x: T,
    pub y: T,
}

} // verus!
