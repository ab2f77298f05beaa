//! Hand geometry shared with the computer-vision models.
use vstd::prelude::*;

verus! {

#[derive(Copy, Clone, Debug)]
pub struct Coord3D<T> {
    pub x: T,
    pub y: T,
    pub z: T,
}

pub struct Coord2D<T> {
    pub x: T,
    pub y: T,
}

/// A box by its centre, width and height.
#[derive(Debug)]
pub struct BoundBox<T> {
    pub x: T,
    pub y: T,
    pub w: T,
    pub h: T,
}

#[derive(Debug, Clone, Copy, PartialEq, Eq)]
pub enum Hand {
    Left,
    Right,
}

/// The 21 hand landmarks, in the order the landmark model gives them.
#[derive(Debug, Clone, Copy, PartialEq, Eq)]
pub enum PointIndices {
    Wrist,
    ThumbCMC,
    ThumbMCP,
    ThumbIP,
    ThumbTip,
    IndexFingerMCP,
    IndexFingerPIP,
    IndexFingerDIP,
    IndexFingerTip,
    MiddleFingerMCP,
    MiddleFingerPIP,
    MiddleFingerDIP,
    MiddleFingerTip,
    RingFingerMCP,
    RingFingerPIP,
    RingFingerDIP,
    RingFingerTIP,
    PinkyMCP,
    PinkyPIP,
    PinkyDIP,
    PinkyTip,
}

/// The five digits, thumb first.
#[derive(Debug, Clone, Copy, PartialEq, Eq)]
pub enum DigitIndices {
    Thumb,
    Index,
    Middle,
    Ring,
    Pinky,
}

impl DigitIndices {
    /// The landmark index of the digit's first point (its CMC for the thumb,
    /// its MCP for the fingers).
    pub open spec fn spec_base(self) -> int {
        match self {
            DigitIndices::Thumb => 1,
            DigitIndices::Index => 5,
            DigitIndices::Middle => 9,
            DigitIndices::Ring => 13,
            DigitIndices::Pinky => 17,
        }
    }
}

/// The landmark at index `i` of a flat list of coordinate triples.
pub open spec fn spec_point<T>(points: Seq<T>, i: int) -> Coord3D<T> {
    Coord3D { x: points[3 * i], y: points[3 * i + 1], z: points[3 * i + 2] }
}

fn point<T: Copy>(points: &[T], i: usize) -> (r: Coord3D<T>)
    requires
        3 * i + 2 < points.len(),
    ensures
        r == spec_point(points@, i as int),
{
    Coord3D { x: points[3 * i], y: points[3 * i + 1], z: points[3 * i + 2] }
}

fn digit<T: Copy>(points: &[T], base: usize) -> (r: [Coord3D<T>; 4])
    requires
        points.len() == 63,
        1 <= base <= 17,
    ensures
        forall|j: int| 0 <= j < 4 ==> #[trigger] r@[j] == spec_point(points@, base + j),
{
    let r = [point(points, base), point(points, base + 1), point(points, base + 2), point(points, base + 3)];
    assert forall|j: int| 0 <= j < 4 implies #[trigger] r@[j] == spec_point(points@, base + j) by {
        if j == 0 {
        } else if j == 1 {
        } else if j == 2 {
        } else {
        }
    }
    r
}

/// Groups the 21 landmarks (given as 63 coordinates, three per point) into
/// the five digits, four points each from the digit's base to its tip.
pub fn digits_from_points<T: Copy>(points: &[T]) -> (r: [[Coord3D<T>; 4]; 5])
    requires
        points.len() == 63,
    ensures
        forall|d: int, j: int|
            0 <= d < 5 && 0 <= j < 4 ==> #[trigger] r@[d]@[j] == spec_point(points@, 4 * d + 1 + j),
{
    let r = [digit(points, 1), digit(points, 5), digit(points, 9), digit(points, 13), digit(points, 17)];
    assert forall|d: int, j: int| 0 <= d < 5 && 0 <= j < 4 implies #[trigger] r@[d]@[j] == spec_point(
        points@,
        4 * d + 1 + j,
    ) by {
        if d == 0 {
        } else if d == 1 {
        } else if d == 2 {
        } else if d == 3 {
        } else {
        }
    }
    r
}

} // verus!
