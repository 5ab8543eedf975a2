use vstd::prelude::*;

use crate::geometry::{Point2, Vector2};

verus! {

/// Describing the rotation of input devices.
#[derive(Clone, Copy, Debug, PartialEq, Eq, Structural)]
pub enum InputDeviceRotation {
    /// When viewing the device in the standard portrait rotation,
    /// the origin of this input device is on the top left
    Rot0,
    /// When viewing the device in the standard portrait rotation,
    /// the origin of this input device is on the top right
    Rot90,
    /// When viewing the device in the standard portrait rotation,
    /// the origin of this input device is on the bottom right
    Rot180,
    /// When viewing the device in the standard portrait rotation,
    /// the origin of this input device is on the bottom left
    Rot270,
}

/// One coordinate of a point, tagged with its axis.
#[derive(Clone, Copy, Debug, PartialEq, Eq, Structural)]
pub enum CoordinatePart {
    X(u16),
    Y(u16),
}

impl InputDeviceRotation {
    /// The subtractions of `rotate_part` stay within `u16`: a coordinate that is
    /// mirrored does not exceed the size on its axis.
    pub open spec fn part_fits(self, seg: CoordinatePart, size: Vector2<u16>) -> bool {
        match seg {
            CoordinatePart::X(x) => (self == InputDeviceRotation::Rot180 || self
                == InputDeviceRotation::Rot270) ==> x <= size.x,
            CoordinatePart::Y(y) => (self == InputDeviceRotation::Rot90 || self
                == InputDeviceRotation::Rot180) ==> y <= size.y,
        }
    }

    pub open spec fn spec_rotate_part(self, seg: CoordinatePart, size: Vector2<u16>) -> CoordinatePart {
        match seg {
            CoordinatePart::X(x) => match self {
                InputDeviceRotation::Rot0 => CoordinatePart::X(x),
                InputDeviceRotation::Rot90 => CoordinatePart::Y(x),
                InputDeviceRotation::Rot180 => CoordinatePart::X((size.x - x) as u16),
                InputDeviceRotation::Rot270 => CoordinatePart::Y((size.x - x) as u16),
            },
            CoordinatePart::Y(y) => match self {
                InputDeviceRotation::Rot0 => CoordinatePart::Y(y),
                InputDeviceRotation::Rot90 => CoordinatePart::X((size.y - y) as u16),
                InputDeviceRotation::Rot180 => CoordinatePart::Y((size.y - y) as u16),
                InputDeviceRotation::Rot270 => CoordinatePart::X(y),
            },
        }
    }

    /// Both coordinates of `point` may be rotated.
    pub open spec fn point_fits(self, point: Point2<u16>, size: Vector2<u16>) -> bool {
        self.part_fits(CoordinatePart::X(point.x), size) && self.part_fits(
            CoordinatePart::Y(point.y),
            size,
        )
    }

    /// The point as seen in portrait rotation.
    pub open spec fn spec_rotate_point(self, point: Point2<u16>, size: Vector2<u16>) -> Point2<u16> {
        match self {
            InputDeviceRotation::Rot0 => point,
            InputDeviceRotation::Rot90 => Point2 { x: (size.y - point.y) as u16, y: point.x },
            InputDeviceRotation::Rot180 => Point2 {
                x: (size.x - point.x) as u16,
                y: (size.y - point.y) as u16,
            },
            InputDeviceRotation::Rot270 => Point2 { x: point.y, y: (size.x - point.x) as u16 },
        }
    }

    pub open spec fn spec_should_swap_size_axes(self) -> bool {
        self == InputDeviceRotation::Rot90 || self == InputDeviceRotation::Rot270
    }

    pub open spec fn spec_rotated_size(self, src_size: Vector2<u16>) -> Vector2<u16> {
        if self.spec_should_swap_size_axes() {
            Vector2 { x: src_size.y, y: src_size.x }
        } else {
            src_size
        }
    }

    /// Takes a single coordinate part (`seg` == x or y coord) and returns the new coordinate
    /// depending on the rotation of the device.
    /// `size` must be the unrotated size of the ev device that is used.
    pub fn rotate_part(&self, seg: CoordinatePart, size: &Vector2<u16>) -> (r: CoordinatePart)
        requires
            self.part_fits(seg, *size),
        ensures
            r == self.spec_rotate_part(seg, *size),
    {
        match seg {
            CoordinatePart::X(x) => match self {
                InputDeviceRotation::Rot0 => CoordinatePart::X(x),
                InputDeviceRotation::Rot90 => CoordinatePart::Y(x),
                InputDeviceRotation::Rot180 => CoordinatePart::X(size.x - x),
                InputDeviceRotation::Rot270 => CoordinatePart::Y(size.x - x),
            },
            CoordinatePart::Y(y) => match self {
                InputDeviceRotation::Rot0 => CoordinatePart::Y(y),
                InputDeviceRotation::Rot90 => CoordinatePart::X(size.y - y),
                InputDeviceRotation::Rot180 => CoordinatePart::Y(size.y - y),
                InputDeviceRotation::Rot270 => CoordinatePart::X(y),
            },
        }
    }

    /// Same as `rotate_part` but for a whole point.
    pub fn rotate_point(&self, point: &Point2<u16>, size: &Vector2<u16>) -> (r: Point2<u16>)
        requires
            self.point_fits(*point, *size),
        ensures
            r == self.spec_rotate_point(*point, *size),
    {
        let rot_seg_x = self.rotate_part(CoordinatePart::X(point.x), size);
        let rot_seg_y = self.rotate_part(CoordinatePart::Y(point.y), size);
        match (rot_seg_x, rot_seg_y) {
            (CoordinatePart::X(x), CoordinatePart::Y(y)) => Point2 { x, y },
            (CoordinatePart::Y(y), CoordinatePart::X(x)) => Point2 { x, y },
            // every rotation keeps the two parts on different axes
            (CoordinatePart::X(x), CoordinatePart::X(_)) => {
                proof {
                    assert(false);
                }
                Point2 { x, y: x }
            },
            (CoordinatePart::Y(y), CoordinatePart::Y(_)) => {
                proof {
                    assert(false);
                }
                Point2 { x: y, y }
            },
        }
    }

    /// Whether, going by the rotation, width and height should be swapped.
    pub fn should_swap_size_axes(&self) -> (b: bool)
        ensures
            b == self.spec_should_swap_size_axes(),
    {
        match self {
            InputDeviceRotation::Rot0 | InputDeviceRotation::Rot180 => false,
            InputDeviceRotation::Rot90 | InputDeviceRotation::Rot270 => true,
        }
    }

    /// Returns the same dimensions.
    /// These are swapped however when `should_swap_size_axes() == true`
    pub fn rotated_size(&self, src_size: &Vector2<u16>) -> (r: Vector2<u16>)
        ensures
            r == self.spec_rotated_size(*src_size),
    {
        if self.should_swap_size_axes() {
            Vector2 { x: src_size.y, y: src_size.x }
        } else {
            *src_size
        }
    }
}

/// Rotating a size twice gives the size back.
pub proof fn lemma_rotated_size_involutive(rot: InputDeviceRotation, size: Vector2<u16>)
    ensures
        rot.spec_rotated_size(rot.spec_rotated_size(size)) == size,
{
}

/// A point inside the device's unrotated area lands inside the rotated area.
pub proof fn lemma_rotate_point_in_bounds(
    rot: InputDeviceRotation,
    point: Point2<u16>,
    size: Vector2<u16>,
)
    requires
        point.x <= size.x,
        point.y <= size.y,
    ensures
        rot.point_fits(point, size),
        rot.spec_rotate_point(point, size).x <= rot.spec_rotated_size(size).x,
        rot.spec_rotate_point(point, size).y <= rot.spec_rotated_size(size).y,
{
}

/// Turning by 90 degrees and then by 270 degrees, with the size rotated in
/// between, gives the same point back; so does turning twice by 180.
pub proof fn lemma_rotations_undo(point: Point2<u16>, size: Vector2<u16>)
    requires
        point.x <= size.x,
        point.y <= size.y,
    ensures
        InputDeviceRotation::Rot270.spec_rotate_point(
            InputDeviceRotation::Rot90.spec_rotate_point(point, size),
            InputDeviceRotation::Rot90.spec_rotated_size(size),
        ) == point,
        InputDeviceRotation::Rot90.spec_rotate_point(
            InputDeviceRotation::Rot270.spec_rotate_point(point, size),
            InputDeviceRotation::Rot270.spec_rotated_size(size),
        ) == point,
        InputDeviceRotation::Rot180.spec_rotate_point(
            InputDeviceRotation::Rot180.spec_rotate_point(point, size),
            size,
        ) == point,
        InputDeviceRotation::Rot0.spec_rotate_point(point, size) == point,
{
}

} // verus!
