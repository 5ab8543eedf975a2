use libremarkable::geometry::{Point2, Vector2};

use libremarkable::input::rotate::{CoordinatePart, InputDeviceRotation};

#[test]
fn check_rotations() {
    let point = Point2 { x: 0, y: 0 };
    let size = Vector2 { x: 200, y: 100 };
    assert_eq!(InputDeviceRotation::Rot0.rotate_point(&point, &size), Point2 { x: 0, y: 0 });
    assert_eq!(InputDeviceRotation::Rot90.rotate_point(&point, &size), Point2 { x: 100, y: 0 });
    assert_eq!(InputDeviceRotation::Rot180.rotate_point(&point, &size), Point2 { x: 200, y: 100 });
    assert_eq!(InputDeviceRotation::Rot270.rotate_point(&point, &size), Point2 { x: 0, y: 200 });
}

#[test]
fn rotate_part_moves_axes() {
    let size = Vector2 { x: 200, y: 100 };
    assert_eq!(InputDeviceRotation::Rot0.rotate_part(CoordinatePart::X(5), &size), CoordinatePart::X(5));
    assert_eq!(InputDeviceRotation::Rot90.rotate_part(CoordinatePart::X(5), &size), CoordinatePart::Y(5));
    assert_eq!(InputDeviceRotation::Rot90.rotate_part(CoordinatePart::Y(5), &size), CoordinatePart::X(95));
    assert_eq!(InputDeviceRotation::Rot180.rotate_part(CoordinatePart::X(5), &size), CoordinatePart::X(195));
    assert_eq!(InputDeviceRotation::Rot180.rotate_part(CoordinatePart::Y(5), &size), CoordinatePart::Y(95));
    assert_eq!(InputDeviceRotation::Rot270.rotate_part(CoordinatePart::X(5), &size), CoordinatePart::Y(195));
    assert_eq!(InputDeviceRotation::Rot270.rotate_part(CoordinatePart::Y(5), &size), CoordinatePart::X(5));
}

#[test]
fn swapping_axes() {
    let size = Vector2 { x: 767, y: 1023 };
    assert!(!InputDeviceRotation::Rot0.should_swap_size_axes());
    assert!(InputDeviceRotation::Rot90.should_swap_size_axes());
    assert!(!InputDeviceRotation::Rot180.should_swap_size_axes());
    assert!(InputDeviceRotation::Rot270.should_swap_size_axes());
    assert_eq!(InputDeviceRotation::Rot270.rotated_size(&size), Vector2 { x: 1023, y: 767 });
    assert_eq!(InputDeviceRotation::Rot180.rotated_size(&size), size);
    // rotating the size twice gives it back
    let once = InputDeviceRotation::Rot90.rotated_size(&size);
    assert_eq!(InputDeviceRotation::Rot90.rotated_size(&once), size);
}

#[test]
fn rotations_undo_each_other() {
    let size = Vector2 { x: 200, y: 100 };
    let p = Point2 { x: 37, y: 81 };
    let turned = InputDeviceRotation::Rot90.rotate_point(&p, &size);
    let back = InputDeviceRotation::Rot270.rotate_point(&turned, &InputDeviceRotation::Rot90.rotated_size(&size));
    assert_eq!(back, p);
    let twice = InputDeviceRotation::Rot180.rotate_point(&InputDeviceRotation::Rot180.rotate_point(&p, &size), &size);
    assert_eq!(twice, p);
}
