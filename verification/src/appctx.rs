use vstd::prelude::*;

use crate::geometry::Point2;
use crate::input::MultitouchEvent;

verus! {

// The decisions of the application context's event loop; the loop itself,
// the channels and the handlers it calls belong to the application.

/// The point at which a touch event looks for an active region, if it does:
/// a press or a move of a gesture other than `last_gesture` looks at the
/// finger's position (y, x). Answers the gesture seen last afterwards too.
pub fn active_region_probe(last_gesture: i32, event: &MultitouchEvent) -> (r: (Option<Point2<u16>>, i32))
    ensures
        r == match *event {
            MultitouchEvent::Press { finger } | MultitouchEvent::Move { finger } => if finger.tracking_id
                != last_gesture {
                (Some(finger.pos), finger.tracking_id)
            } else {
                (None, last_gesture)
            },
            _ => (None, last_gesture),
        },
{
    match event {
        MultitouchEvent::Press { finger } | MultitouchEvent::Move { finger } => {
            let gseq = finger.tracking_id;
            if last_gesture != gseq {
                (Some(finger.pos), gseq)
            } else {
                (None, last_gesture)
            }
        },
        _ => (None, last_gesture),
    }
}

} // verus!
