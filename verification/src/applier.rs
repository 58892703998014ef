//! The one place where writes reach the canvas.
//!
//! Every session hands its writes to a single applier, which takes them one
//! at a time in the order in which they arrive. That order is the order of
//! the writes: of two writes to one cell, the later one stays.

use crate::canvas::Canvas;
use crate::hub::Hub;
use crate::point::Point;
use vstd::prelude::*;

verus! {

/// Applies one write and names the sessions that are owed a copy of it.
///
/// A write inside the canvas is committed and goes to every session that is
/// subscribed now. A write outside the canvas is dropped: the canvas stays as
/// it was and nobody hears of it.
pub fn commit(canvas: &mut Canvas, hub: &Hub, write: &Point) -> (recipients: Vec<u64>)
    ensures
        final(canvas)@ == old(canvas)@.apply(*write),
        recipients@ == if old(canvas)@.holds(write.x as nat, write.y as nat) {
            hub@.subscribers
        } else {
            Seq::empty()
        },
        !old(canvas)@.holds(write.x as nat, write.y as nat) ==> final(canvas)@ == old(canvas)@,
{
    if canvas.apply(write) {
        hub.publish(write)
    } else {
        Vec::new()
    }
}

} // verus!
