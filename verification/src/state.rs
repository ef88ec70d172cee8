//! Per-IO-thread state: the static canvas geometry and this worker's own
//! triple buffer. Workers do not share a canvas; each one's clients write
//! into the producer slot of its private buffer.

use vstd::prelude::*;

use crate::canvas::Coord;
use crate::triple_buffer::PixelflutTripleBuffer;

verus! {

/// The canvas geometry, fixed at startup and shared by every worker.
#[derive(Clone, Copy, PartialEq, Eq, Structural, Debug)]
pub struct PixelflutGlobalConfig {
    pub width: Coord,
    pub height: Coord,
}

/// State of each IO thread, shared between that thread's clients.
pub struct PixelflutIOWorkerState {
    pub global_config: PixelflutGlobalConfig,
    pub my_present_queue: PixelflutTripleBuffer,
}

impl PixelflutIOWorkerState {
    /// The worker's triple buffer is well formed and matches the
    /// advertised geometry.
    pub open spec fn wf(self) -> bool {
        &&& self.my_present_queue.wf()
        &&& self.my_present_queue@.width() == self.global_config.width
        &&& self.my_present_queue@.height() == self.global_config.height
    }

    /// A worker for the given geometry, with a fresh triple buffer:
    /// every slot transparent black, no dirty markers.
    pub fn new_with(width: Coord, height: Coord) -> (w: Self)
        requires
            width * height <= usize::MAX,
        ensures
            w.wf(),
            w.global_config == (PixelflutGlobalConfig { width, height }),
            w.my_present_queue@.producer_index() == 0,
            w.my_present_queue@.idle_index() == 1,
            w.my_present_queue@.consumer_index() == 2,
            forall|i: int|
                0 <= i < 3 ==> (#[trigger] w.my_present_queue@.slots[i]).dirty == Set::<
                    usize,
                >::empty(),
    {
        PixelflutIOWorkerState {
            global_config: PixelflutGlobalConfig { width, height },
            my_present_queue: PixelflutTripleBuffer::new_with(width, height),
        }
    }
}

} // verus!
