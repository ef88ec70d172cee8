//! The game aggregate: the global canvas that presentation reads, and the
//! per-IO-thread workers whose triple buffers feed it. The aggregation
//! step rotates every worker's consumer side and drains the frame it
//! receives into the global canvas, in worker order.

use vstd::prelude::*;

use crate::canvas::CanvasView;
use crate::canvas::Coord;
use crate::canvas::PixelflutImage;
use crate::config::Config;
use crate::pixel::RGBAPixel;
use crate::state::PixelflutGlobalConfig;
use crate::state::PixelflutIOWorkerState;
use crate::triple_buffer::swap_consumer_word;

verus! {

/// A destination pixel grid after one source canvas is overlaid: every
/// index dirty in the source takes the source's value, every other index
/// keeps the destination's.
pub open spec fn overlay_pixels(dst: Seq<RGBAPixel>, src: CanvasView) -> Seq<RGBAPixel> {
    Seq::new(
        dst.len(),
        |i: int|
            if src.dirty.contains(i as usize) {
                src.pixels[i]
            } else {
                dst[i]
            },
    )
}

/// A destination pixel grid after a sequence of frames is overlaid onto
/// it, first frame first.
pub open spec fn combined_pixels(dst: Seq<RGBAPixel>, frames: Seq<CanvasView>) -> Seq<RGBAPixel>
    decreases frames.len(),
{
    if frames.len() == 0 {
        dst
    } else {
        combined_pixels(overlay_pixels(dst, frames[0]), frames.drop_first())
    }
}

/// Overlaying one more frame after a sequence equals overlaying it onto
/// the combined result.
pub proof fn lemma_combined_pixels_push(
    dst: Seq<RGBAPixel>,
    frames: Seq<CanvasView>,
    f: CanvasView,
)
    ensures
        combined_pixels(dst, frames.push(f)) == overlay_pixels(combined_pixels(dst, frames), f),
    decreases frames.len(),
{
    if frames.len() == 0 {
        assert(frames.push(f)[0] == f);
        assert(frames.push(f).drop_first() =~= Seq::<CanvasView>::empty());
        assert(combined_pixels(dst, frames.push(f)) == combined_pixels(
            overlay_pixels(dst, f),
            Seq::<CanvasView>::empty(),
        ));
    } else {
        assert(frames.push(f)[0] == frames[0]);
        assert(frames.push(f).drop_first() =~= frames.drop_first().push(f));
        lemma_combined_pixels_push(overlay_pixels(dst, frames[0]), frames.drop_first(), f);
        assert(combined_pixels(dst, frames.push(f)) == combined_pixels(
            overlay_pixels(dst, frames[0]),
            frames.drop_first().push(f),
        ));
        assert(combined_pixels(dst, frames) == combined_pixels(
            overlay_pixels(dst, frames[0]),
            frames.drop_first(),
        ));
    }
}

/// The frame each worker holds in its idle slot: the completed frame the
/// aggregation step will pick up when it rotates that worker's consumer
/// side.
pub open spec fn idle_frames(workers: Seq<PixelflutIOWorkerState>) -> Seq<CanvasView> {
    Seq::new(workers.len(), |i: int| workers[i].my_present_queue@.idle())
}

/// A worker as it looks right at startup.
pub open spec fn fresh_worker(w: PixelflutIOWorkerState, width: Coord, height: Coord) -> bool {
    &&& w.wf()
    &&& w.global_config == (PixelflutGlobalConfig { width, height })
    &&& w.my_present_queue@.producer_index() == 0
    &&& w.my_present_queue@.idle_index() == 1
    &&& w.my_present_queue@.consumer_index() == 2
    &&& forall|j: int|
        0 <= j < 3 ==> (#[trigger] w.my_present_queue@.slots[j]).dirty == Set::<usize>::empty()
}

/// How one aggregation pass changes a worker: the role word rotates on
/// the consumer side, the producer's slot and the slot that becomes idle
/// keep their content, and the frame that was idle — now consumer-held —
/// is drained of its dirty markers with its pixels intact.
pub open spec fn drained_worker(ow: PixelflutIOWorkerState, nw: PixelflutIOWorkerState) -> bool {
    let otb = ow.my_present_queue@;
    let ntb = nw.my_present_queue@;
    &&& nw.wf()
    &&& nw.global_config == ow.global_config
    &&& ntb.word == swap_consumer_word(otb.word)
    &&& ntb.slots.len() == 3
    &&& ntb.slots[otb.producer_index()] == otb.slots[otb.producer_index()]
    &&& ntb.slots[otb.consumer_index()] == otb.slots[otb.consumer_index()]
    &&& ntb.slots[otb.idle_index()] == (CanvasView {
        dirty: Set::<usize>::empty(),
        ..otb.slots[otb.idle_index()]
    })
}

/// Relies on `rand::random_range`: a uniformly random value inside the
/// given range; `0..n` is nonempty here, so the call returns a value
/// below `n`.
#[verifier::external_body]
fn random_below(n: usize) -> (r: usize)
    requires
        n >= 1,
    ensures
        r < n,
{
    rand::random_range(0..n)
}

/// The mathematical content of the game: the global canvas and the
/// worker list.
#[verifier::ext_equal]
pub struct GameView {
    pub canvas: CanvasView,
    pub workers: Seq<PixelflutIOWorkerState>,
}

impl GameView {
    /// The global canvas is well formed and fits the machine's
    /// addressable range, and every worker is well formed with the same
    /// geometry as the global canvas.
    pub open spec fn wf(self) -> bool {
        &&& self.canvas.wf()
        &&& self.canvas.width * self.canvas.height <= usize::MAX
        &&& forall|i: int| 0 <= i < self.workers.len() ==> (#[trigger] self.workers[i]).wf()
        &&& forall|i: int|
            0 <= i < self.workers.len() ==> (#[trigger] self.workers[i]).global_config.width as nat
                == self.canvas.width && self.workers[i].global_config.height as nat
                == self.canvas.height
    }
}

/// The global canvas plus every worker's state, constructed once at
/// startup and handed to the tasks that need it.
pub struct PixelflutGame {
    image: PixelflutImage,
    workers: Vec<PixelflutIOWorkerState>,
}

impl View for PixelflutGame {
    type V = GameView;

    closed spec fn view(&self) -> GameView {
        GameView { canvas: self.image@, workers: self.workers@ }
    }
}

impl PixelflutGame {
    /// The internal invariant, stated on the view.
    pub open spec fn wf(self) -> bool {
        self@.wf()
    }

    /// A game for the given configuration: a transparent-black global
    /// canvas and one fresh worker per IO thread.
    pub fn new(config: &Config) -> (game: Self)
        requires
            config.num_io_threads >= 1,
            config.image_width * config.image_height <= usize::MAX,
        ensures
            game.wf(),
            game@.canvas.width == config.image_width,
            game@.canvas.height == config.image_height,
            game@.canvas.dirty == Set::<usize>::empty(),
            forall|i: int|
                0 <= i < game@.canvas.pixels.len() ==> game@.canvas.pixels[i] == (RGBAPixel {
                    r: 0u8,
                    g: 0u8,
                    b: 0u8,
                    a: 0u8,
                }),
            game@.workers.len() == config.num_io_threads,
            forall|i: int|
                0 <= i < game@.workers.len() ==> fresh_worker(
                    #[trigger] game@.workers[i],
                    config.image_width,
                    config.image_height,
                ),
    {
        let image = PixelflutImage::new_with(config.image_width, config.image_height);
        let mut workers: Vec<PixelflutIOWorkerState> = Vec::new();
        let mut i: usize = 0;
        while i < config.num_io_threads
            invariant
                i <= config.num_io_threads,
                workers@.len() == i,
                config.image_width * config.image_height <= usize::MAX,
                forall|j: int|
                    0 <= j < i ==> fresh_worker(
                        #[trigger] workers@[j],
                        config.image_width,
                        config.image_height,
                    ),
            decreases config.num_io_threads - i,
        {
            workers.push(
                PixelflutIOWorkerState::new_with(config.image_width, config.image_height),
            );
            i = i + 1;
        }
        PixelflutGame { image, workers }
    }

    /// The global canvas, for presentation to read.
    pub fn image(&self) -> (img: &PixelflutImage)
        ensures
            img@ == self@.canvas,
            self.wf() ==> img.wf(),
    {
        &self.image
    }

    /// The number of workers.
    pub fn num_workers(&self) -> (n: usize)
        ensures
            n == self@.workers.len(),
    {
        self.workers.len()
    }

    /// The worker with the given id.
    pub fn for_worker(&self, id: usize) -> (w: &PixelflutIOWorkerState)
        requires
            id < self@.workers.len(),
        ensures
            *w == self@.workers[id as int],
    {
        &self.workers[id]
    }

    /// Exclusive access to the worker with the given id, for the IO
    /// thread that owns it.
    pub fn worker_mut(&mut self, id: usize) -> (w: &mut PixelflutIOWorkerState)
        requires
            id < old(self)@.workers.len(),
        ensures
            *w == old(self)@.workers[id as int],
            final(self)@.canvas == old(self)@.canvas,
            final(self)@.workers == old(self)@.workers.update(id as int, *final(w)),
    {
        &mut self.workers[id]
    }

    /// Pick the worker that receives a newly accepted connection:
    /// uniformly at random among the workers.
    pub fn pick_worker(&self) -> (id: usize)
        requires
            self@.workers.len() >= 1,
        ensures
            id < self@.workers.len(),
    {
        random_below(self.workers.len())
    }

    /// The aggregation step: for every worker in order, rotate its
    /// consumer side and drain the frame so received — the one that was
    /// idle — into the global canvas. Only this path writes the global
    /// canvas.
    pub fn combine_all(&mut self)
        requires
            old(self).wf(),
        ensures
            final(self).wf(),
            final(self)@.canvas.width == old(self)@.canvas.width,
            final(self)@.canvas.height == old(self)@.canvas.height,
            final(self)@.canvas.dirty == old(self)@.canvas.dirty,
            final(self)@.canvas.pixels == combined_pixels(
                old(self)@.canvas.pixels,
                idle_frames(old(self)@.workers),
            ),
            final(self)@.workers.len() == old(self)@.workers.len(),
            forall|i: int|
                0 <= i < old(self)@.workers.len() ==> drained_worker(
                    old(self)@.workers[i],
                    #[trigger] final(self)@.workers[i],
                ),
    {
        let ghost g0 = self@;
        let n: usize = self.workers.len();
        let mut k: usize = 0;
        while k < n
            invariant
                k <= n,
                n == self@.workers.len(),
                n == g0.workers.len(),
                g0.wf(),
                self@.canvas.wf(),
                self@.canvas.width * self@.canvas.height <= usize::MAX,
                self@.canvas.width == g0.canvas.width,
                self@.canvas.height == g0.canvas.height,
                self@.canvas.dirty == g0.canvas.dirty,
                self@.canvas.pixels == combined_pixels(
                    g0.canvas.pixels,
                    idle_frames(g0.workers).take(k as int),
                ),
                forall|j: int| k <= j < n ==> self@.workers[j] == g0.workers[j],
                forall|j: int|
                    0 <= j < k ==> drained_worker(g0.workers[j], #[trigger] self@.workers[j]),
            decreases n - k,
        {
            proof {
                assert(self@.workers[k as int] == g0.workers[k as int]);
                assert(g0.workers[k as int].wf());
            }
            let ghost pixels_before = self@.canvas.pixels;
            let w = &mut self.workers[k];
            w.my_present_queue.swap_consumer_side();
            let img = w.my_present_queue.consumer_buffer();
            self.image.combine_with(img);
            proof {
                let frames = idle_frames(g0.workers);
                lemma_combined_pixels_push(g0.canvas.pixels, frames.take(k as int), frames[k as int]);
                assert(frames.take(k as int).push(frames[k as int]) =~= frames.take(k as int + 1));
                assert(self@.canvas.pixels =~= overlay_pixels(pixels_before, frames[k as int]));
            }
            k = k + 1;
        }
        proof {
            assert(idle_frames(g0.workers).take(n as int) =~= idle_frames(g0.workers));
        }
    }
}

} // verus!
