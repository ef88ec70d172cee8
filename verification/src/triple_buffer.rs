//! The triple buffer: three canvases of one geometry plus a single packed
//! 32-bit role word that says which physical slot currently plays
//! producer, idle, and consumer. The two swap operations rotate roles
//! without copying a frame; each preserves the invariant that the three
//! role indices are a permutation of {0, 1, 2}.

use vstd::prelude::*;

use crate::canvas::CanvasView;
use crate::canvas::Coord;
use crate::canvas::PixelflutImage;
use crate::pixel::RGBAPixel;

verus! {

/// The slot index currently in the producer role: the low byte of the word.
pub open spec fn producer_of(word: u32) -> u32 {
    word & 0xFF
}

/// The slot index currently in the idle role: the second byte of the word.
pub open spec fn idle_of(word: u32) -> u32 {
    (word >> 8) & 0xFF
}

/// The slot index currently in the consumer role: the third byte of the word.
pub open spec fn consumer_of(word: u32) -> u32 {
    (word >> 16) & 0xFF
}

/// The three role bytes name each physical slot exactly once, and the
/// reserved top byte keeps its fixed filler value.
pub open spec fn word_is_role_permutation(word: u32) -> bool {
    &&& producer_of(word) < 3
    &&& idle_of(word) < 3
    &&& consumer_of(word) < 3
    &&& producer_of(word) != idle_of(word)
    &&& producer_of(word) != consumer_of(word)
    &&& idle_of(word) != consumer_of(word)
    &&& (word >> 24) == 0xFF
}

/// The role word after exchanging the producer byte and the idle byte.
pub open spec fn swap_present_word(word: u32) -> u32 {
    (word & 0xFFFF0000) | ((word & 0xFF) << 8) | ((word >> 8) & 0xFF)
}

/// The role word after exchanging the idle byte and the consumer byte.
pub open spec fn swap_consumer_word(word: u32) -> u32 {
    (word & 0xFF0000FF) | (((word >> 8) & 0xFF) << 16) | (((word >> 16) & 0xFF) << 8)
}

/// Exchanging producer and idle keeps the role bytes a permutation, moves
/// each of the two as expected, and leaves the consumer alone.
pub proof fn lemma_swap_present_word(word: u32)
    requires
        word_is_role_permutation(word),
    ensures
        word_is_role_permutation(swap_present_word(word)),
        producer_of(swap_present_word(word)) == idle_of(word),
        idle_of(swap_present_word(word)) == producer_of(word),
        consumer_of(swap_present_word(word)) == consumer_of(word),
{
    assert(word_is_role_permutation(swap_present_word(word)) && producer_of(
        swap_present_word(word),
    ) == idle_of(word) && idle_of(swap_present_word(word)) == producer_of(word) && consumer_of(
        swap_present_word(word),
    ) == consumer_of(word)) by (bit_vector)
        requires
            word_is_role_permutation(word),
    ;
}

/// Exchanging idle and consumer keeps the role bytes a permutation, moves
/// each of the two as expected, and leaves the producer alone.
pub proof fn lemma_swap_consumer_word(word: u32)
    requires
        word_is_role_permutation(word),
    ensures
        word_is_role_permutation(swap_consumer_word(word)),
        idle_of(swap_consumer_word(word)) == consumer_of(word),
        consumer_of(swap_consumer_word(word)) == idle_of(word),
        producer_of(swap_consumer_word(word)) == producer_of(word),
{
    assert(word_is_role_permutation(swap_consumer_word(word)) && idle_of(
        swap_consumer_word(word),
    ) == consumer_of(word) && consumer_of(swap_consumer_word(word)) == idle_of(word)
        && producer_of(swap_consumer_word(word)) == producer_of(word)) by (bit_vector)
        requires
            word_is_role_permutation(word),
    ;
}

/// One rotation step: which of the two swap operations ran.
pub enum RoleSwap {
    PresentSide,
    ConsumerSide,
}

/// The role word after one swap operation.
pub open spec fn apply_swap(word: u32, op: RoleSwap) -> u32 {
    match op {
        RoleSwap::PresentSide => swap_present_word(word),
        RoleSwap::ConsumerSide => swap_consumer_word(word),
    }
}

/// The role word after a sequence of swap operations, first element first.
pub open spec fn apply_swaps(word: u32, ops: Seq<RoleSwap>) -> u32
    decreases ops.len(),
{
    if ops.len() == 0 {
        word
    } else {
        apply_swaps(apply_swap(word, ops[0]), ops.drop_first())
    }
}

/// Law: after any interleaving of present-side and consumer-side swaps,
/// the three role indices remain a permutation of {0, 1, 2}. Each swap is
/// one atomic exchange of the role word, so any concurrent execution of
/// the two operations acts as some such sequence.
pub proof fn lemma_swaps_preserve_role_permutation(word: u32, ops: Seq<RoleSwap>)
    requires
        word_is_role_permutation(word),
    ensures
        word_is_role_permutation(apply_swaps(word, ops)),
    decreases ops.len(),
{
    if ops.len() > 0 {
        match ops[0] {
            RoleSwap::PresentSide => lemma_swap_present_word(word),
            RoleSwap::ConsumerSide => lemma_swap_consumer_word(word),
        }
        lemma_swaps_preserve_role_permutation(apply_swap(word, ops[0]), ops.drop_first());
    }
}

/// The mathematical content of a triple buffer: the three physical slots
/// and the packed role word.
#[verifier::ext_equal]
pub struct TBView {
    pub slots: Seq<CanvasView>,
    pub word: u32,
}

impl TBView {
    /// The physical slot index currently written by the producer role.
    pub open spec fn producer_index(self) -> int {
        producer_of(self.word) as int
    }

    /// The physical slot index currently holding the completed frame.
    pub open spec fn idle_index(self) -> int {
        idle_of(self.word) as int
    }

    /// The physical slot index currently read by the consumer role.
    pub open spec fn consumer_index(self) -> int {
        consumer_of(self.word) as int
    }

    /// The canvas currently in the producer role.
    pub open spec fn producer(self) -> CanvasView {
        self.slots[self.producer_index()]
    }

    /// The canvas currently in the idle role.
    pub open spec fn idle(self) -> CanvasView {
        self.slots[self.idle_index()]
    }

    /// The canvas currently in the consumer role.
    pub open spec fn consumer(self) -> CanvasView {
        self.slots[self.consumer_index()]
    }

    /// The common width of the three slots.
    pub open spec fn width(self) -> nat {
        self.slots[0].width
    }

    /// The common height of the three slots.
    pub open spec fn height(self) -> nat {
        self.slots[0].height
    }

    /// Exactly three slots, each well formed, all of one geometry that
    /// fits the machine's addressable range, and a role word whose three
    /// indices are a permutation of {0, 1, 2}.
    pub open spec fn wf(self) -> bool {
        &&& self.slots.len() == 3
        &&& word_is_role_permutation(self.word)
        &&& forall|i: int| 0 <= i < 3 ==> (#[trigger] self.slots[i]).wf()
        &&& forall|i: int|
            0 <= i < 3 ==> (#[trigger] self.slots[i]).width * self.slots[i].height <= usize::MAX
        &&& forall|i: int|
            0 <= i < 3 ==> (#[trigger] self.slots[i]).width == self.width()
                && self.slots[i].height == self.height()
    }
}

/// A well-formed triple buffer stays well formed when one slot is
/// replaced by a well-formed canvas of the same geometry.
pub proof fn lemma_tb_wf_update(v: TBView, i: int, c: CanvasView)
    requires
        v.wf(),
        0 <= i < 3,
        c.wf(),
        c.width == v.width(),
        c.height == v.height(),
    ensures
        (TBView { slots: v.slots.update(i, c), ..v }).wf(),
        (TBView { slots: v.slots.update(i, c), ..v }).width() == v.width(),
        (TBView { slots: v.slots.update(i, c), ..v }).height() == v.height(),
{
}

/// Three canvases of one geometry plus the packed role word. The roles
/// rotate by [`Self::swap_present_side`] and [`Self::swap_consumer_side`];
/// all access to a slot goes through [`Self::producer_buffer`] and
/// [`Self::consumer_buffer`], each taken fresh from the current word.
pub struct PixelflutTripleBuffer {
    slot0: PixelflutImage,
    slot1: PixelflutImage,
    slot2: PixelflutImage,
    buffer_indices: u32,
}

impl View for PixelflutTripleBuffer {
    type V = TBView;

    closed spec fn view(&self) -> TBView {
        TBView { slots: seq![self.slot0@, self.slot1@, self.slot2@], word: self.buffer_indices }
    }
}

impl PixelflutTripleBuffer {
    /// The internal invariant, stated on the view.
    pub open spec fn wf(self) -> bool {
        self@.wf()
    }

    /// A triple buffer of the given geometry: slot 0 starts as producer,
    /// slot 1 as idle, slot 2 as consumer; every slot starts transparent
    /// black with no dirty markers.
    pub fn new_with(width: Coord, height: Coord) -> (tb: Self)
        requires
            width * height <= usize::MAX,
        ensures
            tb.wf(),
            tb@.width() == width,
            tb@.height() == height,
            tb@.producer_index() == 0,
            tb@.idle_index() == 1,
            tb@.consumer_index() == 2,
            forall|i: int|
                0 <= i < 3 ==> {
                    &&& (#[trigger] tb@.slots[i]).pixels.len() == width * height
                    &&& forall|j: int|
                        0 <= j < tb@.slots[i].pixels.len() ==> tb@.slots[i].pixels[j] == (RGBAPixel {
                            r: 0u8,
                            g: 0u8,
                            b: 0u8,
                            a: 0u8,
                        })
                    &&& tb@.slots[i].dirty == Set::<usize>::empty()
                },
    {
        let tb = PixelflutTripleBuffer {
            slot0: PixelflutImage::new_with(width, height),
            slot1: PixelflutImage::new_with(width, height),
            slot2: PixelflutImage::new_with(width, height),
            buffer_indices: 0xFF020100,
        };
        proof {
            assert(producer_of(0xFF020100) == 0 && idle_of(0xFF020100) == 1 && consumer_of(
                0xFF020100,
            ) == 2 && (0xFF020100u32 >> 24) == 0xFF) by (bit_vector);
        }
        tb
    }

    /// The slot index currently in the producer role.
    pub fn producer_index(&self) -> (i: usize)
        requires
            self.wf(),
        ensures
            i == self@.producer_index(),
    {
        (self.buffer_indices & 0xFF) as usize
    }

    /// The slot index currently in the idle role.
    pub fn idle_index(&self) -> (i: usize)
        requires
            self.wf(),
        ensures
            i == self@.idle_index(),
    {
        ((self.buffer_indices >> 8) & 0xFF) as usize
    }

    /// The slot index currently in the consumer role.
    pub fn consumer_index(&self) -> (i: usize)
        requires
            self.wf(),
        ensures
            i == self@.consumer_index(),
    {
        ((self.buffer_indices >> 16) & 0xFF) as usize
    }

    /// Exchange the producer slot and the idle slot: the frame the
    /// producer just finished becomes idle (ready to be picked up), and
    /// the previous idle slot becomes the new producer target, so writers
    /// never wait for the consumer. No canvas content moves.
    pub fn swap_present_side(&mut self)
        requires
            old(self).wf(),
        ensures
            final(self).wf(),
            final(self)@.slots == old(self)@.slots,
            final(self)@.word == swap_present_word(old(self)@.word),
            final(self)@.producer_index() == old(self)@.idle_index(),
            final(self)@.idle_index() == old(self)@.producer_index(),
            final(self)@.consumer_index() == old(self)@.consumer_index(),
    {
        proof {
            lemma_swap_present_word(self.buffer_indices);
        }
        let w: u32 = self.buffer_indices;
        self.buffer_indices = (w & 0xFFFF0000) | ((w & 0xFF) << 8) | ((w >> 8) & 0xFF);
    }

    /// Exchange the idle slot and the consumer slot: the most recently
    /// completed idle frame becomes readable by the consumer, and the
    /// frame the consumer held becomes idle again. No canvas content
    /// moves.
    pub fn swap_consumer_side(&mut self)
        requires
            old(self).wf(),
        ensures
            final(self).wf(),
            final(self)@.slots == old(self)@.slots,
            final(self)@.word == swap_consumer_word(old(self)@.word),
            final(self)@.idle_index() == old(self)@.consumer_index(),
            final(self)@.consumer_index() == old(self)@.idle_index(),
            final(self)@.producer_index() == old(self)@.producer_index(),
    {
        proof {
            lemma_swap_consumer_word(self.buffer_indices);
        }
        let w: u32 = self.buffer_indices;
        self.buffer_indices = (w & 0xFF0000FF) | (((w >> 8) & 0xFF) << 16) | (((w >> 16) & 0xFF)
            << 8);
    }

    /// The canvas currently in the producer role, found from a fresh read
    /// of the role word. The handle must be used and dropped before any
    /// further rotation; the roles themselves do not move here.
    pub fn producer_buffer(&mut self) -> (img: &mut PixelflutImage)
        requires
            old(self).wf(),
        ensures
            (*img)@ == old(self)@.producer(),
            img.wf(),
            final(self)@.word == old(self)@.word,
            final(self)@.slots == old(self)@.slots.update(
                old(self)@.producer_index(),
                (*final(img))@,
            ),
    {
        let i = self.producer_index();
        if i == 0 {
            &mut self.slot0
        } else if i == 1 {
            &mut self.slot1
        } else {
            &mut self.slot2
        }
    }

    /// The canvas currently in the consumer role, found from a fresh read
    /// of the role word. The handle must be used and dropped before any
    /// further rotation; the roles themselves do not move here.
    pub fn consumer_buffer(&mut self) -> (img: &mut PixelflutImage)
        requires
            old(self).wf(),
        ensures
            (*img)@ == old(self)@.consumer(),
            img.wf(),
            final(self)@.word == old(self)@.word,
            final(self)@.slots == old(self)@.slots.update(
                old(self)@.consumer_index(),
                (*final(img))@,
            ),
    {
        let i = self.consumer_index();
        if i == 0 {
            &mut self.slot0
        } else if i == 1 {
            &mut self.slot1
        } else {
            &mut self.slot2
        }
    }
}

} // verus!
