use pixelflut::canvas::PixelflutImage;
use pixelflut::pixel::RGBAPixel;
use pixelflut::triple_buffer::PixelflutTripleBuffer;

fn roles(tb: &PixelflutTripleBuffer) -> (usize, usize, usize) {
    (tb.producer_index(), tb.idle_index(), tb.consumer_index())
}

#[test]
fn initial_roles() {
    let tb = PixelflutTripleBuffer::new_with(4, 4);
    assert_eq!(roles(&tb), (0, 1, 2));
}

#[test]
fn swaps_move_roles() {
    let mut tb = PixelflutTripleBuffer::new_with(4, 4);
    tb.swap_present_side();
    assert_eq!(roles(&tb), (1, 0, 2));
    tb.swap_consumer_side();
    assert_eq!(roles(&tb), (1, 2, 0));
    tb.swap_present_side();
    assert_eq!(roles(&tb), (2, 1, 0));
    tb.swap_consumer_side();
    assert_eq!(roles(&tb), (2, 0, 1));
}

#[test]
fn roles_stay_a_permutation_under_interleavings() {
    // a fixed linear-congruential stream decides which swap runs next,
    // standing in for an arbitrary interleaving of the two operations
    let mut tb = PixelflutTripleBuffer::new_with(2, 2);
    let mut state: u64 = 0x2545F4914F6CDD1D;
    for _ in 0..10_000 {
        state = state.wrapping_mul(6364136223846793005).wrapping_add(1442695040888963407);
        if (state >> 33) & 1 == 0 {
            tb.swap_present_side();
        } else {
            tb.swap_consumer_side();
        }
        let (p, i, c) = roles(&tb);
        let mut seen = [false; 3];
        seen[p] = true;
        seen[i] = true;
        seen[c] = true;
        assert!(seen[0] && seen[1] && seen[2], "roles {:?} are no permutation", (p, i, c));
    }
}

#[test]
fn frame_travels_producer_to_consumer() {
    let mut tb = PixelflutTripleBuffer::new_with(8, 8);
    let p = RGBAPixel { r: 0xAB, g: 0xCD, b: 0xEF, a: 0x01 };
    tb.producer_buffer().set_pixel(3, 3, p);
    tb.swap_present_side();
    tb.swap_consumer_side();
    let seen = tb.consumer_buffer().get_pixel(3, 3);
    assert_eq!(seen, p);
    // and the producer now points at a frame that does not hold the write
    let fresh = tb.producer_buffer().get_pixel(3, 3);
    assert_eq!(fresh, RGBAPixel { r: 0, g: 0, b: 0, a: 0 });
}

#[test]
fn consumer_frame_can_be_drained() {
    let mut tb = PixelflutTripleBuffer::new_with(8, 8);
    let p = RGBAPixel { r: 1, g: 1, b: 1, a: 1 };
    tb.producer_buffer().set_pixel(0, 0, p);
    tb.swap_present_side();
    tb.swap_consumer_side();
    let mut global = PixelflutImage::new_with(8, 8);
    global.combine_with(tb.consumer_buffer());
    assert_eq!(global.get_pixel(0, 0), p);
}
