use pixelflut::config::Config;
use pixelflut::game::PixelflutGame;
use pixelflut::pixel::RGBAPixel;
use pixelflut::protocol::PixelflutClient;

fn test_config(workers: usize, width: u32, height: u32) -> Config {
    Config {
        num_io_threads: workers,
        image_width: width,
        image_height: height,
        listen_addr: String::from("127.0.0.1:4000"),
        gst_window: false,
        record_to_file: None,
    }
}

#[test]
fn game_builds_workers_and_canvas() {
    let game = PixelflutGame::new(&test_config(4, 1280, 720));
    assert_eq!(game.num_workers(), 4);
    let img = game.image();
    assert_eq!(img.width, 1280);
    assert_eq!(img.height, 720);
    assert_eq!(img.get_pixel(0, 0), RGBAPixel { r: 0, g: 0, b: 0, a: 0 });
    let w = game.for_worker(3);
    assert_eq!(w.global_config.width, 1280);
    assert_eq!(w.global_config.height, 720);
}

#[test]
fn pick_worker_stays_in_range() {
    let game = PixelflutGame::new(&test_config(3, 16, 16));
    for _ in 0..200 {
        assert!(game.pick_worker() < 3);
    }
}

#[test]
fn pixel_write_reaches_global_canvas() {
    let mut game = PixelflutGame::new(&test_config(2, 64, 64));
    let mut client = PixelflutClient::new();
    let p = RGBAPixel { r: 0xFF, g: 0xAA, b: 0x00, a: 0xFF };

    // a client of worker 1 writes a pixel into the producer frame
    let worker = game.worker_mut(1);
    assert!(client.dispatch_line(b"PX 10 20 FFAA00", worker).is_none());

    // the worker's periodic flip publishes the frame to the idle slot
    worker.my_present_queue.swap_present_side();

    // the aggregation step pulls every worker's completed frame
    game.combine_all();
    assert_eq!(game.image().get_pixel(10, 20), p);

    // nothing else was disturbed
    assert_eq!(game.image().get_pixel(20, 10), RGBAPixel { r: 0, g: 0, b: 0, a: 0 });
}

#[test]
fn combine_all_drains_each_frame_once() {
    let mut game = PixelflutGame::new(&test_config(1, 32, 32));
    let mut client = PixelflutClient::new();
    let worker = game.worker_mut(0);
    assert!(client.dispatch_line(b"PX 5 5 010203", worker).is_none());
    worker.my_present_queue.swap_present_side();
    game.combine_all();
    assert_eq!(game.image().get_pixel(5, 5), RGBAPixel { r: 1, g: 2, b: 3, a: 0xFF });

    // the frame was drained: later aggregation passes copy nothing,
    // even after the drained frame cycles onward
    game.combine_all();
    game.combine_all();
    assert_eq!(game.image().get_pixel(5, 5), RGBAPixel { r: 1, g: 2, b: 3, a: 0xFF });
}

#[test]
fn later_merge_wins_per_cell() {
    let mut game = PixelflutGame::new(&test_config(2, 16, 16));
    let mut c0 = PixelflutClient::new();
    let mut c1 = PixelflutClient::new();

    let w0 = game.worker_mut(0);
    assert!(c0.dispatch_line(b"PX 1 1 111111", w0).is_none());
    w0.my_present_queue.swap_present_side();

    let w1 = game.worker_mut(1);
    assert!(c1.dispatch_line(b"PX 1 1 222222", w1).is_none());
    w1.my_present_queue.swap_present_side();

    game.combine_all();
    // worker 1 is merged after worker 0: its write lands last
    assert_eq!(game.image().get_pixel(1, 1), RGBAPixel { r: 0x22, g: 0x22, b: 0x22, a: 0xFF });
}
