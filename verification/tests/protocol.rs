use pixelflut::pixel::parse_rgba;
use pixelflut::pixel::RGBAPixel;
use pixelflut::protocol::help_text;
use pixelflut::protocol::parse_pixelflut_request;
use pixelflut::protocol::PixelflutClient;
use pixelflut::protocol::PixelflutCommand;
use pixelflut::state::PixelflutIOWorkerState;

#[test]
fn test_parsers() {
    parse_rgba(b"ffff00").unwrap();
    parse_pixelflut_request(b"PX 24 50 ffff00").unwrap();
}

#[test]
fn parse_px_fields() {
    match parse_pixelflut_request(b"PX 24 50 ffff00") {
        Some(PixelflutCommand::SetPixel { x, y, pixel }) => {
            assert_eq!(x, 24);
            assert_eq!(y, 50);
            assert_eq!(pixel, RGBAPixel { r: 0xFF, g: 0xFF, b: 0x00, a: 0xFF });
        }
        _ => panic!("PX did not parse"),
    }
}

#[test]
fn parse_keywords() {
    assert!(matches!(parse_pixelflut_request(b"SIZE"), Some(PixelflutCommand::Size)));
    assert!(matches!(parse_pixelflut_request(b"HELP"), Some(PixelflutCommand::Help)));
    assert!(matches!(
        parse_pixelflut_request(b"OFFSET 5 7"),
        Some(PixelflutCommand::Offset { x: 5, y: 7 })
    ));
    // keywords are case-sensitive
    assert!(parse_pixelflut_request(b"px 1 1 ffffff").is_none());
    assert!(parse_pixelflut_request(b"size").is_none());
}

#[test]
fn parse_malformed() {
    assert!(parse_pixelflut_request(b"").is_none());
    assert!(parse_pixelflut_request(b"   ").is_none());
    assert!(parse_pixelflut_request(b"PX").is_none());
    assert!(parse_pixelflut_request(b"PX 1 1").is_none());
    assert!(parse_pixelflut_request(b"PX x y ffffff").is_none());
    assert!(parse_pixelflut_request(b"PX 1 1 ZZ").is_none());
    assert!(parse_pixelflut_request(b"OFFSET 1").is_none());
    assert!(parse_pixelflut_request(b"BOGUS").is_none());
    // overflow on accumulation is a parse failure
    assert!(parse_pixelflut_request(b"PX 99999999999 1 ffffff").is_none());
    // signs are not accepted
    assert!(parse_pixelflut_request(b"PX +1 1 ffffff").is_none());
    assert!(parse_pixelflut_request(b"PX -1 1 ffffff").is_none());
}

#[test]
fn parse_tolerates_extra_fields_and_whitespace() {
    assert!(matches!(
        parse_pixelflut_request(b"PX   24  50   ffff00  trailing junk"),
        Some(PixelflutCommand::SetPixel { x: 24, y: 50, pixel: _ })
    ));
    assert!(matches!(parse_pixelflut_request(b"SIZE anything"), Some(PixelflutCommand::Size)));
}

#[test]
fn scenario_size() {
    let mut worker = PixelflutIOWorkerState::new_with(1280, 720);
    let mut client = PixelflutClient::new();
    let resp = client.dispatch_line(b"SIZE", &mut worker);
    assert_eq!(resp.unwrap().as_slice(), b"SIZE 1280 720\r\n".as_slice());
}

#[test]
fn scenario_px_writes_pixel() {
    let mut worker = PixelflutIOWorkerState::new_with(1280, 720);
    let mut client = PixelflutClient::new();
    let resp = client.dispatch_line(b"PX 10 10 FFAA00", &mut worker);
    assert!(resp.is_none());
    let img = worker.my_present_queue.producer_buffer();
    let p = img.get_pixel(10, 10);
    assert_eq!(p, RGBAPixel { r: 0xFF, g: 0xAA, b: 0x00, a: 0xFF });
}

#[test]
fn scenario_px_out_of_bounds() {
    let mut worker = PixelflutIOWorkerState::new_with(1280, 720);
    let mut client = PixelflutClient::new();
    let resp = client.dispatch_line(b"PX 99999 99999 FFFFFF", &mut worker);
    let resp = resp.expect("an error response is owed");
    assert!(resp.starts_with(b"error:"));
    // nothing was written: merging the producer frame forward changes nothing
    let mut target = pixelflut::canvas::PixelflutImage::new_with(1280, 720);
    target.set_pixel(0, 0, RGBAPixel { r: 9, g: 9, b: 9, a: 9 });
    let img = worker.my_present_queue.producer_buffer();
    target.combine_with(img);
    assert_eq!(target.get_pixel(0, 0), RGBAPixel { r: 9, g: 9, b: 9, a: 9 });
}

#[test]
fn scenario_offset_translates() {
    let mut worker = PixelflutIOWorkerState::new_with(1280, 720);
    let mut client = PixelflutClient::new();
    assert!(client.dispatch_line(b"OFFSET 5 5", &mut worker).is_none());
    assert!(client.dispatch_line(b"PX 1 1 000000", &mut worker).is_none());
    // (6,6) was written (its dirty marker is set), (1,1) was not: merge
    // into a prefilled canvas and see which cells the merge overwrites.
    let marker = RGBAPixel { r: 0x11, g: 0x11, b: 0x11, a: 0x11 };
    let mut target = pixelflut::canvas::PixelflutImage::new_with(1280, 720);
    target.set_pixel(6, 6, marker);
    target.set_pixel(1, 1, marker);
    let img = worker.my_present_queue.producer_buffer();
    target.combine_with(img);
    assert_eq!(target.get_pixel(6, 6), RGBAPixel { r: 0, g: 0, b: 0, a: 0xFF });
    assert_eq!(target.get_pixel(1, 1), marker);
}

#[test]
fn scenario_unknown_command() {
    let mut worker = PixelflutIOWorkerState::new_with(1280, 720);
    let mut client = PixelflutClient::new();
    let resp = client.dispatch_line(b"BOGUS", &mut worker);
    assert_eq!(
        resp.unwrap().as_slice(),
        b"error: syntax error or unknown command 'BOGUS'\r\n".as_slice()
    );
}

#[test]
fn scenario_invalid_hex() {
    let mut worker = PixelflutIOWorkerState::new_with(1280, 720);
    let mut client = PixelflutClient::new();
    let resp = client.dispatch_line(b"PX 1 1 ZZ", &mut worker);
    let resp = resp.expect("an error response is owed");
    assert!(resp.starts_with(b"error:"));
    // no mutation: the producer frame carries no dirty pixel
    let marker = RGBAPixel { r: 0x22, g: 0x22, b: 0x22, a: 0x22 };
    let mut target = pixelflut::canvas::PixelflutImage::new_with(1280, 720);
    target.set_pixel(1, 1, marker);
    let img = worker.my_present_queue.producer_buffer();
    target.combine_with(img);
    assert_eq!(target.get_pixel(1, 1), marker);
}

#[test]
fn help_responds_with_usage_text() {
    let mut worker = PixelflutIOWorkerState::new_with(64, 64);
    let mut client = PixelflutClient::new();
    let resp = client.dispatch_line(b"HELP", &mut worker).unwrap();
    assert_eq!(resp, help_text());
    assert!(resp.ends_with(b"\r\n"));
}

#[test]
fn offset_applies_checked_addition() {
    let mut worker = PixelflutIOWorkerState::new_with(64, 64);
    let mut client = PixelflutClient::new();
    assert!(client.dispatch_line(b"OFFSET 4294967295 0", &mut worker).is_none());
    // 1 + 4294967295 overflows u32: the write is rejected, not wrapped
    let resp = client.dispatch_line(b"PX 1 1 ffffff", &mut worker);
    assert!(resp.unwrap().starts_with(b"error:"));
}
