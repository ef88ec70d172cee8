use pixelflut::framing::handle_line_event;
use pixelflut::framing::LineAssembler;
use pixelflut::framing::LineEvent;
use pixelflut::protocol::PixelflutClient;
use pixelflut::state::PixelflutIOWorkerState;

fn lines_of(events: &[LineEvent]) -> Vec<Option<Vec<u8>>> {
    events
        .iter()
        .map(|e| match e {
            LineEvent::Line(l) => Some(l.clone()),
            LineEvent::TooLong => None,
        })
        .collect()
}

#[test]
fn splits_on_line_feed_and_strips_carriage_return() {
    let mut assembler = LineAssembler::new();
    let events = assembler.feed(b"PX 1 1 FFF\r\nSIZE\nHELP");
    let lines = lines_of(&events);
    assert_eq!(lines.len(), 2);
    assert_eq!(lines[0].as_deref(), Some(b"PX 1 1 FFF".as_slice()));
    assert_eq!(lines[1].as_deref(), Some(b"SIZE".as_slice()));
    // the partial trailing line waits for the next read
    let events = assembler.feed(b"\n");
    let lines = lines_of(&events);
    assert_eq!(lines.len(), 1);
    assert_eq!(lines[0].as_deref(), Some(b"HELP".as_slice()));
}

#[test]
fn carries_partial_lines_across_reads() {
    let mut assembler = LineAssembler::new();
    assert!(assembler.feed(b"SI").is_empty());
    assert!(assembler.feed(b"Z").is_empty());
    let events = assembler.feed(b"E\r\n");
    let lines = lines_of(&events);
    assert_eq!(lines.len(), 1);
    assert_eq!(lines[0].as_deref(), Some(b"SIZE".as_slice()));
}

#[test]
fn empty_lines_come_through_empty() {
    let mut assembler = LineAssembler::new();
    let events = assembler.feed(b"\n\r\n");
    let lines = lines_of(&events);
    assert_eq!(lines.len(), 2);
    assert_eq!(lines[0].as_deref(), Some(b"".as_slice()));
    assert_eq!(lines[1].as_deref(), Some(b"".as_slice()));
}

#[test]
fn long_lines_are_discarded_and_reading_recovers() {
    let mut assembler = LineAssembler::new();
    let long = vec![b'a'; 200];
    assert!(assembler.feed(&long).is_empty());
    let events = assembler.feed(b"\nSIZE\n");
    let lines = lines_of(&events);
    assert_eq!(lines.len(), 2);
    assert_eq!(lines[0], None); // the overlong line became a TooLong event
    assert_eq!(lines[1].as_deref(), Some(b"SIZE".as_slice()));
}

#[test]
fn line_of_exactly_the_bound_passes() {
    let mut assembler = LineAssembler::new();
    let mut input = vec![b'x'; 128];
    input.push(b'\n');
    let events = assembler.feed(&input);
    let lines = lines_of(&events);
    assert_eq!(lines.len(), 1);
    assert_eq!(lines[0].as_deref().map(|l| l.len()), Some(128));
}

#[test]
fn events_drive_the_session() {
    let mut worker = PixelflutIOWorkerState::new_with(1280, 720);
    let mut client = PixelflutClient::new();
    let mut assembler = LineAssembler::new();
    let events = assembler.feed(b"SIZE\r\n");
    assert_eq!(events.len(), 1);
    let resp = handle_line_event(&mut client, &events[0], &mut worker);
    assert_eq!(resp.unwrap().as_slice(), b"SIZE 1280 720\r\n".as_slice());

    let long = vec![b'a'; 300];
    assert!(assembler.feed(&long).is_empty());
    let events = assembler.feed(b"\n");
    assert_eq!(events.len(), 1);
    let resp = handle_line_event(&mut client, &events[0], &mut worker);
    assert_eq!(resp.unwrap().as_slice(), b"error: line too long (discarding)\r\n".as_slice());
}
