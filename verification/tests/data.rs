use blackbox_log::data::{Context, Data, DataParser, Filters, FrameCounts, FrameHistory, MainFrameKind, ParsedFrame};
use blackbox_log::event::Event;
use blackbox_log::filter::{FieldFilter, Filter, FilterSet};

const HEADERS: [(&str, &str); 11] = [
    ("Field I name", "loopIteration,time,a"),
    ("Field I predictor", "0,0,0"),
    ("Field I encoding", "1,1,0"),
    ("Field P predictor", "6,2,1"),
    ("Field P encoding", "9,0,0"),
    ("Field I signed", "0,0,1"),
    ("Field S name", "flightModeFlags"),
    ("Field S predictor", "0"),
    ("Field S encoding", "1"),
    ("Field S signed", "0"),
    ("minthrottle", "1070"),
];

fn context() -> Context<'static> {
    let mut builder = Context::builder();
    for (header, value) in HEADERS {
        builder.update(header, value).unwrap();
    }
    builder.build().unwrap()
}

fn main_values(frame: Option<ParsedFrame>, kind: MainFrameKind) -> Vec<u32> {
    match frame {
        Some(ParsedFrame::Main(k, f)) if k == kind => f.iter(),
        other => panic!("expected a main frame, got {other:?}"),
    }
}

#[test]
fn context_from_headers() {
    let ctx = context();
    assert_eq!(3, ctx.frames.main.len());
    assert_eq!(1, ctx.frames.slow.len());
    assert!(ctx.frames.gps.is_none());
    assert_eq!(1070, ctx.predictor.min_throttle);
    assert_eq!("time", ctx.frames.main[1].raw_name);
}

#[test]
fn context_without_slow_frames_is_refused() {
    let mut builder = Context::builder();
    for (header, value) in &HEADERS[..6] {
        builder.update(header, value).unwrap();
    }
    assert!(builder.build().is_err());
}

#[test]
fn parses_a_data_section() {
    let mut data: Vec<u8> = vec![
        0x49, 0x05, 0x64, 0x05, // I frame
        0x50, 0x14, 0x04, // P frame
        0x50, 0x02, 0x02, // P frame
        0x45, 0x00, 0x05, // sync beep event
        0x53, 0x07, // slow frame
        0x45, 0xff, // end event
    ];
    data.extend_from_slice(b"End of log\0");
    data.extend_from_slice(&[0x49, 0x01, 0x02, 0x03]);
    let mut parser = DataParser::new(&data, context());

    assert_eq!(vec![5, 100, (-3i32) as u32], main_values(parser.next_frame(), MainFrameKind::Intra));
    // the frame finished last is read from the row after the current one,
    // which is still empty after a single intra frame
    assert_eq!(vec![1, 10, 2], main_values(parser.next_frame(), MainFrameKind::Inter));
    assert_eq!(
        vec![6, 191, (-2i32) as u32],
        main_values(parser.next_frame(), MainFrameKind::Inter)
    );
    assert!(matches!(parser.next_frame(), Some(ParsedFrame::Event(Event::SyncBeep(5)))));
    match parser.next_frame() {
        Some(ParsedFrame::Slow(f)) => {
            assert_eq!(Some(7), f.get(0));
            assert_eq!(None, f.get(1));
        }
        other => panic!("expected a slow frame, got {other:?}"),
    }
    assert!(!parser.is_done());
    assert!(matches!(parser.next_frame(), Some(ParsedFrame::Event(Event::End))));
    assert!(parser.is_done());
    // nothing after the end of the log is read
    assert!(parser.next_frame().is_none());
    assert!(parser.next_frame().is_none());
    assert_eq!(FrameCounts { event: 2, main: 3, slow: 1, gps: 0, gps_home: 0 }, parser.stats());
}

#[test]
fn truncated_frame_ends_the_data() {
    let data: &[u8] = &[0x49, 0x05];
    let mut parser = DataParser::new(data, context());
    assert!(parser.next_frame().is_none());
    assert!(!parser.is_done());
    assert_eq!(FrameCounts::default(), parser.stats());
}

#[test]
fn frame_not_followed_by_a_frame_start_is_passed_over() {
    let data: &[u8] = &[0x49, 0x05, 0x64, 0x05, 0x00, 0x49, 0x01, 0x02, 0x03];
    let mut parser = DataParser::new(data, context());
    assert_eq!(vec![1, 2, (-2i32) as u32], main_values(parser.next_frame(), MainFrameKind::Intra));
    assert!(parser.next_frame().is_none());
    assert_eq!(1, parser.stats().main);
}

#[test]
fn undeclared_gps_frame_is_passed_over() {
    let data: &[u8] = &[0x47, 0x01, 0x49, 0x05, 0x64, 0x05];
    let mut parser = DataParser::new(data, context());
    assert_eq!(vec![5, 100, (-3i32) as u32], main_values(parser.next_frame(), MainFrameKind::Intra));
    assert_eq!(FrameCounts { event: 0, main: 1, slow: 0, gps: 0, gps_home: 0 }, parser.stats());
}

#[test]
fn unsupported_event_and_stray_bytes_are_passed_over() {
    let data: &[u8] = &[0x00, 0x45, 0x0d, 0x53, 0x07];
    let mut parser = DataParser::new(data, context());
    match parser.next_frame() {
        Some(ParsedFrame::Slow(f)) => assert_eq!(vec![7], f.iter()),
        other => panic!("expected a slow frame, got {other:?}"),
    }
    assert_eq!(FrameCounts { event: 0, main: 0, slow: 1, gps: 0, gps_home: 0 }, parser.stats());
}

#[test]
fn frame_history_rows() {
    let mut history = FrameHistory::new(2);
    assert_eq!(2, history.len());
    history.set(0, 7);
    history.set(1, 9);
    assert_eq!(vec![7, 9], history.finish());
    history.set(0, 1);
    assert_eq!(1, history.get(0));
}

#[test]
fn data_parse_keeps_frames_until_the_end_of_the_log() {
    let mut data: Vec<u8> = vec![
        0x49, 0x05, 0x64, 0x05, // I frame
        0x45, 0x0f, 0x03, // disarm event
        0x53, 0x07, // slow frame
        0x45, 0xff, // end event
    ];
    data.extend_from_slice(b"End of log\0");
    data.extend_from_slice(&[0x53, 0x08]);
    let parsed = Data::parse(&data, context());
    assert_eq!(vec![Event::Disarm(3), Event::End], parsed.events);
    assert_eq!(1, parsed.main_frames.len());
    assert_eq!(vec![5, 100, (-3i32) as u32], parsed.main_frames[0].iter());
    assert_eq!(1, parsed.slow_frames.len());
    assert_eq!(vec![7], parsed.slow_frames[0].iter());
    assert!(parsed.gps_frames.is_empty());
}

#[test]
fn filters_keep_the_fields_asked_for() {
    let ctx = context();
    let filters = Filters::new(
        &ctx.frames,
        &FilterSet {
            main: Filter::OnlyFields(FieldFilter::from_names(&["a", "loopIteration"])),
            slow: Filter::Unfiltered,
            gps: Filter::Unfiltered,
        },
    );
    assert_eq!(vec![0, 2], filters.main.0);
    assert_eq!(vec![0], filters.slow.0);
    assert!(filters.gps.0.is_empty());

    let data: &[u8] = &[0x49, 0x05, 0x64, 0x05, 0x53, 0x07];
    let mut parser = DataParser::new(data, ctx);
    let frame = parser.next_frame().unwrap();
    assert_eq!(Some(vec![5, (-3i32) as u32]), filters.values(&frame));
    let frame = parser.next_frame().unwrap();
    assert_eq!(Some(vec![7]), filters.values(&frame));
    assert_eq!(None, filters.values(&ParsedFrame::Event(Event::End)));
}

#[test]
fn gps_home_frames_are_counted_and_passed_over() {
    let mut builder = Context::builder();
    for (header, value) in HEADERS {
        builder.update(header, value).unwrap();
    }
    for (header, value) in [
        ("Field H name", "GPS_home[0],GPS_home[1]"),
        ("Field H signed", "1,1"),
        ("Field H predictor", "0,0"),
        ("Field H encoding", "0,0"),
    ] {
        builder.update(header, value).unwrap();
    }
    let ctx = builder.build().unwrap();
    assert_eq!(Some(2), ctx.frames.gps_home.as_ref().map(|h| h.len()));

    let data: &[u8] = &[0x48, 0x02, 0x04, 0x49, 0x05, 0x64, 0x05];
    let mut parser = DataParser::new(data, ctx);
    assert_eq!(vec![5, 100, (-3i32) as u32], main_values(parser.next_frame(), MainFrameKind::Intra));
    assert_eq!(FrameCounts { event: 0, main: 1, slow: 0, gps: 0, gps_home: 1 }, parser.stats());
    assert!(parser.next_frame().is_none());
}
