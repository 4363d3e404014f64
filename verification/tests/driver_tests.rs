use celestia_blob_client::blob::Blob;
use celestia_blob_client::driver::{Action, Driver, DriverError, Event, Phase, Step};
use celestia_blob_client::feed::{replay, Delivery, Reply};
use celestia_blob_client::namespace::app_namespace;
use celestia_blob_client::text::{Channel, LogLine};

fn header(height: u64) -> Event {
    Event::Header { height, display: format!("header#{}", height) }
}

fn stdout_of(lines: &[LogLine]) -> Vec<String> {
    lines.iter().filter(|l| l.channel() == Channel::Stdout).map(|l| l.render()).collect()
}

fn stderr_of(lines: &[LogLine]) -> Vec<String> {
    lines.iter().filter(|l| l.channel() == Channel::Stderr).map(|l| l.render()).collect()
}

#[test]
fn new_driver_waits_for_a_header_and_filters_by_deadbeef() {
    let driver = Driver::new();
    assert_eq!(driver.phase(), Phase::AwaitingHeader);
    assert!(!driver.is_finished());
    assert_eq!(driver.namespace(), &app_namespace());
}

#[test]
fn header_causes_one_query_at_its_height() {
    let mut driver = Driver::new();
    let step = driver.step(header(100)).unwrap();
    assert_eq!(
        step,
        Step {
            line: Some(LogLine::Header { display: "header#100".to_string() }),
            action: Action::QueryBlobs { height: 100 },
        }
    );
    assert_eq!(driver.phase(), Phase::AwaitingBlobs { height: 100 });
}

#[test]
fn no_header_is_taken_while_a_query_is_outstanding() {
    let mut driver = Driver::new();
    driver.step(header(5)).unwrap();
    assert_eq!(driver.step(header(6)), Err(DriverError::UnexpectedEvent));
    assert_eq!(
        driver.step(Event::HeaderFailed { detail: "x".to_string() }),
        Err(DriverError::UnexpectedEvent)
    );
    assert_eq!(driver.step(Event::StreamEnded), Err(DriverError::UnexpectedEvent));
    assert_eq!(driver.phase(), Phase::AwaitingBlobs { height: 5 });
    let step = driver.step(Event::Blobs { count: 2 }).unwrap();
    assert_eq!(step.line, Some(LogLine::BlobsFound { count: 2, height: 5 }));
    assert_eq!(step.action, Action::AwaitHeader);
    assert_eq!(driver.phase(), Phase::AwaitingHeader);
}

#[test]
fn answers_are_refused_when_nothing_was_asked() {
    let mut driver = Driver::new();
    assert_eq!(driver.step(Event::Blobs { count: 1 }), Err(DriverError::UnexpectedEvent));
    assert_eq!(
        driver.step(Event::BlobsFailed { detail: "x".to_string() }),
        Err(DriverError::UnexpectedEvent)
    );
    assert_eq!(driver.phase(), Phase::AwaitingHeader);
}

#[test]
fn end_of_stream_stops_the_driver_for_good() {
    let mut driver = Driver::new();
    let step = driver.step(Event::StreamEnded).unwrap();
    assert_eq!(step, Step { line: None, action: Action::Stop });
    assert!(driver.is_finished());
    assert_eq!(driver.phase(), Phase::Finished);
    assert_eq!(driver.step(header(1)), Err(DriverError::UnexpectedEvent));
    assert_eq!(driver.step(Event::StreamEnded), Err(DriverError::UnexpectedEvent));
    assert_eq!(driver.step(Event::Blobs { count: 0 }), Err(DriverError::UnexpectedEvent));
    assert!(driver.is_finished());
}

#[test]
fn headers_no_blobs() {
    let mut driver = Driver::new();
    let first = driver.step(header(100)).unwrap();
    assert_eq!(first.action, Action::QueryBlobs { height: 100 });
    let second = driver.step(Event::Blobs { count: 0 }).unwrap();
    let out = stdout_of(&[first.line.unwrap(), second.line.unwrap()]);
    assert_eq!(out.len(), 2);
    assert!(out[0].starts_with("Header: "));
    assert_eq!(out[1], "Found 0 blobs at height 100 in the 0xDEADBEEF namespace");
}

#[test]
fn headers_one_blob() {
    let blobs = vec![Blob::new(app_namespace(), b"Hello, World!".to_vec()).unwrap()];
    let mut driver = Driver::new();
    let first = driver.step(header(101)).unwrap();
    assert_eq!(first.action, Action::QueryBlobs { height: 101 });
    let second = driver.step(Event::Blobs { count: blobs.len() }).unwrap();
    assert_eq!(
        second.line.unwrap().render(),
        "Found 1 blobs at height 101 in the 0xDEADBEEF namespace"
    );
}

#[test]
fn blob_query_error_does_not_stop_the_loop() {
    let mut driver = Driver::new();
    driver.step(header(102)).unwrap();
    let failed = driver.step(Event::BlobsFailed { detail: "height pruned".to_string() }).unwrap();
    assert_eq!(failed.action, Action::AwaitHeader);
    let line = failed.line.unwrap();
    assert_eq!(line.channel(), Channel::Stderr);
    assert!(line.render().contains("ERROR: Error fetching blobs:"));
    assert_eq!(line.render(), "ERROR: Error fetching blobs: height pruned");
    assert!(!driver.is_finished());
    let next = driver.step(header(103)).unwrap();
    assert_eq!(next.action, Action::QueryBlobs { height: 103 });
    let found = driver.step(Event::Blobs { count: 4 }).unwrap();
    assert_eq!(
        found.line.unwrap().render(),
        "Found 4 blobs at height 103 in the 0xDEADBEEF namespace"
    );
}

#[test]
fn header_decode_error_does_not_stop_the_loop() {
    let mut driver = Driver::new();
    let failed = driver.step(Event::HeaderFailed { detail: "invalid type".to_string() }).unwrap();
    assert_eq!(failed.action, Action::AwaitHeader);
    let line = failed.line.unwrap();
    assert_eq!(line.channel(), Channel::Stderr);
    assert!(line.render().contains("ERROR: Error receiving header:"));
    assert_eq!(driver.phase(), Phase::AwaitingHeader);
    let next = driver.step(header(9)).unwrap();
    assert_eq!(next.action, Action::QueryBlobs { height: 9 });
    assert_eq!(next.line.unwrap().render(), "Header: header#9");
}

#[test]
fn duplicate_heights_are_queried_twice() {
    let mut driver = Driver::new();
    let mut queries = Vec::new();
    for _ in 0..2 {
        if let Action::QueryBlobs { height } = driver.step(header(77)).unwrap().action {
            queries.push(height);
        }
        driver.step(Event::Blobs { count: 1 }).unwrap();
    }
    assert_eq!(queries, vec![77, 77]);
}

#[test]
fn namespace_never_changes() {
    let mut driver = Driver::new();
    driver.step(header(1)).unwrap();
    assert_eq!(driver.namespace(), &app_namespace());
    driver.step(Event::BlobsFailed { detail: "e".to_string() }).unwrap();
    assert_eq!(driver.namespace(), &app_namespace());
    driver.step(Event::StreamEnded).unwrap();
    assert_eq!(driver.namespace(), &app_namespace());
}

#[test]
fn replay_of_an_empty_feed_reports_nothing() {
    assert_eq!(replay(&Vec::new()), Vec::new());
}

#[test]
fn replay_isolates_both_kinds_of_failure() {
    let feed = vec![
        Delivery::Header {
            height: 1,
            display: "h1".to_string(),
            reply: Reply::Blobs { count: 3 },
        },
        Delivery::Failed { detail: "decode".to_string() },
        Delivery::Header {
            height: 2,
            display: "h2".to_string(),
            reply: Reply::Failed { detail: "pruned".to_string() },
        },
        Delivery::Header {
            height: 3,
            display: "h3".to_string(),
            reply: Reply::Blobs { count: 0 },
        },
    ];
    let lines = replay(&feed);
    assert_eq!(
        lines,
        vec![
            LogLine::Header { display: "h1".to_string() },
            LogLine::BlobsFound { count: 3, height: 1 },
            LogLine::HeaderError { detail: "decode".to_string() },
            LogLine::Header { display: "h2".to_string() },
            LogLine::BlobError { detail: "pruned".to_string() },
            LogLine::Header { display: "h3".to_string() },
            LogLine::BlobsFound { count: 0, height: 3 },
        ]
    );
    assert_eq!(
        stdout_of(&lines),
        vec![
            "Header: h1",
            "Found 3 blobs at height 1 in the 0xDEADBEEF namespace",
            "Header: h2",
            "Header: h3",
            "Found 0 blobs at height 3 in the 0xDEADBEEF namespace",
        ]
    );
    assert_eq!(
        stderr_of(&lines),
        vec!["ERROR: Error receiving header: decode", "ERROR: Error fetching blobs: pruned"]
    );
}

#[test]
fn replay_reports_counts_in_the_order_of_the_headers() {
    let heights = [5u64, 3, 9, 9, 1];
    let feed: Vec<Delivery> = heights
        .iter()
        .enumerate()
        .map(|(i, h)| Delivery::Header {
            height: *h,
            display: String::new(),
            reply: Reply::Blobs { count: i },
        })
        .collect();
    let found: Vec<(usize, u64)> = replay(&feed)
        .into_iter()
        .filter_map(|l| match l {
            LogLine::BlobsFound { count, height } => Some((count, height)),
            _ => None,
        })
        .collect();
    assert_eq!(found, vec![(0, 5), (1, 3), (2, 9), (3, 9), (4, 1)]);
}
