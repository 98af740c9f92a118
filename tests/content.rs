use kaenguru::{deliverable, CalendarDate, ContentRequest, Download, Event, FetchError, Persistence, Step};
use std::collections::HashMap;

fn setup() -> (Persistence, Download) {
    (
        Persistence { path: "/data".to_string(), chat_ids_file: "chats.json".to_string() },
        Download { base_url: "https://example.org/comics".to_string(), filename: "original".to_string() },
    )
}

/// Runs a request against an in-memory cache and origin; returns the answer
/// and the number of downloads.
fn run(
    cache: &mut HashMap<String, Vec<u8>>,
    origin: Option<Vec<u8>>,
    writable: bool,
    d: &CalendarDate,
) -> (Result<Vec<u8>, FetchError>, usize) {
    let (p, dl) = setup();
    let mut request = ContentRequest::new(&p, &dl, d);
    let mut step = request.current();
    let mut downloads = 0;
    loop {
        step = match step {
            Step::ReadCache => {
                let found = cache.get(request.path().as_str()).cloned();
                request.advance(Event::CacheRead(found))
            }
            Step::Download => {
                downloads += 1;
                assert_eq!(request.url(), "https://example.org/comics/2024-03/07/original");
                request.advance(Event::Downloaded(origin.clone()))
            }
            Step::WriteCache(bytes) => {
                if writable {
                    cache.insert(request.path().clone(), bytes);
                }
                request.advance(Event::CacheWritten(writable))
            }
            Step::Done(result) => return (result, downloads),
        };
    }
}

fn day() -> CalendarDate {
    CalendarDate::new(2024, 3, 7).unwrap()
}

#[test]
fn second_request_is_served_from_the_cache() {
    let mut cache = HashMap::new();
    let (first, n1) = run(&mut cache, Some(vec![1, 2, 3]), true, &day());
    let (second, n2) = run(&mut cache, Some(vec![9, 9]), true, &day());
    assert_eq!(n1, 1);
    assert_eq!(n2, 0);
    assert_eq!(first.unwrap(), vec![1, 2, 3]);
    assert_eq!(second.unwrap(), vec![1, 2, 3]);
    assert!(cache.contains_key("/data/kaenguru_kaenguru_2024-03-07.webp.webp"));
}

#[test]
fn cached_content_needs_no_download() {
    let mut cache = HashMap::new();
    cache.insert("/data/kaenguru_kaenguru_2024-03-07.webp.webp".to_string(), vec![4, 5]);
    let (result, n) = run(&mut cache, None, true, &day());
    assert_eq!(n, 0);
    assert_eq!(result.unwrap(), vec![4, 5]);
}

#[test]
fn failed_download_is_an_http_error() {
    let mut cache = HashMap::new();
    let (result, n) = run(&mut cache, None, true, &day());
    assert_eq!(n, 1);
    assert!(matches!(result, Err(FetchError::Http)));
    assert!(cache.is_empty());
    assert_eq!(deliverable(result), None);
}

#[test]
fn failed_cache_write_keeps_the_content() {
    let mut cache = HashMap::new();
    let (result, n) = run(&mut cache, Some(vec![7]), false, &day());
    assert_eq!(n, 1);
    match &result {
        Err(FetchError::Io(bytes)) => assert_eq!(bytes, &vec![7]),
        other => panic!("unexpected answer {:?}", other),
    }
    assert_eq!(deliverable(result), Some(vec![7]));
    assert!(cache.is_empty());
}

#[test]
fn event_out_of_turn_repeats_the_request() {
    let (p, dl) = setup();
    let mut request = ContentRequest::new(&p, &dl, &day());
    assert!(matches!(request.advance(Event::CacheWritten(true)), Step::ReadCache));
    assert!(matches!(request.advance(Event::CacheRead(None)), Step::Download));
    assert!(matches!(request.advance(Event::CacheRead(Some(vec![1]))), Step::Download));
    assert!(matches!(request.advance(Event::Downloaded(None)), Step::Done(Err(FetchError::Http))));
    assert!(matches!(request.current(), Step::Done(Err(FetchError::Http))));
}

#[test]
fn deliverable_passes_content_on() {
    assert_eq!(deliverable(Ok(vec![1, 2])), Some(vec![1, 2]));
}
