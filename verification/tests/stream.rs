use kaldav::{Authorization, Children, Error, Iterator, Method, NameMap, Object, Reply, Requestable};

fn objects(count: usize) -> Vec<Object> {
    (0..count)
        .map(|i| {
            let mut object =
                <Object as Children>::new(format!("https://example.com/c/{}.ics", i), &NameMap::new());
            object.set_auth(Some(Authorization {
                username: format!("user{}", i),
                password: Some("secret".to_string()),
            }));
            object
        })
        .collect()
}

fn body(text: &str) -> Reply {
    Reply::Response(200, text.to_string())
}

#[test]
fn length_is_the_number_of_handles() {
    for count in [0usize, 1, 2, 7] {
        let stream = Iterator::from(objects(count));
        assert_eq!(stream.len(), count);
        assert_eq!(stream.is_empty(), count == 0);
    }
}

#[test]
fn every_advance_leaves_one_fewer() {
    let mut stream = Iterator::from(objects(5));
    for passed in 1..=5 {
        assert!(stream.advance(body("x")).is_some());
        assert_eq!(stream.len(), 5 - passed);
    }
    assert!(stream.is_empty());
    for _ in 0..3 {
        assert!(stream.advance(body("x")).is_none());
        assert_eq!(stream.len(), 0);
    }
}

#[test]
fn empty_stream_ends_at_once() {
    let mut stream = Iterator::from(Vec::new());
    assert!(stream.is_empty());
    assert_eq!(stream.len(), 0);
    assert!(stream.request().is_none());
    assert!(stream.get(0).is_none());
    assert!(stream.advance(body("x")).is_none());
    assert!(stream.is_empty());
}

#[test]
fn failure_of_one_item_does_not_stop_the_stream() {
    let mut stream = Iterator::from(objects(3));
    match stream.advance(Reply::Response(500, String::new())) {
        Some(Err(Error::Status(500, text))) => {
            assert_eq!(text, "GET https://example.com/c/0.ics: 500")
        }
        other => panic!("{:?}", other),
    }
    assert_eq!(stream.len(), 2);
    match stream.advance(Reply::Fault("timed out".to_string())) {
        Some(Err(Error::Io(text))) => assert_eq!(text, "timed out"),
        other => panic!("{:?}", other),
    }
    assert_eq!(stream.len(), 1);
    assert_eq!(stream.request().unwrap().unwrap().url, "https://example.com/c/2.ics");
    assert_eq!(stream.advance(body("third")).unwrap().unwrap(), "third");
    assert!(stream.advance(body("x")).is_none());
}

#[test]
fn each_item_is_fetched_with_its_own_address_and_credentials() {
    let mut stream = Iterator::from(objects(2));
    let first = stream.request().unwrap().unwrap();
    assert_eq!(first.method, Method::Get);
    assert_eq!(first.url, "https://example.com/c/0.ics");
    assert_eq!(first.body, "");
    assert_eq!(
        first.headers,
        vec![
            ("Authorization".to_string(), "Basic dXNlcjA6c2VjcmV0".to_string()),
            ("Content-Length".to_string(), "0".to_string()),
        ]
    );
    assert_eq!(stream.get(1).unwrap().unwrap().url, "https://example.com/c/1.ics");
    assert!(stream.get(2).is_none());
    stream.advance(body("x"));
    let second = stream.request().unwrap().unwrap();
    assert_eq!(second.url, "https://example.com/c/1.ics");
    assert_eq!(second.headers[0].1, "Basic dXNlcjE6c2VjcmV0");
    assert!(stream.get(1).is_none());
}

#[test]
fn asking_does_not_advance() {
    let stream = Iterator::from(objects(2));
    for _ in 0..4 {
        assert_eq!(stream.request().unwrap().unwrap().url, "https://example.com/c/0.ics");
        assert_eq!(stream.len(), 2);
    }
}

#[test]
fn undecodable_item_is_the_failure_of_that_item_alone() {
    let mut stream = Iterator::from(objects(2));
    let first = stream.advance(body("no calendar at all")).unwrap().unwrap();
    assert!(ikal::VCalendar::try_from(first).is_err());
    let second = stream
        .advance(body("BEGIN:VCALENDAR\r\nVERSION:2.0\r\nPRODID:kaldav\r\nEND:VCALENDAR\r\n"))
        .unwrap()
        .unwrap();
    assert!(ikal::VCalendar::try_from(second).is_ok());
    assert!(stream.is_empty());
}
