use kaldav::calendar::bound;
use kaldav::{Calendar, Children, Client, Error, Home, Method, NameMap, Principal, Reply, Xmlable};

fn calendar() -> Calendar {
    <Calendar as Children>::new("https://example.com/calendars/johndoe/home/".to_string(), &NameMap::new())
}

const ALL: &str = r#"
<c:calendar-query xmlns:d="DAV:" xmlns:c="urn:ietf:params:xml:ns:caldav">
    <d:prop>
        <d:resourcetype />
    </d:prop>
    <c:filter>
        <c:comp-filter name="VCALENDAR">
            
        </c:comp-filter>
    </c:filter>
</c:calendar-query>
"#;

const EVENTS: &str = r#"
<c:calendar-query xmlns:d="DAV:" xmlns:c="urn:ietf:params:xml:ns:caldav">
    <d:prop>
        <d:resourcetype />
    </d:prop>
    <c:filter>
        <c:comp-filter name="VCALENDAR">
            <c:comp-filter name="VEVENT" />
        </c:comp-filter>
    </c:filter>
</c:calendar-query>
"#;

const SEARCH: &str = r#"
<c:calendar-query xmlns:d="DAV:" xmlns:c="urn:ietf:params:xml:ns:caldav">
    <d:prop>
        <d:resourcetype />
    </d:prop>
    <c:filter>
        <c:comp-filter name="VCALENDAR">
            <c:comp-filter name="VEVENT">
                <c:time-range start="20231028T000000Z" end="+infinity"/>
            </c:comp-filter>
        </c:comp-filter>
    </c:filter>
</c:calendar-query>"#;

#[test]
fn query_for_all_objects_has_no_filter() {
    let request = calendar().objects_request().unwrap();
    assert_eq!(request.method, Method::Report);
    assert_eq!(request.url, "https://example.com/calendars/johndoe/home/");
    assert_eq!(request.body, ALL);
    assert_eq!(request.headers[0], ("Depth".to_string(), "1".to_string()));
    assert_eq!(calendar().request(None).unwrap().body, ALL);
}

#[test]
fn query_for_events_filters_on_their_kind() {
    assert_eq!(calendar().events_request().unwrap().body, EVENTS);
    assert_eq!(calendar().request(Some("VEVENT")).unwrap().body, EVENTS);
    assert_eq!(
        calendar().tasks_request().unwrap().body,
        EVENTS.replace("VEVENT", "VTODO")
    );
    assert_eq!(
        calendar().request(Some("VJOURNAL")).unwrap().body,
        EVENTS.replace("VEVENT", "VJOURNAL")
    );
}

#[test]
fn search_writes_its_range_in_utc() {
    let request = calendar().search_request(Some(1698451200), None).unwrap();
    assert_eq!(request.method, Method::Report);
    assert_eq!(request.body, SEARCH);
    assert_eq!(request.headers[0], ("Depth".to_string(), "1".to_string()));
    let both = calendar().search_request(Some(0), Some(86399)).unwrap();
    assert!(both.body.contains(r#"<c:time-range start="19700101T000000Z" end="19700101T235959Z"/>"#));
    let before = calendar().search_request(None, Some(-1)).unwrap();
    assert!(before.body.contains(r#"<c:time-range start="-infinity" end="19691231T235959Z"/>"#));
    let open = calendar().search_request(None, None).unwrap();
    assert!(open.body.contains(r#"<c:time-range start="-infinity" end="+infinity"/>"#));
}

#[test]
fn search_refuses_times_that_cannot_be_written() {
    match calendar().search_request(Some(i64::MAX), None) {
        Err(Error::Time(seconds)) => assert_eq!(seconds, i64::MAX),
        other => panic!("{:?}", other),
    }
    match calendar().search_request(Some(0), Some(i64::MIN)) {
        Err(Error::Time(seconds)) => assert_eq!(seconds, i64::MIN),
        other => panic!("{:?}", other),
    }
}

#[test]
fn bound_is_the_written_time_or_the_open_end() {
    assert_eq!(bound(None, None, "+infinity").unwrap(), "+infinity");
    assert_eq!(bound(Some(5), Some("19700101T000005Z".to_string()), "x").unwrap(), "19700101T000005Z");
    match bound(Some(5), None, "x") {
        Err(Error::Time(5)) => {}
        other => panic!("{:?}", other),
    }
}

#[test]
fn search_result_is_read_like_a_listing() {
    let reply = r#"<d:multistatus xmlns:d="DAV:"><d:response><d:href>/calendars/johndoe/home/1.ics</d:href></d:response><d:response><d:href>/calendars/johndoe/home/2.ics</d:href></d:response></d:multistatus>"#;
    let found = calendar().search(Reply::Response(207, reply.to_string())).unwrap();
    assert_eq!(found.len(), 2);
    assert_eq!(
        found.request().unwrap().unwrap().url,
        "https://example.com/calendars/johndoe/home/1.ics"
    );
    match calendar().search(Reply::Response(400, String::new())) {
        Err(Error::Status(400, text)) => {
            assert_eq!(text, "REPORT https://example.com/calendars/johndoe/home/: 400")
        }
        other => panic!("{:?}", other),
    }
}

#[test]
fn discovery_requests_carry_their_queries() {
    let client = Client::new("https://example.com/".to_string());
    let request = client.principals_request().unwrap();
    assert_eq!(request.method, Method::Propfind);
    assert_eq!(request.url, "https://example.com/");
    assert_eq!(
        request.body,
        "\n<d:propfind xmlns:d=\"DAV:\">\n    <d:prop>\n        <d:current-user-principal />\n    </d:prop>\n</d:propfind>\n"
    );
    let principal = <Principal as Children>::new("https://example.com/p/".to_string(), &NameMap::new());
    let request = principal.home_request().unwrap();
    assert_eq!(request.url, "https://example.com/p/");
    assert!(request.body.contains("<c:calendar-home-set />"));
    let home = <Home as Children>::new("https://example.com/h/".to_string(), &NameMap::new());
    let request = home.calendars_request().unwrap();
    assert_eq!(request.url, "https://example.com/h/");
    assert!(request.body.contains("<x1:calendar-color />"));
    assert_eq!(home.url(), "https://example.com/h/");
}

#[test]
fn first_home_of_a_principal_is_taken() {
    let principal = <Principal as Children>::new("https://example.com/p/".to_string(), &NameMap::new());
    let reply = r#"<d:multistatus xmlns:d="DAV:" xmlns:c="urn:ietf:params:xml:ns:caldav"><d:response><c:calendar-home-set><d:href>/h1/</d:href><d:href>/h2/</d:href></c:calendar-home-set></d:response></d:multistatus>"#;
    let homes = principal.home(Reply::Response(207, reply.to_string())).unwrap();
    assert_eq!(homes.len(), 2);
    let home = Client::home(&principal, Reply::Response(207, reply.to_string())).unwrap();
    assert_eq!(home.url(), "https://example.com/h1/");
    let empty = r#"<d:multistatus xmlns:d="DAV:"/>"#;
    match Client::home(&principal, Reply::Response(207, empty.to_string())) {
        Err(Error::Missing(wanted)) => assert_eq!(wanted, "//cal:calendar-home-set/d:href/text()"),
        other => panic!("{:?}", other),
    }
}

#[test]
fn far_times_are_written_or_refused() {
    for seconds in [
        253402300799i64,
        253402300800,
        -62167219200,
        -62167219201,
        8210266876799,
        8210266876800,
        -8334601228800,
        -8334601228801,
        i64::MAX / 2,
        i64::MIN / 2,
    ] {
        match calendar().search_request(Some(seconds), Some(seconds)) {
            Ok(request) => assert!(request.body.contains("Z\" end=\"")),
            Err(Error::Time(refused)) => assert_eq!(refused, seconds),
            Err(other) => panic!("{:?}", other),
        }
    }
    let last = calendar().search_request(Some(253402300799), None).unwrap();
    assert!(last.body.contains("start=\"99991231T235959Z\""));
}
