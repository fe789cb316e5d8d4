use kaldav::{Authorization, Client, Discovery, Error, Method, Progress, Reply, Requestable, Xmlable};

const HOST: &str = "http://127.0.0.1:5232";

const PRINCIPALS: &str = r#"
<d:multistatus xmlns:d="DAV:" xmlns:cs="http://calendarserver.org/ns/">
    <d:response>
        <d:href>/</d:href>
        <d:propstat>
            <d:prop>
                <d:current-user-principal>
                    <d:href>/principals/users/johndoe/</d:href>
                </d:current-user-principal>
            </d:prop>
            <d:status>HTTP/1.1 200 OK</d:status>
        </d:propstat>
    </d:response>
</d:multistatus>"#;

const HOMES: &str = r#"
<d:multistatus xmlns:d="DAV:" xmlns:c="urn:ietf:params:xml:ns:caldav">
    <d:response>
        <d:href>/principals/users/johndoe/</d:href>
        <d:propstat>
            <d:prop>
                <c:calendar-home-set>
                    <d:href>/calendars/johndoe/</d:href>
                </c:calendar-home-set>
            </d:prop>
            <d:status>HTTP/1.1 200 OK</d:status>
        </d:propstat>
    </d:response>
</d:multistatus>
"#;

const CALENDARS: &str = r#"
<d:multistatus xmlns:d="DAV:" xmlns:cs="http://calendarserver.org/ns/" xmlns:c="urn:ietf:params:xml:ns:caldav">
    <d:response>
        <d:href>/calendars/johndoe/</d:href>
        <d:propstat>
            <d:prop>
                <d:resourcetype>
                    <d:collection/>
                </d:resourcetype>
            </d:prop>
            <d:status>HTTP/1.1 200 OK</d:status>
        </d:propstat>
    </d:response>
    <d:response>
        <d:href>/calendars/johndoe/home/</d:href>
        <d:propstat>
            <d:prop>
                <d:resourcetype>
                    <d:collection/>
                    <c:calendar/>
                </d:resourcetype>
                <d:displayname>Home calendar</d:displayname>
                <cs:getctag>3145</cs:getctag>
                <c:supported-calendar-component-set>
                    <c:comp name="VEVENT" />
                </c:supported-calendar-component-set>
                <x1:calendar-color xmlns:x1="http://apple.com/ns/ical/">#ffd4a5</x1:calendar-color>
            </d:prop>
            <d:status>HTTP/1.1 200 OK</d:status>
        </d:propstat>
    </d:response>
    <d:response>
        <d:href>/calendars/johndoe/tasks/</d:href>
        <d:propstat>
            <d:prop>
                <d:resourcetype>
                    <d:collection/>
                    <c:calendar/>
                </d:resourcetype>
                <d:displayname>My TODO list</d:displayname>
                <cs:getctag>3345</cs:getctag>
                <c:supported-calendar-component-set>
                    <c:comp name="VTODO" />
                </c:supported-calendar-component-set>
                <x1:calendar-color xmlns:x1="http://apple.com/ns/ical/">#ad0083</x1:calendar-color>
            </d:prop>
            <d:status>HTTP/1.1 200 OK</d:status>
        </d:propstat>
    </d:response>
</d:multistatus>
"#;

const EVENTS: &str = r#"
<d:multistatus xmlns:d="DAV:" xmlns:cs="http://calendarserver.org/ns/" xmlns:c="urn:ietf:params:xml:ns:caldav">
    <d:response>
        <d:href>/calendars/johndoe/home/132456-34365.ics</d:href>
        <d:propstat>
            <d:prop>
                <d:resourcetype/>
            </d:prop>
            <d:status>HTTP/1.1 200 OK</d:status>
        </d:propstat>
    </d:response>
</d:multistatus>
"#;

const TASKS: &str = r#"
<d:multistatus xmlns:d="DAV:" xmlns:cs="http://calendarserver.org/ns/" xmlns:c="urn:ietf:params:xml:ns:caldav">
    <d:response>
        <d:href>/calendars/johndoe/tasks/132456762153245.ics</d:href>
        <d:propstat>
            <d:prop>
                <d:resourcetype/>
            </d:prop>
            <d:status>HTTP/1.1 200 OK</d:status>
        </d:propstat>
    </d:response>
</d:multistatus>
"#;

const EVENT: &str = "BEGIN:VCALENDAR\r\nVERSION:2.0\r\nCALSCALE:GREGORIAN\r\nPRODID:kaldav\r\nBEGIN:VEVENT\r\nDTSTAMP:20120101T120000\r\nUID:132456-34365\r\nSUMMARY:Weekly meeting\r\nDTSTART:20120101T120000\r\nDURATION:PT1H\r\nRRULE:FREQ=WEEKLY\r\nEND:VEVENT\r\nEND:VCALENDAR\r\n";

const TASK: &str = "BEGIN:VCALENDAR\r\nVERSION:2.0\r\nPRODID:kaldav\r\nCALSCALE:GREGORIAN\r\nBEGIN:VTODO\r\nDTSTAMP:20120101T120000\r\nUID:132456762153245\r\nSUMMARY:Do the dishes\r\nDUE:20121028T115600Z\r\nEND:VTODO\r\nEND:VCALENDAR\r\n";

fn multistatus(text: &str) -> Reply {
    Reply::Response(207, text.to_string())
}

fn walk(client: &Client) -> kaldav::NameMap<kaldav::Calendar> {
    let mut walk = client.calendars();
    let replies = [PRINCIPALS, HOMES, CALENDARS];
    let targets = [
        "http://127.0.0.1:5232",
        "http://127.0.0.1:5232/principals/users/johndoe/",
        "http://127.0.0.1:5232/calendars/johndoe/",
    ];
    for step in 0..3 {
        let request = walk.request().unwrap();
        assert_eq!(request.method, Method::Propfind);
        assert_eq!(request.url, targets[step]);
        match walk.advance(multistatus(replies[step])).unwrap() {
            Progress::Next(next) => walk = next,
            Progress::Done(calendars) => {
                assert_eq!(step, 2);
                return calendars;
            }
        }
    }
    unreachable!()
}

#[test]
fn event() {
    let client = Client::new(HOST.to_string());
    let calendars = walk(&client);
    let calendar = calendars.get("Home calendar").unwrap();
    let request = calendar.events_request().unwrap();
    assert_eq!(request.method, Method::Report);
    assert_eq!(request.url, "http://127.0.0.1:5232/calendars/johndoe/home/");
    assert!(request.body.contains("<c:comp-filter name=\"VEVENT\" />"));
    let mut events = calendar.events(multistatus(EVENTS)).unwrap();
    assert_eq!(events.len(), 1);
    let fetch = events.request().unwrap().unwrap();
    assert_eq!(fetch.method, Method::Get);
    assert_eq!(fetch.url, "http://127.0.0.1:5232/calendars/johndoe/home/132456-34365.ics");
    let body = events.advance(Reply::Response(200, EVENT.to_string())).unwrap().unwrap();
    let decoded = ikal::VCalendar::try_from(body).unwrap();
    assert_eq!(decoded.events.len(), 1);
    assert_eq!(decoded.events[0].summary.as_deref(), Some("Weekly meeting"));
}

#[test]
fn task() {
    let client = Client::new(HOST.to_string());
    let calendars = walk(&client);
    let calendar = calendars.get("My TODO list").unwrap();
    let request = calendar.tasks_request().unwrap();
    assert_eq!(request.url, "http://127.0.0.1:5232/calendars/johndoe/tasks/");
    assert!(request.body.contains("<c:comp-filter name=\"VTODO\" />"));
    let mut tasks = calendar.tasks(multistatus(TASKS)).unwrap();
    assert_eq!(tasks.len(), 1);
    let fetch = tasks.request().unwrap().unwrap();
    assert_eq!(fetch.url, "http://127.0.0.1:5232/calendars/johndoe/tasks/132456762153245.ics");
    let body = tasks.advance(Reply::Response(200, TASK.to_string())).unwrap().unwrap();
    let decoded = ikal::VCalendar::try_from(body).unwrap();
    assert_eq!(decoded.todo.len(), 1);
    assert_eq!(decoded.todo[0].summary.as_deref(), Some("Do the dishes"));
}

#[test]
fn principal_discovery_returns_one_absolute_resource() {
    let client = Client::new("https://dav.example.org/".to_string());
    let principals = client.principals(multistatus(PRINCIPALS)).unwrap();
    assert_eq!(principals.len(), 1);
    assert_eq!(principals[0].url(), "https://dav.example.org/principals/users/johndoe/");
    assert!(principals[0].auth().is_none());
}

#[test]
fn calendar_listing_is_keyed_by_display_name() {
    let client = Client::new(HOST.to_string());
    let calendars = walk(&client);
    assert_eq!(calendars.len(), 2);
    assert!(calendars.contains_key("Home calendar"));
    assert!(calendars.contains_key("My TODO list"));
    assert!(!calendars.contains_key("home calendar"));
    assert_eq!(calendars.name_at(0), "Home calendar");
    assert_eq!(calendars.name_at(1), "My TODO list");
    let home = calendars.get("Home calendar").unwrap();
    assert_eq!(home.url(), "http://127.0.0.1:5232/calendars/johndoe/home/");
    assert_eq!(home.color.as_deref(), Some("#ffd4a5"));
    let tasks = calendars.get("My TODO list").unwrap();
    assert_eq!(tasks.url(), "http://127.0.0.1:5232/calendars/johndoe/tasks/");
    assert_eq!(tasks.color.as_deref(), Some("#ad0083"));
}

#[test]
fn stream_yields_one_item_then_ends() {
    let client = Client::new(HOST.to_string());
    let calendars = walk(&client);
    let calendar = calendars.get("Home calendar").unwrap();
    let mut objects = calendar.objects(multistatus(EVENTS)).unwrap();
    assert!(!objects.is_empty());
    let first = objects.advance(Reply::Response(200, EVENT.to_string()));
    let decoded = ikal::VCalendar::try_from(first.unwrap().unwrap());
    assert!(decoded.is_ok());
    assert!(objects.is_empty());
    assert!(objects.request().is_none());
    assert!(objects.advance(Reply::Response(200, EVENT.to_string())).is_none());
    assert!(objects.advance(Reply::Response(200, EVENT.to_string())).is_none());
    assert_eq!(objects.len(), 0);
}

#[test]
fn not_found_is_a_status_failure() {
    let client = Client::new(HOST.to_string());
    let reply = Reply::Response(404, PRINCIPALS.to_string());
    match client.principals(reply) {
        Err(Error::Status(status, text)) => {
            assert_eq!(status, 404);
            assert_eq!(text, "PROPFIND http://127.0.0.1:5232: 404");
        }
        other => panic!("{:?}", other),
    }
    let walk = client.calendars();
    match walk.advance(Reply::Response(404, String::new())) {
        Err(Error::Status(404, _)) => {}
        other => panic!("{:?}", other),
    }
}

#[test]
fn credentials_reach_every_level() {
    let mut client = Client::new(HOST.to_string());
    client.set_auth(Some(Authorization {
        username: "johndoe".to_string(),
        password: Some("secret".to_string()),
    }));
    let calendars = walk(&client);
    let calendar = calendars.get("Home calendar").unwrap();
    let auth = calendar.auth().unwrap();
    assert_eq!(auth.username, "johndoe");
    assert_eq!(auth.password.as_deref(), Some("secret"));
    let events = calendar.events(multistatus(EVENTS)).unwrap();
    let fetch = events.request().unwrap().unwrap();
    assert!(fetch
        .headers
        .contains(&("Authorization".to_string(), "Basic am9obmRvZTpzZWNyZXQ=".to_string())));
}

#[test]
fn walk_stops_where_no_principal_is_named() {
    let client = Client::new(HOST.to_string());
    let walk = client.calendars();
    match walk.advance(multistatus(HOMES)) {
        Err(Error::Missing(wanted)) => {
            assert_eq!(wanted, "//d:current-user-principal/d:href/text()")
        }
        other => panic!("{:?}", other),
    }
}

#[test]
fn walk_names_its_stage() {
    let client = Client::new(HOST.to_string());
    let walk = client.calendars();
    assert!(matches!(walk, Discovery::Principals(_)));
    let next = walk.advance(multistatus(PRINCIPALS)).unwrap();
    match next {
        Progress::Next(Discovery::Home(principal)) => {
            assert_eq!(principal.url(), "http://127.0.0.1:5232/principals/users/johndoe/");
            let homes = principal.home(multistatus(HOMES)).unwrap();
            assert_eq!(homes.len(), 1);
            assert_eq!(homes[0].url(), "http://127.0.0.1:5232/calendars/johndoe/");
        }
        other => panic!("{:?}", other),
    }
}
