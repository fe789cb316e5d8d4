use kaldav::host::Origin;
use kaldav::resource::{attributes, build_vector, entry};
use kaldav::{
    one, to_map, to_vec, Authorization, Calendar, Children, Client, Error, Home, NameMap, Object,
    Principal, Requestable, XmlFault, Xmlable,
};

const LISTING: &str = r#"<d:multistatus xmlns:d="DAV:" xmlns:x1="http://apple.com/ns/ical/">
  <d:response>
    <d:href>/c/</d:href>
    <d:propstat><d:prop><d:resourcetype/></d:prop></d:propstat>
  </d:response>
  <d:response>
    <d:href>/c/work/</d:href>
    <d:propstat><d:prop>
      <d:displayname>Work</d:displayname>
      <x1:calendar-color>#112233</x1:calendar-color>
    </d:prop></d:propstat>
  </d:response>
  <d:response>
    <d:href>/c/play/</d:href>
    <d:href>/c/play-again/</d:href>
    <d:propstat><d:prop>
      <d:displayname>Play</d:displayname>
    </d:prop></d:propstat>
  </d:response>
  <d:response>
    <d:href>/c/work-too/</d:href>
    <d:propstat><d:prop>
      <d:displayname>Work</d:displayname>
      <x1:calendar-color>#445566</x1:calendar-color>
    </d:prop></d:propstat>
  </d:response>
</d:multistatus>"#;

const ORPHAN: &str = r#"<d:multistatus xmlns:d="DAV:">
  <d:response>
    <d:propstat><d:prop><d:displayname>Lost</d:displayname></d:prop></d:propstat>
  </d:response>
</d:multistatus>"#;

const NAMES: &str = "//d:response//d:displayname/text()";
const HREF: &str = "//d:displayname [text() = '{}']/../../../d:href/text()";
const COLOR: &str = "//d:displayname [text() = '{}']/../x1:calendar-color/text()";

fn parent() -> Home {
    let mut home = <Home as Children>::new("https://example.com:8443/c/".to_string(), &NameMap::new());
    home.set_auth(Some(Authorization {
        username: "johndoe".to_string(),
        password: None,
    }));
    home
}

#[test]
fn one_resource_for_each_reference_in_order() {
    let found: Vec<Object> = to_vec(&parent(), LISTING, "//d:response/d:href/text()").unwrap();
    let urls: Vec<&str> = found.iter().map(|o| o.url()).collect();
    assert_eq!(
        urls,
        vec![
            "https://example.com:8443/c/",
            "https://example.com:8443/c/work/",
            "https://example.com:8443/c/play/",
            "https://example.com:8443/c/play-again/",
            "https://example.com:8443/c/work-too/",
        ]
    );
    for object in &found {
        let auth = object.auth().unwrap();
        assert_eq!(auth.username, "johndoe");
        assert_eq!(auth.password, None);
    }
}

#[test]
fn absolute_references_of_the_parent_are_kept() {
    let text = r#"<d:m xmlns:d="DAV:"><d:href>https://example.com:8443/c/a.ics</d:href><d:href>/c/b.ics</d:href><d:href>HTTPS://EXAMPLE.COM:8443/c/c.ics</d:href></d:m>"#;
    let found: Vec<Object> = to_vec(&parent(), text, "//d:href/text()").unwrap();
    let urls: Vec<&str> = found.iter().map(|o| o.url()).collect();
    assert_eq!(
        urls,
        vec![
            "https://example.com:8443/c/a.ics",
            "https://example.com:8443/c/b.ics",
            "HTTPS://EXAMPLE.COM:8443/c/c.ics",
        ]
    );
}

#[test]
fn calendar_tells_its_colour() {
    let mut params: NameMap<String> = NameMap::new();
    params.insert("color".to_string(), "#abcdef".to_string());
    let with = <Calendar as Children>::new("u".to_string(), &params);
    assert_eq!(with.color(), Some("#abcdef"));
    let without = <Calendar as Children>::new("u".to_string(), &NameMap::new());
    assert_eq!(without.color(), None);
}

#[test]
fn references_may_repeat() {
    let hrefs = vec!["/a".to_string(), "/a".to_string(), "/b".to_string()];
    let found: Vec<Principal> = build_vector(&parent(), &hrefs).unwrap();
    assert_eq!(found.len(), 3);
    assert_eq!(found[0].url(), "https://example.com:8443/a");
    assert_eq!(found[1].url(), "https://example.com:8443/a");
    assert_eq!(found[2].url(), "https://example.com:8443/b");
}

#[test]
fn no_reference_gives_no_resource() {
    let found: Vec<Object> = to_vec(&parent(), LISTING, "//d:nothing/text()").unwrap();
    assert!(found.is_empty());
    let built: Vec<Object> = build_vector(&parent(), &Vec::new()).unwrap();
    assert!(built.is_empty());
}

#[test]
fn parent_without_credentials_gives_children_without() {
    let client = Client::new("https://example.com/".to_string());
    let found: Vec<Object> = to_vec(&client, LISTING, "//d:response/d:href/text()").unwrap();
    assert_eq!(found.len(), 5);
    assert!(found.iter().all(|o| o.auth().is_none()));
}

#[test]
fn parent_must_have_an_absolute_address() {
    let lost = Client::new("/relative".to_string());
    match to_vec::<Client, Object>(&lost, LISTING, "//d:response/d:href/text()") {
        Err(Error::Url(url)) => assert_eq!(url, "/relative"),
        other => panic!("{:?}", other),
    }
    match build_vector::<Client, Object>(&lost, &Vec::new()) {
        Err(Error::Url(url)) => assert_eq!(url, "/relative"),
        other => panic!("{:?}", other),
    }
    match to_map::<Client, Calendar>(&lost, LISTING, NAMES, HREF, Vec::new()) {
        Err(Error::Url(url)) => assert_eq!(url, "/relative"),
        other => panic!("{:?}", other),
    }
}

#[test]
fn extraction_fails_before_the_address_is_read() {
    let lost = Client::new("/relative".to_string());
    match to_vec::<Client, Object>(&lost, "<broken", "//d:href/text()") {
        Err(Error::Xml(XmlFault::Document)) => {}
        other => panic!("{:?}", other),
    }
    match to_map::<Client, Calendar>(&lost, LISTING, "//d:a[", HREF, Vec::new()) {
        Err(Error::Xml(XmlFault::Expression)) => {}
        other => panic!("{:?}", other),
    }
}

#[test]
fn first_match_is_taken() {
    let first: Option<Object> = one(&parent(), LISTING, "//d:response/d:href/text()").unwrap();
    assert_eq!(first.unwrap().url(), "https://example.com:8443/c/");
    let none: Option<Object> = one(&parent(), LISTING, "//d:nothing/text()").unwrap();
    assert!(none.is_none());
    assert!(one::<Home, Object>(&parent(), "<broken", "//d:href/text()").is_err());
}

#[test]
fn map_has_one_entry_for_each_distinct_key() {
    let found: NameMap<Calendar> =
        to_map(&parent(), LISTING, NAMES, HREF, vec![("color", COLOR)]).unwrap();
    assert_eq!(found.len(), 2);
    assert_eq!(found.name_at(0), "Work");
    assert_eq!(found.name_at(1), "Play");
    let work = found.get("Work").unwrap();
    assert_eq!(work.url(), "https://example.com:8443/c/work/");
    assert_eq!(work.color.as_deref(), Some("#112233"));
    assert_eq!(work.auth().unwrap().username, "johndoe");
    let play = found.get("Play").unwrap();
    assert_eq!(play.url(), "https://example.com:8443/c/play/");
    assert_eq!(play.color, None);
    assert!(found.get("work").is_none());
}

#[test]
fn undeclared_attributes_are_not_kept() {
    let found: NameMap<Calendar> =
        to_map(&parent(), LISTING, NAMES, HREF, vec![("colour", COLOR)]).unwrap();
    assert_eq!(found.get("Work").unwrap().color, None);
    let objects: NameMap<Object> =
        to_map(&parent(), LISTING, NAMES, HREF, vec![("color", COLOR)]).unwrap();
    assert_eq!(objects.len(), 2);
}

#[test]
fn later_template_of_a_name_wins() {
    let found: NameMap<Calendar> = to_map(
        &parent(),
        LISTING,
        NAMES,
        HREF,
        vec![("color", "//d:nothing[text() = '{}']/text()"), ("color", COLOR)],
    )
    .unwrap();
    assert_eq!(found.get("Work").unwrap().color.as_deref(), Some("#112233"));
    let kept: NameMap<Calendar> = to_map(
        &parent(),
        LISTING,
        NAMES,
        HREF,
        vec![("color", COLOR), ("color", "//d:nothing[text() = '{}']/text()")],
    )
    .unwrap();
    assert_eq!(kept.get("Work").unwrap().color.as_deref(), Some("#112233"));
}

#[test]
fn key_without_reference_fails_the_call() {
    match to_map::<Home, Calendar>(&parent(), ORPHAN, NAMES, HREF, vec![("color", COLOR)]) {
        Err(Error::Missing(wanted)) => {
            assert_eq!(wanted, "//d:displayname [text() = 'Lost']/../../../d:href/text()")
        }
        other => panic!("{:?}", other),
    }
}

#[test]
fn key_that_breaks_the_expression_fails_the_call() {
    let text = r#"<d:m xmlns:d="DAV:"><d:response><d:href>/x</d:href><d:propstat><d:prop><d:displayname>Bob's</d:displayname></d:prop></d:propstat></d:response></d:m>"#;
    match to_map::<Home, Calendar>(&parent(), text, NAMES, HREF, Vec::new()) {
        Err(Error::Xml(XmlFault::Expression)) => {}
        other => panic!("{:?}", other),
    }
}

#[test]
fn failing_attribute_fails_the_call() {
    match to_map::<Home, Calendar>(&parent(), LISTING, NAMES, HREF, vec![("color", "//cs:x[. = '{}']")]) {
        Err(Error::Xml(XmlFault::Refused)) => {}
        other => panic!("{:?}", other),
    }
}

#[test]
fn no_key_gives_an_empty_map() {
    let found: NameMap<Calendar> =
        to_map(&parent(), LISTING, "//d:nothing/text()", HREF, vec![("color", COLOR)]).unwrap();
    assert!(found.is_empty());
    assert_eq!(found.len(), 0);
}

#[test]
fn attributes_take_the_first_text() {
    let params = vec![("color", COLOR), ("href", HREF), ("none", "//d:nothing[. = '{}']/text()")];
    let found = attributes(LISTING, "Work", &params).unwrap();
    assert_eq!(found.len(), 2);
    assert_eq!(found.get("color").unwrap(), "#112233");
    assert_eq!(found.get("href").unwrap(), "/c/work/");
    assert!(found.get("none").is_none());
}

#[test]
fn entry_is_built_from_the_first_reference() {
    let origin = Origin::of("https://example.com/").unwrap();
    let mut attrs: NameMap<String> = NameMap::new();
    attrs.insert("color".to_string(), "#000000".to_string());
    attrs.insert("other".to_string(), "dropped".to_string());
    let hrefs = vec!["/first/".to_string(), "/second/".to_string()];
    let built: Calendar = entry(&parent(), &origin, &hrefs, &attrs, "wanted".to_string()).unwrap();
    assert_eq!(built.url(), "https://example.com/first/");
    assert_eq!(built.color.as_deref(), Some("#000000"));
    assert_eq!(built.auth().unwrap().username, "johndoe");
    match entry::<Home, Calendar>(&parent(), &origin, &Vec::new(), &attrs, "wanted".to_string()) {
        Err(Error::Missing(wanted)) => assert_eq!(wanted, "wanted"),
        other => panic!("{:?}", other),
    }
}

#[test]
fn inserting_again_replaces_in_place() {
    let mut map: NameMap<u32> = NameMap::new();
    assert!(map.is_empty());
    map.insert("a".to_string(), 1);
    map.insert("b".to_string(), 2);
    map.insert("a".to_string(), 3);
    assert_eq!(map.len(), 2);
    assert!(!map.is_empty());
    assert_eq!(map.get("a"), Some(&3));
    assert_eq!(map.get("b"), Some(&2));
    assert_eq!(map.get("c"), None);
    assert_eq!(map.position("a"), Some(0));
    assert_eq!(map.position("b"), Some(1));
    assert_eq!(map.position("c"), None);
    assert_eq!(map.name_at(0), "a");
    assert_eq!(*map.item_at(0), 3);
    assert!(map.contains_key("b"));
    assert!(!map.contains_key(""));
    assert_eq!(map.into_entries(), vec![("a".to_string(), 3), ("b".to_string(), 2)]);
}

#[test]
fn new_resources_have_no_credentials() {
    let mut params: NameMap<String> = NameMap::new();
    params.insert("color".to_string(), "#abcdef".to_string());
    let calendar = <Calendar as Children>::new("https://example.com/c/".to_string(), &params);
    assert_eq!(calendar.url(), "https://example.com/c/");
    assert_eq!(calendar.color.as_deref(), Some("#abcdef"));
    assert!(calendar.auth().is_none());
    let object = <Object as Children>::new("u".to_string(), &params);
    assert_eq!(object.url(), "u");
    assert!(object.auth().is_none());
    let copy = calendar.clone();
    assert_eq!(copy.url(), calendar.url());
    assert_eq!(copy.color, calendar.color);
}

#[test]
fn set_auth_changes_the_credentials_only() {
    let mut params: NameMap<String> = NameMap::new();
    params.insert("color".to_string(), "#abcdef".to_string());
    let mut calendar = <Calendar as Children>::new("https://example.com/c/".to_string(), &params);
    calendar.set_auth(Some(Authorization { username: "a".to_string(), password: Some("b".to_string()) }));
    assert_eq!(calendar.url(), "https://example.com/c/");
    assert_eq!(calendar.color.as_deref(), Some("#abcdef"));
    assert_eq!(calendar.auth().unwrap().password.as_deref(), Some("b"));
    calendar.set_auth(None);
    assert!(calendar.auth().is_none());
    assert_eq!(calendar.url(), "https://example.com/c/");
}
