use weather_checker::feed::{
    latest_pointer_for_lmo, parse_extra_xml, pointers_from_events, sort_newest_first, VPWWEntry,
};
use weather_checker::error::WeatherCheckerError;
use weather_checker::text::{document_name, str_contains, str_eq};
use weather_checker::timestamp::Timestamp;
use weather_checker::xml::{XmlAttribute, XmlEvent};

const STARTED: Timestamp = Timestamp { secs: 1_000, nanos: 0 };

fn entry(title: &str, updated: &str, author: &str, href: &str) -> String {
    format!(
        "<entry><title>{}</title><id>urn:uuid:{}</id><updated>{}</updated>\
         <author><name>{}</name></author>\
         <link type=\"application/xml\" href=\"{}\"/>\
         <content type=\"text\">content</content></entry>",
        title, href, updated, author, href
    )
}

fn feed(entries: &[String]) -> Vec<u8> {
    let mut s = String::from(
        "<?xml version=\"1.0\" encoding=\"UTF-8\"?>\n<feed xmlns=\"http://www.w3.org/2005/Atom\">\n<title>高頻度（随時）</title>\n",
    );
    for e in entries {
        s.push_str(e);
        s.push('\n');
    }
    s.push_str("</feed>\n");
    s.into_bytes()
}

const MARKED: &str = "気象警報・注意報（Ｈ２７）";
const OTHER: &str = "気象特別警報・警報・注意報";

#[test]
fn one_matching_entry_of_two_yields_one_pointer() {
    let doc = feed(&[
        entry(MARKED, "2024-05-01T01:00:00Z", "静岡地方気象台", "https://example.org/data/a_VPWW54.xml"),
        entry(OTHER, "2024-05-01T02:00:00Z", "静岡地方気象台", "https://example.org/data/b_VPWW53.xml"),
    ]);
    let pointers = parse_extra_xml(&doc, STARTED).unwrap();
    assert_eq!(pointers.len(), 1);
    assert_eq!(pointers[0].lmo, "静岡地方気象台");
    assert_eq!(pointers[0].url, "https://example.org/data/a_VPWW54.xml");
    assert_eq!(pointers[0].filename, "a_VPWW54.xml");
    assert_eq!(pointers[0].updated, Timestamp::new(1_714_525_200, 0));
}

#[test]
fn title_that_contains_the_marker_matches() {
    let doc = feed(&[entry(
        "【静岡】気象警報・注意報（Ｈ２７）更新",
        "2024-05-01T01:00:00Z",
        "静岡地方気象台",
        "https://example.org/x.xml",
    )]);
    assert_eq!(parse_extra_xml(&doc, STARTED).unwrap().len(), 1);
}

#[test]
fn pointers_come_newest_first_and_ties_keep_feed_order() {
    let doc = feed(&[
        entry(MARKED, "2024-05-01T01:00:00Z", "A", "https://example.org/1.xml"),
        entry(MARKED, "2024-05-01T03:00:00Z", "B", "https://example.org/2.xml"),
        entry(MARKED, "2024-05-01T01:00:00Z", "C", "https://example.org/3.xml"),
        entry(MARKED, "2024-05-01T02:00:00+09:00", "D", "https://example.org/4.xml"),
    ]);
    let names: Vec<String> = parse_extra_xml(&doc, STARTED).unwrap().into_iter().map(|p| p.lmo).collect();
    assert_eq!(names, vec!["B", "A", "C", "D"]);
}

#[test]
fn unreadable_date_falls_back_to_start_time() {
    let doc = feed(&[entry(MARKED, "yesterday", "A", "https://example.org/1.xml")]);
    let pointers = parse_extra_xml(&doc, STARTED).unwrap();
    assert_eq!(pointers[0].updated, STARTED);
}

#[test]
fn empty_link_gets_unknown_name() {
    let doc = feed(&[entry(MARKED, "2024-05-01T01:00:00Z", "A", "")]);
    let pointers = parse_extra_xml(&doc, STARTED).unwrap();
    assert_eq!(pointers[0].url, "");
    assert_eq!(pointers[0].filename, "unknown.xml");
}

#[test]
fn document_name_takes_final_segment() {
    assert_eq!(document_name("https://a.example/b/c/file.xml"), "file.xml");
    assert_eq!(document_name("plain.xml"), "plain.xml");
    assert_eq!(document_name("https://a.example/dir/"), "unknown.xml");
    assert_eq!(document_name(""), "unknown.xml");
}

#[test]
fn broken_feed_is_an_error() {
    let doc = b"<feed><entry><title>x</titel></entry></feed>".to_vec();
    assert!(matches!(parse_extra_xml(&doc, STARTED), Err(WeatherCheckerError::XmlParse(_))));
    assert!(matches!(latest_pointer_for_lmo(&doc, "A", STARTED), Err(WeatherCheckerError::XmlParse(_))));
}

#[test]
fn latest_pointer_of_a_publisher() {
    let doc = feed(&[
        entry(MARKED, "2024-05-01T01:00:00Z", "A", "https://example.org/a1.xml"),
        entry(MARKED, "2024-05-01T05:00:00Z", "B", "https://example.org/b1.xml"),
        entry(MARKED, "2024-05-01T04:00:00Z", "A", "https://example.org/a2.xml"),
    ]);
    let latest = latest_pointer_for_lmo(&doc, "A", STARTED).unwrap().unwrap();
    assert_eq!(latest.filename, "a2.xml");
    assert!(latest_pointer_for_lmo(&doc, "Z", STARTED).unwrap().is_none());
}

fn start(name: &str, attrs: &[(&str, &str)], self_closing: bool) -> XmlEvent {
    XmlEvent::Start {
        name: name.to_string(),
        attributes: attrs
            .iter()
            .map(|(k, v)| Some(XmlAttribute { key: k.to_string(), value: v.to_string() }))
            .collect(),
        self_closing,
    }
}

fn end(name: &str) -> XmlEvent {
    XmlEvent::End { name: name.to_string() }
}

fn text(t: &str) -> XmlEvent {
    XmlEvent::Text { text: t.to_string() }
}

#[test]
fn events_with_the_last_href_and_an_unreadable_attribute() {
    let events = vec![
        start("entry", &[], false),
        start("title", &[], false),
        text(MARKED),
        end("title"),
        start("author", &[], false),
        start("name", &[], false),
        text("A"),
        end("name"),
        end("author"),
        XmlEvent::Start {
            name: "link".to_string(),
            attributes: vec![
                Some(XmlAttribute { key: "href".to_string(), value: "https://e/1.xml".to_string() }),
                None,
                Some(XmlAttribute { key: "href".to_string(), value: "https://e/2.xml".to_string() }),
            ],
            self_closing: true,
        },
        end("entry"),
        XmlEvent::Eof,
    ];
    let pointers = pointers_from_events(&events, STARTED);
    assert_eq!(pointers.len(), 1);
    assert_eq!(pointers[0].filename, "2.xml");
    assert_eq!(pointers[0].updated, STARTED);
}

#[test]
fn name_outside_author_is_not_the_publisher() {
    let events = vec![
        start("entry", &[], false),
        start("title", &[], false),
        text(MARKED),
        end("title"),
        start("name", &[], false),
        text("not a publisher"),
        end("name"),
        end("entry"),
    ];
    let pointers = pointers_from_events(&events, STARTED);
    assert_eq!(pointers[0].lmo, "");
}

#[test]
fn sorting_keeps_equal_instants_in_order() {
    let p = |lmo: &str, secs: i64| VPWWEntry {
        lmo: lmo.to_string(),
        url: String::new(),
        filename: String::new(),
        updated: Timestamp::new(secs, 0),
    };
    let sorted = sort_newest_first(&vec![p("a", 1), p("b", 3), p("c", 1), p("d", 2), p("e", 3)]);
    let names: Vec<&str> = sorted.iter().map(|e| e.lmo.as_str()).collect();
    assert_eq!(names, vec!["b", "e", "d", "a", "c"]);
}

#[test]
fn timestamps_read_rfc3339() {
    assert_eq!(Timestamp::parse("2024-05-01T10:00:00+09:00"), Some(Timestamp::new(1_714_525_200, 0)));
    assert_eq!(Timestamp::parse("1970-01-01T00:00:01.5Z"), Some(Timestamp::new(1, 500_000_000)));
    assert_eq!(Timestamp::parse("not a date"), None);
    assert!(Timestamp::new(1, 0).is_before(&Timestamp::new(1, 1)));
    assert!(!Timestamp::new(2, 0).is_before(&Timestamp::new(1, 9)));
}

#[test]
fn string_helpers_compare_characters() {
    assert!(str_eq("静岡", "静岡"));
    assert!(!str_eq("静岡", "静"));
    assert!(!str_eq("ab", "ba"));
    assert!(str_contains("気象警報・注意報（Ｈ２７）", "注意報"));
    assert!(str_contains("abc", ""));
    assert!(str_contains("abc", "abc"));
    assert!(!str_contains("abc", "abcd"));
    assert!(!str_contains("abc", "ac"));
}
