//! The feed document: a list of entries, each pointing at one published
//! bulletin. Entries whose title marks a municipal warning bulletin become
//! pointers, newest first.
use crate::error::WeatherCheckerError;
use crate::text::{contains_chars, document_name, document_name_of, str_contains, str_eq};
use crate::timestamp::{earlier, parse_rfc3339, rfc3339_instant, Timestamp};
use crate::xml::{read_events, xml_events, XmlAttribute, XmlEvent};
use vstd::prelude::*;

verus! {

/// The title substring that marks an entry as a municipal warning bulletin.
pub const BULLETIN_TITLE_MARKER: &'static str = "気象警報・注意報（Ｈ２７）";

/// One entry of the feed, as far as it has been read.
#[derive(Clone, Debug)]
pub struct FeedEntry {
    pub title: String,
    pub id: String,
    pub updated: Timestamp,
    pub author_name: String,
    pub link: String,
    pub content: String,
}

pub struct FeedEntryView {
    pub title: Seq<char>,
    pub id: Seq<char>,
    pub updated: Timestamp,
    pub author_name: Seq<char>,
    pub link: Seq<char>,
    pub content: Seq<char>,
}

impl View for FeedEntry {
    type V = FeedEntryView;

    open spec fn view(&self) -> FeedEntryView {
        FeedEntryView {
            title: self.title@,
            id: self.id@,
            updated: self.updated,
            author_name: self.author_name@,
            link: self.link@,
            content: self.content@,
        }
    }
}

/// A pointer at one bulletin: its publisher, where it is, its name and when
/// it was published.
#[derive(Clone, Debug)]
pub struct VPWWEntry {
    pub lmo: String,
    pub url: String,
    pub filename: String,
    pub updated: Timestamp,
}

pub struct VPWWEntryView {
    pub lmo: Seq<char>,
    pub url: Seq<char>,
    pub filename: Seq<char>,
    pub updated: Timestamp,
}

impl View for VPWWEntry {
    type V = VPWWEntryView;

    open spec fn view(&self) -> VPWWEntryView {
        VPWWEntryView { lmo: self.lmo@, url: self.url@, filename: self.filename@, updated: self.updated }
    }
}

pub open spec fn entry_views(s: Seq<VPWWEntry>) -> Seq<VPWWEntryView> {
    s.map_values(|e: VPWWEntry| e@)
}

/// What a scan of the feed has gathered so far.
pub struct FeedScan {
    pub entry: Option<FeedEntryView>,
    pub current_tag: Seq<char>,
    pub in_author: bool,
    pub entries: Seq<VPWWEntryView>,
    pub started_at: Timestamp,
}

pub open spec fn blank_entry(t: Timestamp) -> FeedEntryView {
    FeedEntryView {
        title: Seq::empty(),
        id: Seq::empty(),
        updated: t,
        author_name: Seq::empty(),
        link: Seq::empty(),
        content: Seq::empty(),
    }
}

pub open spec fn feed_start(started_at: Timestamp) -> FeedScan {
    FeedScan {
        entry: None,
        current_tag: Seq::empty(),
        in_author: false,
        entries: Seq::empty(),
        started_at,
    }
}

/// The value of the last readable attribute named `key`.
pub open spec fn attribute_of(attrs: Seq<Option<XmlAttribute>>, key: Seq<char>) -> Option<Seq<char>>
    decreases attrs.len(),
{
    if attrs.len() == 0 {
        None
    } else if attrs.last() is Some && attrs.last()->Some_0.key@ == key {
        Some(attrs.last()->Some_0.value@)
    } else {
        attribute_of(attrs.drop_last(), key)
    }
}

/// The pointer that a finished entry yields.
pub open spec fn pointer_of(e: FeedEntryView) -> VPWWEntryView {
    VPWWEntryView {
        lmo: e.author_name,
        url: e.link,
        filename: document_name_of(e.link),
        updated: e.updated,
    }
}

/// Whether a finished entry is a municipal warning bulletin.
pub open spec fn is_bulletin_entry(e: FeedEntryView) -> bool {
    contains_chars(e.title, BULLETIN_TITLE_MARKER@)
}

/// `e` after the text `t` was read inside the element `tag`; `instant` is
/// what `t` reads as a date.
pub open spec fn entry_with_text(
    e: FeedEntryView,
    tag: Seq<char>,
    in_author: bool,
    t: Seq<char>,
    instant: Option<Timestamp>,
) -> FeedEntryView {
    if tag == "title"@ {
        FeedEntryView { title: t, ..e }
    } else if tag == "id"@ {
        FeedEntryView { id: t, ..e }
    } else if tag == "updated"@ {
        match instant {
            Some(d) => FeedEntryView { updated: d, ..e },
            None => e,
        }
    } else if tag == "name"@ && in_author {
        FeedEntryView { author_name: t, ..e }
    } else {
        e
    }
}

pub open spec fn feed_text(s: FeedScan, t: Seq<char>, instant: Option<Timestamp>) -> FeedScan {
    match s.entry {
        Some(e) => FeedScan {
            entry: Some(entry_with_text(e, s.current_tag, s.in_author, t, instant)),
            ..s
        },
        None => s,
    }
}

/// The scan after one more event.
pub open spec fn feed_step(s: FeedScan, ev: XmlEvent) -> FeedScan {
    match ev {
        XmlEvent::Start { name, attributes, self_closing } => {
            let s1 = FeedScan { current_tag: name@, ..s };
            if name@ == "entry"@ {
                FeedScan { entry: Some(blank_entry(s.started_at)), ..s1 }
            } else if name@ == "author"@ {
                FeedScan { in_author: true, ..s1 }
            } else if name@ == "link"@ && s.entry is Some && attribute_of(attributes@, "href"@) is Some {
                FeedScan {
                    entry: Some(
                        FeedEntryView { link: attribute_of(attributes@, "href"@)->Some_0, ..s.entry->Some_0 },
                    ),
                    ..s1
                }
            } else {
                s1
            }
        },
        XmlEvent::End { name } => {
            let s1 = FeedScan { current_tag: Seq::empty(), ..s };
            if name@ == "entry"@ {
                match s.entry {
                    Some(e) => FeedScan {
                        entry: None,
                        entries: if is_bulletin_entry(e) {
                            s.entries.push(pointer_of(e))
                        } else {
                            s.entries
                        },
                        ..s1
                    },
                    None => s1,
                }
            } else if name@ == "author"@ {
                FeedScan { in_author: false, ..s1 }
            } else {
                s1
            }
        },
        XmlEvent::Text { text } => feed_text(s, text@, rfc3339_instant(text@)),
        _ => s,
    }
}

/// The scan after a run of events.
pub open spec fn feed_run(s: FeedScan, evs: Seq<XmlEvent>) -> FeedScan
    decreases evs.len(),
{
    if evs.len() == 0 {
        s
    } else {
        feed_step(feed_run(s, evs.drop_last()), evs.last())
    }
}

/// `s` with `x` placed before the first pointer published strictly earlier.
pub open spec fn insert_newest_first(s: Seq<VPWWEntryView>, x: VPWWEntryView) -> Seq<VPWWEntryView>
    decreases s.len(),
{
    if s.len() == 0 {
        seq![x]
    } else if earlier(s[0].updated, x.updated) {
        seq![x] + s
    } else {
        seq![s[0]] + insert_newest_first(s.subrange(1, s.len() as int), x)
    }
}

/// The pointers ordered newest first; pointers published at the same instant
/// keep their order.
pub open spec fn newest_first(s: Seq<VPWWEntryView>) -> Seq<VPWWEntryView>
    decreases s.len(),
{
    if s.len() == 0 {
        s
    } else {
        insert_newest_first(newest_first(s.drop_last()), s.last())
    }
}

/// The pointers that a feed document, read as the events `evs`, yields.
pub open spec fn feed_pointers(evs: Seq<XmlEvent>, started_at: Timestamp) -> Seq<VPWWEntryView> {
    newest_first(feed_run(feed_start(started_at), evs).entries)
}

/// The newest pointer of the publisher `lmo` in a list ordered newest first.
pub open spec fn first_of_publisher(s: Seq<VPWWEntryView>, lmo: Seq<char>) -> Option<VPWWEntryView>
    decreases s.len(),
{
    if s.len() == 0 {
        None
    } else if s[0].lmo == lmo {
        Some(s[0])
    } else {
        first_of_publisher(s.subrange(1, s.len() as int), lmo)
    }
}

/// `s` with `x` inserted at the first position whose pointer was published
/// strictly earlier than `x`.
proof fn lemma_insert_position(s: Seq<VPWWEntryView>, x: VPWWEntryView, j: int)
    requires
        0 <= j <= s.len(),
        forall|k: int| 0 <= k < j ==> !earlier(#[trigger] s[k].updated, x.updated),
        j == s.len() || earlier(s[j].updated, x.updated),
    ensures
        insert_newest_first(s, x) == s.insert(j, x),
    decreases s.len(),
{
    if s.len() == 0 {
        assert(s.insert(j, x) =~= seq![x]);
    } else if j == 0 {
        assert(s.insert(j, x) =~= seq![x] + s);
    } else {
        let t = s.subrange(1, s.len() as int);
        assert forall|k: int| 0 <= k < j - 1 implies !earlier(#[trigger] t[k].updated, x.updated) by {
            assert(t[k] == s[k + 1]);
        }
        lemma_insert_position(t, x, j - 1);
        assert(s.insert(j, x) =~= seq![s[0]] + t.insert(j - 1, x));
    }
}

impl VPWWEntry {
    /// A copy of the pointer.
    pub fn duplicate(&self) -> (r: VPWWEntry)
        ensures
            r@ == self@,
    {
        VPWWEntry {
            lmo: self.lmo.clone(),
            url: self.url.clone(),
            filename: self.filename.clone(),
            updated: self.updated,
        }
    }
}

/// The pointers ordered newest first; pointers published at the same instant
/// keep their order.
pub fn sort_newest_first(v: &Vec<VPWWEntry>) -> (r: Vec<VPWWEntry>)
    ensures
        entry_views(r@) == newest_first(entry_views(v@)),
{
    let mut out: Vec<VPWWEntry> = Vec::new();
    let mut i: usize = 0;
    while i < v.len()
        invariant
            i <= v.len(),
            entry_views(out@) == newest_first(entry_views(v@).take(i as int)),
        decreases v.len() - i,
    {
        let x = v[i].duplicate();
        let mut j: usize = 0;
        while j < out.len() && !out[j].updated.is_before(&x.updated)
            invariant
                j <= out.len(),
                forall|k: int| 0 <= k < j ==> !earlier(#[trigger] out@[k].updated, x.updated),
            decreases out.len() - j,
        {
            j = j + 1;
        }
        proof {
            let views = entry_views(out@);
            assert forall|k: int| 0 <= k < j implies !earlier(#[trigger] views[k].updated, x@.updated) by {
                assert(views[k] == out@[k]@);
            }
            lemma_insert_position(views, x@, j as int);
        }
        let ghost before = out@;
        out.insert(j, x);
        proof {
            assert(entry_views(out@) =~= entry_views(before).insert(j as int, x@));
            let prefix = entry_views(v@).take(i + 1);
            assert(prefix.drop_last() =~= entry_views(v@).take(i as int));
            assert(prefix.last() == x@);
        }
        i = i + 1;
    }
    assert(entry_views(v@).take(v.len() as int) =~= entry_views(v@));
    out
}

/// The newest pointer of the publisher `lmo`, in a list ordered newest first.
pub fn latest_for_publisher(entries: &Vec<VPWWEntry>, lmo: &str) -> (r: Option<VPWWEntry>)
    ensures
        match r {
            Some(e) => first_of_publisher(entry_views(entries@), lmo@) == Some(e@),
            None => first_of_publisher(entry_views(entries@), lmo@) is None,
        },
{
    let ghost views = entry_views(entries@);
    let mut i: usize = 0;
    assert(views.subrange(0, views.len() as int) =~= views);
    while i < entries.len()
        invariant
            i <= entries.len() == views.len(),
            views == entry_views(entries@),
            first_of_publisher(views, lmo@) == first_of_publisher(
                views.subrange(i as int, views.len() as int),
                lmo@,
            ),
        decreases entries.len() - i,
    {
        let ghost rest = views.subrange(i as int, views.len() as int);
        assert(rest[0] == entries@[i as int]@);
        if str_eq(entries[i].lmo.as_str(), lmo) {
            return Some(entries[i].duplicate());
        }
        assert(rest.subrange(1, rest.len() as int) =~= views.subrange(i + 1, views.len() as int));
        i = i + 1;
    }
    None
}

pub open spec fn opt_chars(o: Option<String>) -> Option<Seq<char>> {
    match o {
        Some(s) => Some(s@),
        None => None,
    }
}

/// The value of the last readable attribute named `key`.
pub fn attribute_value(attrs: &Vec<Option<XmlAttribute>>, key: &str) -> (r: Option<String>)
    ensures
        opt_chars(r) == attribute_of(attrs@, key@),
{
    let mut found: Option<String> = None;
    let mut i: usize = 0;
    while i < attrs.len()
        invariant
            i <= attrs.len(),
            opt_chars(found) == attribute_of(attrs@.take(i as int), key@),
        decreases attrs.len() - i,
    {
        assert(attrs@.take(i + 1).drop_last() =~= attrs@.take(i as int));
        match &attrs[i] {
            Some(a) => {
                if str_eq(a.key.as_str(), key) {
                    found = Some(a.value.clone());
                }
            },
            None => {},
        }
        i = i + 1;
    }
    assert(attrs@.take(attrs.len() as int) =~= attrs@);
    found
}

/// A streaming reader of the feed document: it takes the document's events
/// one at a time and keeps only the entry being read and the pointers found.
pub struct FeedEntryParser {
    entry: Option<FeedEntry>,
    current_tag: String,
    in_author: bool,
    entries: Vec<VPWWEntry>,
    started_at: Timestamp,
}

impl View for FeedEntryParser {
    type V = FeedScan;

    closed spec fn view(&self) -> FeedScan {
        FeedScan {
            entry: match self.entry {
                Some(e) => Some(e@),
                None => None,
            },
            current_tag: self.current_tag@,
            in_author: self.in_author,
            entries: entry_views(self.entries@),
            started_at: self.started_at,
        }
    }
}

impl FeedEntryParser {
    /// A parser that has read nothing; an entry whose date cannot be read is
    /// dated `started_at`.
    pub fn new(started_at: Timestamp) -> (r: FeedEntryParser)
        ensures
            r@ == feed_start(started_at),
    {
        let r = FeedEntryParser {
            entry: None,
            current_tag: String::new(),
            in_author: false,
            entries: Vec::new(),
            started_at,
        };
        assert(entry_views(r.entries@) =~= Seq::empty());
        r
    }

    /// Takes the text `text` read in the current element; `instant` is what
    /// the text reads as a date.
    pub fn record_text(&mut self, text: &String, instant: Option<Timestamp>)
        ensures
            final(self)@ == feed_text(old(self)@, text@, instant),
    {
        match self.entry.take() {
            Some(mut e) => {
                let tag = self.current_tag.as_str();
                if str_eq(tag, "title") {
                    e.title = text.clone();
                } else if str_eq(tag, "id") {
                    e.id = text.clone();
                } else if str_eq(tag, "updated") {
                    match instant {
                        Some(d) => {
                            e.updated = d;
                        },
                        None => {},
                    }
                } else if str_eq(tag, "name") && self.in_author {
                    e.author_name = text.clone();
                }
                self.entry = Some(e);
            },
            None => {},
        }
    }

    /// Takes one more event of the document.
    pub fn handle(&mut self, ev: &XmlEvent)
        ensures
            final(self)@ == feed_step(old(self)@, *ev),
    {
        match ev {
            XmlEvent::Start { name, attributes, self_closing: _ } => {
                self.current_tag = name.clone();
                if str_eq(name.as_str(), "entry") {
                    self.entry = Some(
                        FeedEntry {
                            title: String::new(),
                            id: String::new(),
                            updated: self.started_at,
                            author_name: String::new(),
                            link: String::new(),
                            content: String::new(),
                        },
                    );
                } else if str_eq(name.as_str(), "author") {
                    self.in_author = true;
                } else if str_eq(name.as_str(), "link") && self.entry.is_some() {
                    match attribute_value(attributes, "href") {
                        Some(v) => {
                            let mut e = self.entry.take().unwrap();
                            e.link = v;
                            self.entry = Some(e);
                        },
                        None => {},
                    }
                }
            },
            XmlEvent::End { name } => {
                if str_eq(name.as_str(), "entry") {
                    match self.entry.take() {
                        Some(e) => {
                            if str_contains(e.title.as_str(), BULLETIN_TITLE_MARKER) {
                                let filename = document_name(e.link.as_str());
                                let p = VPWWEntry {
                                    lmo: e.author_name,
                                    url: e.link,
                                    filename,
                                    updated: e.updated,
                                };
                                let ghost before = self.entries@;
                                self.entries.push(p);
                                assert(entry_views(self.entries@) =~= entry_views(before).push(p@));
                            }
                        },
                        None => {},
                    }
                } else if str_eq(name.as_str(), "author") {
                    self.in_author = false;
                }
                self.current_tag = String::new();
            },
            XmlEvent::Text { text } => {
                let instant = if self.entry.is_some() && str_eq(self.current_tag.as_str(), "updated") {
                    parse_rfc3339(text.as_str())
                } else {
                    None
                };
                self.record_text(text, instant);
            },
            _ => {},
        }
    }

    /// The pointers found, newest first.
    pub fn finish(&self) -> (r: Vec<VPWWEntry>)
        ensures
            entry_views(r@) == newest_first(self@.entries),
    {
        sort_newest_first(&self.entries)
    }
}

/// The pointers that a feed document, given as its events, yields.
pub fn pointers_from_events(events: &Vec<XmlEvent>, started_at: Timestamp) -> (r: Vec<VPWWEntry>)
    ensures
        entry_views(r@) == feed_pointers(events@, started_at),
{
    let mut parser = FeedEntryParser::new(started_at);
    let mut i: usize = 0;
    while i < events.len()
        invariant
            i <= events.len(),
            parser@ == feed_run(feed_start(started_at), events@.take(i as int)),
        decreases events.len() - i,
    {
        assert(events@.take(i + 1).drop_last() =~= events@.take(i as int));
        parser.handle(&events[i]);
        i = i + 1;
    }
    assert(events@.take(events.len() as int) =~= events@);
    parser.finish()
}

/// Whether the error reports a document that is not well-formed XML.
pub open spec fn is_xml_error(e: WeatherCheckerError) -> bool {
    e is XmlParse
}

/// Reads a feed document and returns its bulletin pointers, newest first. An
/// entry whose date cannot be read is dated `started_at`. A document that is
/// not well-formed XML is an error.
pub fn parse_extra_xml(xml_content: &[u8], started_at: Timestamp) -> (r: Result<
    Vec<VPWWEntry>,
    WeatherCheckerError,
>)
    ensures
        r is Ok <==> xml_events(xml_content@) is Some,
        r is Ok ==> entry_views(r->Ok_0@) == feed_pointers(xml_events(xml_content@)->Some_0, started_at),
        r is Err ==> is_xml_error(r->Err_0),
{
    match read_events(xml_content) {
        Ok(events) => Ok(pointers_from_events(&events, started_at)),
        Err(msg) => {
            let mut m = String::from_str("XML parse error: ");
            m.append(msg.as_str());
            Err(WeatherCheckerError::XmlParse(m))
        },
    }
}

/// The newest bulletin pointer of the publisher `lmo` in a feed document:
/// none when the feed holds no bulletin of it. A document that is not
/// well-formed XML is an error.
pub fn latest_pointer_for_lmo(feed: &[u8], lmo: &str, started_at: Timestamp) -> (r: Result<
    Option<VPWWEntry>,
    WeatherCheckerError,
>)
    ensures
        r is Ok <==> xml_events(feed@) is Some,
        r is Err ==> is_xml_error(r->Err_0),
        r is Ok ==> match r->Ok_0 {
            Some(e) => first_of_publisher(feed_pointers(xml_events(feed@)->Some_0, started_at), lmo@)
                == Some(e@),
            None => first_of_publisher(feed_pointers(xml_events(feed@)->Some_0, started_at), lmo@) is None,
        },
{
    match parse_extra_xml(feed, started_at) {
        Ok(entries) => Ok(latest_for_publisher(&entries, lmo)),
        Err(e) => Err(e),
    }
}

} // verus!
