//! The bulletin document: control and head metadata and, in its municipal
//! section, one item per area with the warning kinds announced for it.
use crate::error::WeatherCheckerError;
use crate::text::{contains_string, replaced, str_eq, str_replace};
use crate::timestamp::{parse_rfc3339, rfc3339_instant, Timestamp};
use crate::feed::is_xml_error;
use crate::xml::{read_events, xml_events, XmlAttribute, XmlEvent};
use vstd::prelude::*;
use vstd::utf8::encode_utf8;

verus! {

/// The `type` of the warning section that covers municipalities.
pub const CITY_SECTION_TYPE: &'static str = "気象警報・注意報（市町村等）";

/// The status meaning that no warning is announced for an area.
pub const NO_WARNINGS_STATUS: &'static str = "発表警報・注意報はなし";

/// The control block of a bulletin.
#[derive(Clone, Debug)]
pub struct VPWW54Control {
    pub title: String,
    pub datetime: Timestamp,
    pub status: String,
    pub publishing_office: String,
}

pub struct ControlView {
    pub title: Seq<char>,
    pub datetime: Timestamp,
    pub status: Seq<char>,
    pub publishing_office: Seq<char>,
}

impl View for VPWW54Control {
    type V = ControlView;

    open spec fn view(&self) -> ControlView {
        ControlView {
            title: self.title@,
            datetime: self.datetime,
            status: self.status@,
            publishing_office: self.publishing_office@,
        }
    }
}

/// The head block of a bulletin.
#[derive(Clone, Debug)]
pub struct VPWW54Head {
    pub title: String,
    pub report_datetime: Timestamp,
    pub info_type: String,
    pub info_kind: String,
}

pub struct HeadView {
    pub title: Seq<char>,
    pub report_datetime: Timestamp,
    pub info_type: Seq<char>,
    pub info_kind: Seq<char>,
}

impl View for VPWW54Head {
    type V = HeadView;

    open spec fn view(&self) -> HeadView {
        HeadView {
            title: self.title@,
            report_datetime: self.report_datetime,
            info_type: self.info_type@,
            info_kind: self.info_kind@,
        }
    }
}

/// One warning kind announced for an area, with its status. A kind without a
/// name carries a status that applies to the area as a whole.
#[derive(Clone, Debug)]
pub struct WarningKind {
    pub kind_name: Option<String>,
    pub status: String,
}

pub struct WarningKindView {
    pub kind_name: Option<Seq<char>>,
    pub status: Seq<char>,
}

impl View for WarningKind {
    type V = WarningKindView;

    open spec fn view(&self) -> WarningKindView {
        WarningKindView {
            kind_name: match self.kind_name {
                Some(n) => Some(n@),
                None => None,
            },
            status: self.status@,
        }
    }
}

pub open spec fn kind_views(s: Seq<WarningKind>) -> Seq<WarningKindView> {
    s.map_values(|k: WarningKind| k@)
}

/// What a bulletin says of one area.
#[derive(Clone, Debug)]
pub struct CityWarning {
    pub area_name: String,
    pub change_status: Option<String>,
    pub kinds: Vec<WarningKind>,
}

pub struct CityWarningView {
    pub area_name: Seq<char>,
    pub change_status: Option<Seq<char>>,
    pub kinds: Seq<WarningKindView>,
}

impl View for CityWarning {
    type V = CityWarningView;

    open spec fn view(&self) -> CityWarningView {
        CityWarningView {
            area_name: self.area_name@,
            change_status: match self.change_status {
                Some(c) => Some(c@),
                None => None,
            },
            kinds: kind_views(self.kinds@),
        }
    }
}

pub open spec fn area_views(s: Seq<CityWarning>) -> Seq<CityWarningView> {
    s.map_values(|w: CityWarning| w@)
}

/// A whole bulletin.
#[derive(Clone, Debug)]
pub struct VPWW54Data {
    pub control: VPWW54Control,
    pub head: VPWW54Head,
    pub warnings: Vec<CityWarning>,
}

pub struct BulletinView {
    pub control: ControlView,
    pub head: HeadView,
    pub warnings: Seq<CityWarningView>,
}

impl View for VPWW54Data {
    type V = BulletinView;

    open spec fn view(&self) -> BulletinView {
        BulletinView { control: self.control@, head: self.head@, warnings: area_views(self.warnings@) }
    }
}

/// One observation: a warning kind and its status for a city. An empty kind
/// with the no-warnings status is an all-clear for the city.
#[derive(Clone, Debug)]
pub struct WarningData {
    pub city: String,
    pub warning_kind: String,
    pub status: String,
}

pub struct WarningDataView {
    pub city: Seq<char>,
    pub warning_kind: Seq<char>,
    pub status: Seq<char>,
}

impl View for WarningData {
    type V = WarningDataView;

    open spec fn view(&self) -> WarningDataView {
        WarningDataView { city: self.city@, warning_kind: self.warning_kind@, status: self.status@ }
    }
}

pub open spec fn data_views(s: Seq<WarningData>) -> Seq<WarningDataView> {
    s.map_values(|d: WarningData| d@)
}

/// What a scan of a bulletin has gathered so far.
pub struct BulletinScan {
    pub path: Seq<Seq<char>>,
    pub in_control: bool,
    pub in_head: bool,
    pub in_city_section: bool,
    pub in_item: bool,
    pub in_kind: bool,
    pub control: Option<ControlView>,
    pub head: Option<HeadView>,
    pub warnings: Seq<CityWarningView>,
    pub current: Option<CityWarningView>,
    pub started_at: Timestamp,
}

pub open spec fn bulletin_start(started_at: Timestamp) -> BulletinScan {
    BulletinScan {
        path: Seq::empty(),
        in_control: false,
        in_head: false,
        in_city_section: false,
        in_item: false,
        in_kind: false,
        control: None,
        head: None,
        warnings: Seq::empty(),
        current: None,
        started_at,
    }
}

pub open spec fn blank_control(t: Timestamp) -> ControlView {
    ControlView { title: Seq::empty(), datetime: t, status: Seq::empty(), publishing_office: Seq::empty() }
}

pub open spec fn blank_head(t: Timestamp) -> HeadView {
    HeadView { title: Seq::empty(), report_datetime: t, info_type: Seq::empty(), info_kind: Seq::empty() }
}

pub open spec fn blank_area() -> CityWarningView {
    CityWarningView { area_name: Seq::empty(), change_status: None, kinds: Seq::empty() }
}

/// Some readable attribute is named `key` and has the value `value`.
pub open spec fn has_attribute(attrs: Seq<Option<XmlAttribute>>, key: Seq<char>, value: Seq<char>) -> bool {
    exists|i: int|
        0 <= i < attrs.len() && #[trigger] attrs[i] is Some && attrs[i]->Some_0.key@ == key
            && attrs[i]->Some_0.value@ == value
}

/// The innermost open element, or nothing when none is open.
pub open spec fn parent_of(path: Seq<Seq<char>>) -> Seq<char> {
    if path.len() > 0 {
        path.last()
    } else {
        Seq::empty()
    }
}

/// The instant that a report time reads as: the text with a `+09:00` offset
/// written `+0900` first, the text as it stands next.
pub open spec fn report_time_of(t: Seq<char>) -> Option<Timestamp> {
    match rfc3339_instant(replaced(t, "+09:00"@, "+0900"@)) {
        Some(d) => Some(d),
        None => rfc3339_instant(t),
    }
}

/// What a text reads as a date where the scan stands.
pub open spec fn text_instant(s: BulletinScan, t: Seq<char>) -> Option<Timestamp> {
    if parent_of(s.path) == "ReportDateTime"@ {
        report_time_of(t)
    } else {
        rfc3339_instant(t)
    }
}

pub open spec fn control_with_text(
    c: ControlView,
    parent: Seq<char>,
    t: Seq<char>,
    instant: Option<Timestamp>,
) -> ControlView {
    if parent == "Title"@ {
        ControlView { title: t, ..c }
    } else if parent == "DateTime"@ {
        match instant {
            Some(d) => ControlView { datetime: d, ..c },
            None => c,
        }
    } else if parent == "Status"@ {
        ControlView { status: t, ..c }
    } else if parent == "PublishingOffice"@ {
        ControlView { publishing_office: t, ..c }
    } else {
        c
    }
}

pub open spec fn head_with_text(h: HeadView, parent: Seq<char>, t: Seq<char>, instant: Option<Timestamp>) -> HeadView {
    if parent == "Title"@ {
        HeadView { title: t, ..h }
    } else if parent == "ReportDateTime"@ {
        match instant {
            Some(d) => HeadView { report_datetime: d, ..h },
            None => h,
        }
    } else if parent == "InfoType"@ {
        HeadView { info_type: t, ..h }
    } else if parent == "InfoKind"@ {
        HeadView { info_kind: t, ..h }
    } else {
        h
    }
}

/// The kinds after a status was read: it completes the last kind if there is
/// one, and stands as a kind without a name otherwise.
pub open spec fn kinds_with_status(kinds: Seq<WarningKindView>, t: Seq<char>) -> Seq<WarningKindView> {
    if kinds.len() > 0 {
        kinds.update(kinds.len() - 1, WarningKindView { status: t, ..kinds.last() })
    } else {
        kinds.push(WarningKindView { kind_name: None, status: t })
    }
}

pub open spec fn area_with_text(
    w: CityWarningView,
    path: Seq<Seq<char>>,
    in_kind: bool,
    t: Seq<char>,
) -> CityWarningView {
    let parent = parent_of(path);
    if parent == "Name"@ && path.contains("Area"@) {
        CityWarningView { area_name: t, ..w }
    } else if parent == "ChangeStatus"@ {
        CityWarningView { change_status: Some(t), ..w }
    } else if parent == "Name"@ && in_kind {
        CityWarningView { kinds: w.kinds.push(WarningKindView { kind_name: Some(t), status: Seq::empty() }), ..w }
    } else if parent == "Status"@ && in_kind {
        CityWarningView { kinds: kinds_with_status(w.kinds, t), ..w }
    } else {
        w
    }
}

/// The scan after the text `t`; `instant` is what `t` reads as a date.
pub open spec fn bulletin_text(s: BulletinScan, t: Seq<char>, instant: Option<Timestamp>) -> BulletinScan {
    let parent = parent_of(s.path);
    if s.in_control {
        match s.control {
            Some(c) => BulletinScan { control: Some(control_with_text(c, parent, t, instant)), ..s },
            None => s,
        }
    } else if s.in_head {
        let h = match s.head {
            Some(h) => h,
            None => blank_head(s.started_at),
        };
        BulletinScan { head: Some(head_with_text(h, parent, t, instant)), ..s }
    } else if s.in_item {
        match s.current {
            Some(w) => BulletinScan { current: Some(area_with_text(w, s.path, s.in_kind, t)), ..s },
            None => s,
        }
    } else {
        s
    }
}

pub open spec fn bulletin_open(s: BulletinScan, name: Seq<char>, attrs: Seq<Option<XmlAttribute>>) -> BulletinScan {
    let s1 = BulletinScan { path: s.path.push(name), ..s };
    if name == "Control"@ {
        BulletinScan { in_control: true, control: Some(blank_control(s.started_at)), ..s1 }
    } else if name == "Head"@ {
        BulletinScan { in_head: true, ..s1 }
    } else if name == "Warning"@ || name == "Information"@ {
        if has_attribute(attrs, "type"@, CITY_SECTION_TYPE@) {
            BulletinScan { in_city_section: true, ..s1 }
        } else {
            s1
        }
    } else if name == "Item"@ && s.in_city_section {
        BulletinScan { in_item: true, current: Some(blank_area()), ..s1 }
    } else if name == "Kind"@ && s.in_item {
        BulletinScan { in_kind: true, ..s1 }
    } else {
        s1
    }
}

pub open spec fn bulletin_close(s: BulletinScan, name: Seq<char>) -> BulletinScan {
    let s1 = if name == "Control"@ {
        BulletinScan { in_control: false, ..s }
    } else if name == "Head"@ {
        BulletinScan { in_head: false, ..s }
    } else if name == "Warning"@ || name == "Information"@ {
        BulletinScan { in_city_section: false, ..s }
    } else if name == "Item"@ && s.in_item {
        BulletinScan {
            in_item: false,
            warnings: match s.current {
                Some(w) => s.warnings.push(w),
                None => s.warnings,
            },
            current: None,
            ..s
        }
    } else if name == "Kind"@ {
        BulletinScan { in_kind: false, ..s }
    } else {
        s
    };
    BulletinScan { path: if s.path.len() > 0 { s.path.drop_last() } else { s.path }, ..s1 }
}

/// The scan after one more event. Empty-element tags carry nothing here.
pub open spec fn bulletin_step(s: BulletinScan, ev: XmlEvent) -> BulletinScan {
    match ev {
        XmlEvent::Start { name, attributes, self_closing } => if self_closing {
            s
        } else {
            bulletin_open(s, name@, attributes@)
        },
        XmlEvent::End { name } => bulletin_close(s, name@),
        XmlEvent::Text { text } => bulletin_text(s, text@, text_instant(s, text@)),
        _ => s,
    }
}

pub open spec fn bulletin_run(s: BulletinScan, evs: Seq<XmlEvent>) -> BulletinScan
    decreases evs.len(),
{
    if evs.len() == 0 {
        s
    } else {
        bulletin_step(bulletin_run(s, evs.drop_last()), evs.last())
    }
}

/// The bulletin a finished scan yields: none unless both its control and its
/// head were read.
pub open spec fn bulletin_of(s: BulletinScan) -> Option<BulletinView> {
    if s.control is Some && s.head is Some {
        Some(BulletinView { control: s.control->Some_0, head: s.head->Some_0, warnings: s.warnings })
    } else {
        None
    }
}

/// The bulletin that a document, read as the events `evs`, yields.
pub open spec fn bulletin_from(evs: Seq<XmlEvent>, started_at: Timestamp) -> Option<BulletinView> {
    bulletin_of(bulletin_run(bulletin_start(started_at), evs))
}

pub open spec fn observation(city: Seq<char>, kind: Seq<char>, status: Seq<char>) -> WarningDataView {
    WarningDataView { city, warning_kind: kind, status }
}

/// The observations that an area's kinds yield: one per named kind, one
/// all-clear per unnamed kind with the no-warnings status, none for another
/// unnamed kind.
pub open spec fn kind_observations(area: Seq<char>, kinds: Seq<WarningKindView>) -> Seq<WarningDataView>
    decreases kinds.len(),
{
    if kinds.len() == 0 {
        Seq::empty()
    } else {
        let k = kinds.last();
        kind_observations(area, kinds.drop_last()) + match k.kind_name {
            Some(n) => seq![observation(area, n, k.status)],
            None => if k.status == NO_WARNINGS_STATUS@ {
                seq![observation(area, Seq::empty(), k.status)]
            } else {
                Seq::empty()
            },
        }
    }
}

/// The observations that an area yields; an area without kinds is all clear.
pub open spec fn area_observations(w: CityWarningView) -> Seq<WarningDataView> {
    if w.kinds.len() == 0 {
        seq![observation(w.area_name, Seq::empty(), NO_WARNINGS_STATUS@)]
    } else {
        kind_observations(w.area_name, w.kinds)
    }
}

/// The observations of all areas, in document order.
pub open spec fn flattened(ws: Seq<CityWarningView>) -> Seq<WarningDataView>
    decreases ws.len(),
{
    if ws.len() == 0 {
        Seq::empty()
    } else {
        flattened(ws.drop_last()) + area_observations(ws.last())
    }
}

/// The observations that a document, read as the events `evs`, yields: none
/// when it holds no usable bulletin.
pub open spec fn observations_from(evs: Seq<XmlEvent>, started_at: Timestamp) -> Seq<WarningDataView> {
    match bulletin_from(evs, started_at) {
        Some(b) => flattened(b.warnings),
        None => Seq::empty(),
    }
}

/// A report time with a `+09:00` offset written `+0900`.
pub fn normalized_report_time(text: &str) -> (r: String)
    ensures
        r@ == replaced(text@, "+09:00"@, "+0900"@),
{
    proof {
        reveal_strlit("+09:00");
    }
    str_replace(text, "+09:00", "+0900")
}

/// Reads a report time: with a `+09:00` offset written `+0900` first, as it
/// stands next.
pub fn parse_report_time(text: &str) -> (r: Option<Timestamp>)
    ensures
        r == report_time_of(text@),
{
    let normalized = normalized_report_time(text);
    match parse_rfc3339(normalized.as_str()) {
        Some(d) => Some(d),
        None => parse_rfc3339(text),
    }
}

/// Whether some readable attribute is named `key` and has the value `value`.
pub fn attribute_is(attrs: &Vec<Option<XmlAttribute>>, key: &str, value: &str) -> (r: bool)
    ensures
        r == has_attribute(attrs@, key@, value@),
{
    let mut i: usize = 0;
    while i < attrs.len()
        invariant
            i <= attrs.len(),
            forall|j: int|
                0 <= j < i ==> !(#[trigger] attrs@[j] is Some && attrs@[j]->Some_0.key@ == key@
                    && attrs@[j]->Some_0.value@ == value@),
        decreases attrs.len() - i,
    {
        match &attrs[i] {
            Some(a) => {
                if str_eq(a.key.as_str(), key) && str_eq(a.value.as_str(), value) {
                    return true;
                }
            },
            None => {},
        }
        i = i + 1;
    }
    false
}

/// A streaming reader of a bulletin: it takes the document's events one at a
/// time, with the path of open elements and the context they set.
pub struct BulletinParser {
    path: Vec<String>,
    in_control: bool,
    in_head: bool,
    in_city_section: bool,
    in_item: bool,
    in_kind: bool,
    control: Option<VPWW54Control>,
    head: Option<VPWW54Head>,
    warnings: Vec<CityWarning>,
    current: Option<CityWarning>,
    started_at: Timestamp,
}

impl View for BulletinParser {
    type V = BulletinScan;

    closed spec fn view(&self) -> BulletinScan {
        BulletinScan {
            path: self.path@.map_values(|p: String| p@),
            in_control: self.in_control,
            in_head: self.in_head,
            in_city_section: self.in_city_section,
            in_item: self.in_item,
            in_kind: self.in_kind,
            control: match self.control {
                Some(c) => Some(c@),
                None => None,
            },
            head: match self.head {
                Some(h) => Some(h@),
                None => None,
            },
            warnings: area_views(self.warnings@),
            current: match self.current {
                Some(w) => Some(w@),
                None => None,
            },
            started_at: self.started_at,
        }
    }
}

impl BulletinParser {
    /// A parser that has read nothing; a date that cannot be read is taken as
    /// `started_at`.
    pub fn new(started_at: Timestamp) -> (r: BulletinParser)
        ensures
            r@ == bulletin_start(started_at),
    {
        let r = BulletinParser {
            path: Vec::new(),
            in_control: false,
            in_head: false,
            in_city_section: false,
            in_item: false,
            in_kind: false,
            control: None,
            head: None,
            warnings: Vec::new(),
            current: None,
            started_at,
        };
        assert(r@.path =~= Seq::empty());
        assert(r@.warnings =~= Seq::empty());
        r
    }

    /// The name of the innermost open element, empty when none is open.
    fn parent(&self) -> (r: String)
        ensures
            r@ == parent_of(self@.path),
    {
        let n = self.path.len();
        if n > 0 {
            self.path[n - 1].clone()
        } else {
            String::new()
        }
    }

    /// Takes the text `text` read in the current element; `instant` is what
    /// the text reads as a date.
    pub fn record_text(&mut self, text: &String, instant: Option<Timestamp>)
        ensures
            final(self)@ == bulletin_text(old(self)@, text@, instant),
    {
        let parent = self.parent();
        let p = parent.as_str();
        if self.in_control {
            match self.control.take() {
                Some(mut c) => {
                    if str_eq(p, "Title") {
                        c.title = text.clone();
                    } else if str_eq(p, "DateTime") {
                        match instant {
                            Some(d) => {
                                c.datetime = d;
                            },
                            None => {},
                        }
                    } else if str_eq(p, "Status") {
                        c.status = text.clone();
                    } else if str_eq(p, "PublishingOffice") {
                        c.publishing_office = text.clone();
                    }
                    self.control = Some(c);
                },
                None => {},
            }
        } else if self.in_head {
            let mut h = match self.head.take() {
                Some(h) => h,
                None => VPWW54Head {
                    title: String::new(),
                    report_datetime: self.started_at,
                    info_type: String::new(),
                    info_kind: String::new(),
                },
            };
            if str_eq(p, "Title") {
                h.title = text.clone();
            } else if str_eq(p, "ReportDateTime") {
                match instant {
                    Some(d) => {
                        h.report_datetime = d;
                    },
                    None => {},
                }
            } else if str_eq(p, "InfoType") {
                h.info_type = text.clone();
            } else if str_eq(p, "InfoKind") {
                h.info_kind = text.clone();
            }
            self.head = Some(h);
        } else if self.in_item {
            let in_area = contains_string(&self.path, "Area");
            match self.current.take() {
                Some(mut w) => {
                    let ghost before = w.kinds@;
                    if str_eq(p, "Name") && in_area {
                        w.area_name = text.clone();
                    } else if str_eq(p, "ChangeStatus") {
                        w.change_status = Some(text.clone());
                    } else if str_eq(p, "Name") && self.in_kind {
                        let k = WarningKind { kind_name: Some(text.clone()), status: String::new() };
                        w.kinds.push(k);
                        assert(kind_views(w.kinds@) =~= kind_views(before).push(k@));
                    } else if str_eq(p, "Status") && self.in_kind {
                        match w.kinds.pop() {
                            Some(mut last) => {
                                last.status = text.clone();
                                w.kinds.push(last);
                                assert(kind_views(w.kinds@) =~= kinds_with_status(kind_views(before), text@));
                            },
                            None => {
                                let k = WarningKind { kind_name: None, status: text.clone() };
                                w.kinds.push(k);
                                assert(kind_views(w.kinds@) =~= kinds_with_status(kind_views(before), text@));
                            },
                        }
                    }
                    self.current = Some(w);
                },
                None => {},
            }
        }
    }

    fn open_element(&mut self, name: &String, attributes: &Vec<Option<XmlAttribute>>)
        ensures
            final(self)@ == bulletin_open(old(self)@, name@, attributes@),
    {
        let ghost before = self@;
        self.path.push(name.clone());
        assert(self@.path =~= before.path.push(name@));
        let n = name.as_str();
        if str_eq(n, "Control") {
            self.in_control = true;
            self.control = Some(
                VPWW54Control {
                    title: String::new(),
                    datetime: self.started_at,
                    status: String::new(),
                    publishing_office: String::new(),
                },
            );
        } else if str_eq(n, "Head") {
            self.in_head = true;
        } else if str_eq(n, "Warning") || str_eq(n, "Information") {
            if attribute_is(attributes, "type", CITY_SECTION_TYPE) {
                self.in_city_section = true;
            }
        } else if str_eq(n, "Item") && self.in_city_section {
            self.in_item = true;
            let w = CityWarning { area_name: String::new(), change_status: None, kinds: Vec::new() };
            assert(w@ == blank_area()) by {
                assert(kind_views(w.kinds@) =~= Seq::empty());
            }
            self.current = Some(w);
        } else if str_eq(n, "Kind") && self.in_item {
            self.in_kind = true;
        }
    }

    fn close_element(&mut self, name: &String)
        ensures
            final(self)@ == bulletin_close(old(self)@, name@),
    {
        let ghost before = self@;
        let n = name.as_str();
        if str_eq(n, "Control") {
            self.in_control = false;
        } else if str_eq(n, "Head") {
            self.in_head = false;
        } else if str_eq(n, "Warning") || str_eq(n, "Information") {
            self.in_city_section = false;
        } else if str_eq(n, "Item") && self.in_item {
            self.in_item = false;
            match self.current.take() {
                Some(w) => {
                    let ghost ws = self.warnings@;
                    self.warnings.push(w);
                    assert(area_views(self.warnings@) =~= area_views(ws).push(w@));
                },
                None => {},
            }
        } else if str_eq(n, "Kind") {
            self.in_kind = false;
        }
        self.path.pop();
        assert(self@.path =~= if before.path.len() > 0 {
            before.path.drop_last()
        } else {
            before.path
        });
    }

    /// Takes one more event of the document.
    pub fn handle(&mut self, ev: &XmlEvent)
        ensures
            final(self)@ == bulletin_step(old(self)@, *ev),
    {
        match ev {
            XmlEvent::Start { name, attributes, self_closing } => {
                if !*self_closing {
                    self.open_element(name, attributes);
                }
            },
            XmlEvent::End { name } => {
                self.close_element(name);
            },
            XmlEvent::Text { text } => {
                proof {
                    reveal_strlit("DateTime");
                    reveal_strlit("ReportDateTime");
                }
                let parent = self.parent();
                let instant = if self.in_control && str_eq(parent.as_str(), "DateTime") {
                    parse_rfc3339(text.as_str())
                } else if !self.in_control && self.in_head && str_eq(parent.as_str(), "ReportDateTime") {
                    parse_report_time(text.as_str())
                } else {
                    None
                };
                proof {
                    let s0 = old(self)@;
                    assert(parent@ == parent_of(s0.path));
                    assert("DateTime"@ != "ReportDateTime"@) by {
                        assert("DateTime"@.len() != "ReportDateTime"@.len());
                    }
                    assert(bulletin_text(s0, text@, instant) == bulletin_text(
                        s0,
                        text@,
                        text_instant(s0, text@),
                    ));
                }
                self.record_text(text, instant);
            },
            _ => {},
        }
    }

    /// The bulletin read, if both its control and its head were read.
    pub fn finish(self) -> (r: Option<VPWW54Data>)
        ensures
            match r {
                Some(d) => bulletin_of(self@) == Some(d@),
                None => bulletin_of(self@) is None,
            },
    {
        match (self.control, self.head) {
            (Some(control), Some(head)) => Some(VPWW54Data { control, head, warnings: self.warnings }),
            _ => None,
        }
    }
}

/// The bulletin that a document, given as its events, yields.
pub fn bulletin_from_events(events: &Vec<XmlEvent>, started_at: Timestamp) -> (r: Option<VPWW54Data>)
    ensures
        match r {
            Some(d) => bulletin_from(events@, started_at) == Some(d@),
            None => bulletin_from(events@, started_at) is None,
        },
{
    let mut parser = BulletinParser::new(started_at);
    let mut i: usize = 0;
    while i < events.len()
        invariant
            i <= events.len(),
            parser@ == bulletin_run(bulletin_start(started_at), events@.take(i as int)),
        decreases events.len() - i,
    {
        assert(events@.take(i + 1).drop_last() =~= events@.take(i as int));
        parser.handle(&events[i]);
        i = i + 1;
    }
    assert(events@.take(events.len() as int) =~= events@);
    parser.finish()
}

/// Appends the observations that one area yields.
fn push_area_observations(out: &mut Vec<WarningData>, w: &CityWarning)
    ensures
        data_views(final(out)@) == data_views(old(out)@) + area_observations(w@),
{
    let ghost start = data_views(out@);
    if w.kinds.len() == 0 {
        let d = WarningData {
            city: w.area_name.clone(),
            warning_kind: String::new(),
            status: String::from_str(NO_WARNINGS_STATUS),
        };
        out.push(d);
        assert(data_views(out@) =~= start + area_observations(w@));
        return ;
    }
    let ghost kinds = kind_views(w.kinds@);
    let mut j: usize = 0;
    assert(kinds.take(0) =~= Seq::empty());
    assert(start + Seq::empty() =~= start);
    while j < w.kinds.len()
        invariant
            j <= w.kinds.len() == kinds.len(),
            kinds == kind_views(w.kinds@),
            data_views(out@) == start + kind_observations(w.area_name@, kinds.take(j as int)),
        decreases w.kinds.len() - j,
    {
        let ghost before = data_views(out@);
        let k = &w.kinds[j];
        assert(kinds.take(j + 1).drop_last() =~= kinds.take(j as int));
        assert(kinds.take(j + 1).last() == k@);
        match &k.kind_name {
            Some(n) => {
                let d = WarningData { city: w.area_name.clone(), warning_kind: n.clone(), status: k.status.clone() };
                out.push(d);
                assert(data_views(out@) =~= before.push(d@));
            },
            None => {
                if str_eq(k.status.as_str(), NO_WARNINGS_STATUS) {
                    let d = WarningData {
                        city: w.area_name.clone(),
                        warning_kind: String::new(),
                        status: k.status.clone(),
                    };
                    out.push(d);
                    assert(data_views(out@) =~= before.push(d@));
                }
            },
        }
        j = j + 1;
    }
    assert(kinds.take(kinds.len() as int) =~= kinds);
}

impl VPWW54Data {
    /// The observations of all areas, in document order: for each area one
    /// per named kind and one all-clear for an unnamed kind with the
    /// no-warnings status; an area without kinds yields one all-clear.
    pub fn observations(&self) -> (r: Vec<WarningData>)
        ensures
            data_views(r@) == flattened(self@.warnings),
    {
        let ghost areas = area_views(self.warnings@);
        let mut out: Vec<WarningData> = Vec::new();
        let mut i: usize = 0;
        assert(data_views(out@) =~= flattened(areas.take(0)));
        while i < self.warnings.len()
            invariant
                i <= self.warnings.len() == areas.len(),
                areas == area_views(self.warnings@),
                data_views(out@) == flattened(areas.take(i as int)),
            decreases self.warnings.len() - i,
        {
            assert(areas.take(i + 1).drop_last() =~= areas.take(i as int));
            assert(areas.take(i + 1).last() == self.warnings@[i as int]@);
            push_area_observations(&mut out, &self.warnings[i]);
            i = i + 1;
        }
        assert(areas.take(areas.len() as int) =~= areas);
        out
    }
}

/// The observations that a document, given as its events, yields: none when
/// it holds no usable bulletin.
pub fn observations_from_events(events: &Vec<XmlEvent>, started_at: Timestamp) -> (r: Vec<WarningData>)
    ensures
        data_views(r@) == observations_from(events@, started_at),
{
    match bulletin_from_events(events, started_at) {
        Some(d) => d.observations(),
        None => {
            let r: Vec<WarningData> = Vec::new();
            assert(data_views(r@) =~= Seq::empty());
            r
        },
    }
}

/// The events of a bulletin given as text: those of its UTF-8 bytes.
pub open spec fn text_events(text: Seq<char>) -> Option<Seq<XmlEvent>> {
    xml_events(encode_utf8(text))
}

/// Reads a bulletin. The result is none when the document has no control or
/// no head block; a date that cannot be read is taken as `started_at`. A
/// document that is not well-formed XML is an error.
pub fn parse_bulletin(xml_content: &str, started_at: Timestamp) -> (r: Result<
    Option<VPWW54Data>,
    WeatherCheckerError,
>)
    ensures
        r is Ok <==> text_events(xml_content@) is Some,
        r is Err ==> is_xml_error(r->Err_0),
        r is Ok ==> match r->Ok_0 {
            Some(d) => bulletin_from(text_events(xml_content@)->Some_0, started_at) == Some(d@),
            None => bulletin_from(text_events(xml_content@)->Some_0, started_at) is None,
        },
{
    match read_events(xml_content.as_bytes()) {
        Ok(events) => Ok(bulletin_from_events(&events, started_at)),
        Err(msg) => {
            let mut m = String::from_str("VPWW54 parse error: ");
            m.append(msg.as_str());
            Err(WeatherCheckerError::XmlParse(m))
        },
    }
}

/// Reads a bulletin and returns its observations in document order: none
/// when the document holds no usable bulletin. A document that is not
/// well-formed XML is an error.
pub fn parse_vpww54(xml_content: &str, started_at: Timestamp) -> (r: Result<
    Vec<WarningData>,
    WeatherCheckerError,
>)
    ensures
        r is Ok <==> text_events(xml_content@) is Some,
        r is Err ==> is_xml_error(r->Err_0),
        r is Ok ==> data_views(r->Ok_0@) == observations_from(text_events(xml_content@)->Some_0, started_at),
{
    match read_events(xml_content.as_bytes()) {
        Ok(events) => Ok(observations_from_events(&events, started_at)),
        Err(msg) => {
            let mut m = String::from_str("VPWW54 parse error: ");
            m.append(msg.as_str());
            Err(WeatherCheckerError::XmlParse(m))
        },
    }
}

} // verus!
