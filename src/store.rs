//! The stored state that reconciliation works on: report rows, one active
//! row at most per publisher, city and warning kind, and references to the
//! bulletin documents that were consumed. Rows are never removed here, only
//! marked deleted.
use crate::text::str_eq;
use crate::timestamp::Timestamp;
use vstd::prelude::*;

verus! {

/// A report row: the last status seen for a warning kind in a city.
#[derive(Clone, Debug)]
pub struct CityReport {
    pub id: Option<i64>,
    pub xml_file: String,
    pub lmo: String,
    pub city: String,
    pub warning_kind: String,
    pub status: String,
    pub created_at: Option<Timestamp>,
    pub is_delete: bool,
}

pub struct ReportView {
    pub id: Option<i64>,
    pub xml_file: Seq<char>,
    pub lmo: Seq<char>,
    pub city: Seq<char>,
    pub warning_kind: Seq<char>,
    pub status: Seq<char>,
    pub created_at: Option<Timestamp>,
    pub is_delete: bool,
}

impl View for CityReport {
    type V = ReportView;

    open spec fn view(&self) -> ReportView {
        ReportView {
            id: self.id,
            xml_file: self.xml_file@,
            lmo: self.lmo@,
            city: self.city@,
            warning_kind: self.warning_kind@,
            status: self.status@,
            created_at: self.created_at,
            is_delete: self.is_delete,
        }
    }
}

/// A reference row: a bulletin document consumed for a publisher.
#[derive(Clone, Debug)]
pub struct VPWW54Xml {
    pub id: Option<i64>,
    pub xml_file: String,
    pub lmo: String,
    pub created_at: Option<Timestamp>,
    pub is_delete: bool,
}

pub struct ReferenceView {
    pub id: Option<i64>,
    pub xml_file: Seq<char>,
    pub lmo: Seq<char>,
    pub created_at: Option<Timestamp>,
    pub is_delete: bool,
}

impl View for VPWW54Xml {
    type V = ReferenceView;

    open spec fn view(&self) -> ReferenceView {
        ReferenceView {
            id: self.id,
            xml_file: self.xml_file@,
            lmo: self.lmo@,
            created_at: self.created_at,
            is_delete: self.is_delete,
        }
    }
}

pub open spec fn report_views(s: Seq<CityReport>) -> Seq<ReportView> {
    s.map_values(|r: CityReport| r@)
}

pub open spec fn reference_views(s: Seq<VPWW54Xml>) -> Seq<ReferenceView> {
    s.map_values(|r: VPWW54Xml| r@)
}

pub struct StoreView {
    pub reports: Seq<ReportView>,
    pub references: Seq<ReferenceView>,
}

/// `r` is the active row of the publisher, city and kind.
pub open spec fn is_active_for(r: ReportView, lmo: Seq<char>, city: Seq<char>, kind: Seq<char>) -> bool {
    !r.is_delete && r.lmo == lmo && r.city == city && r.warning_kind == kind
}

/// The position of the active row of a publisher, city and kind (the last
/// one, should there be several).
pub open spec fn active_report(
    rs: Seq<ReportView>,
    lmo: Seq<char>,
    city: Seq<char>,
    kind: Seq<char>,
) -> Option<int>
    decreases rs.len(),
{
    if rs.len() == 0 {
        None
    } else if is_active_for(rs.last(), lmo, city, kind) {
        Some(rs.len() - 1)
    } else {
        active_report(rs.drop_last(), lmo, city, kind)
    }
}

/// The row that `active_report` finds is a row of the sequence, and the
/// active one of the publisher, city and kind; when it finds none, no row is.
pub proof fn lemma_active_report(rs: Seq<ReportView>, lmo: Seq<char>, city: Seq<char>, kind: Seq<char>)
    ensures
        match active_report(rs, lmo, city, kind) {
            Some(i) => 0 <= i < rs.len() && is_active_for(rs[i], lmo, city, kind) && forall|j: int|
                i < j < rs.len() ==> !is_active_for(#[trigger] rs[j], lmo, city, kind),
            None => forall|j: int| 0 <= j < rs.len() ==> !is_active_for(#[trigger] rs[j], lmo, city, kind),
        },
    decreases rs.len(),
{
    if rs.len() > 0 && !is_active_for(rs.last(), lmo, city, kind) {
        lemma_active_report(rs.drop_last(), lmo, city, kind);
        let p = rs.drop_last();
        match active_report(p, lmo, city, kind) {
            Some(i) => {
                assert forall|j: int| i < j < rs.len() implies !is_active_for(#[trigger] rs[j], lmo, city, kind) by {
                    if j < p.len() {
                        assert(rs[j] == p[j]);
                    }
                }
            },
            None => {
                assert forall|j: int| 0 <= j < rs.len() implies !is_active_for(#[trigger] rs[j], lmo, city, kind) by {
                    if j < p.len() {
                        assert(rs[j] == p[j]);
                    }
                }
            },
        }
    }
}

/// At most one active row per publisher, city and kind.
pub open spec fn unique_active(rs: Seq<ReportView>) -> bool {
    forall|i: int, j: int|
        0 <= i < rs.len() && 0 <= j < rs.len() && i != j && !(#[trigger] rs[i]).is_delete
            && !(#[trigger] rs[j]).is_delete ==> !(rs[i].lmo == rs[j].lmo && rs[i].city == rs[j].city
            && rs[i].warning_kind == rs[j].warning_kind)
}

pub open spec fn new_report(
    lmo: Seq<char>,
    city: Seq<char>,
    kind: Seq<char>,
    status: Seq<char>,
    xml_file: Seq<char>,
) -> ReportView {
    ReportView {
        id: None,
        xml_file,
        lmo,
        city,
        warning_kind: kind,
        status,
        created_at: None,
        is_delete: false,
    }
}

pub open spec fn cleared_for_city(r: ReportView, lmo: Seq<char>, city: Seq<char>) -> ReportView {
    if !r.is_delete && r.lmo == lmo && r.city == city {
        ReportView { is_delete: true, ..r }
    } else {
        r
    }
}

/// Every active row of the publisher and city marked deleted.
pub open spec fn clear_city(rs: Seq<ReportView>, lmo: Seq<char>, city: Seq<char>) -> Seq<ReportView> {
    rs.map_values(|r: ReportView| cleared_for_city(r, lmo, city))
}

pub open spec fn cleared_for_publisher(r: ReportView, lmo: Seq<char>) -> ReportView {
    if !r.is_delete && r.lmo == lmo {
        ReportView { is_delete: true, ..r }
    } else {
        r
    }
}

/// Every active row of the publisher marked deleted.
pub open spec fn clear_publisher(rs: Seq<ReportView>, lmo: Seq<char>) -> Seq<ReportView> {
    rs.map_values(|r: ReportView| cleared_for_publisher(r, lmo))
}

pub open spec fn dropped_reference(f: ReferenceView, lmo: Seq<char>) -> ReferenceView {
    if !f.is_delete && f.lmo == lmo {
        ReferenceView { is_delete: true, ..f }
    } else {
        f
    }
}

/// Every active reference of the publisher marked deleted.
pub open spec fn drop_references(fs: Seq<ReferenceView>, lmo: Seq<char>) -> Seq<ReferenceView> {
    fs.map_values(|f: ReferenceView| dropped_reference(f, lmo))
}

/// The documents of the publisher's active references, in order.
pub open spec fn active_documents(fs: Seq<ReferenceView>, lmo: Seq<char>) -> Seq<Seq<char>>
    decreases fs.len(),
{
    if fs.len() == 0 {
        Seq::empty()
    } else if !fs.last().is_delete && fs.last().lmo == lmo {
        active_documents(fs.drop_last(), lmo).push(fs.last().xml_file)
    } else {
        active_documents(fs.drop_last(), lmo)
    }
}

/// The publisher has an active reference to the document.
pub open spec fn has_reference(fs: Seq<ReferenceView>, lmo: Seq<char>, xml_file: Seq<char>) -> bool {
    exists|i: int|
        0 <= i < fs.len() && !(#[trigger] fs[i]).is_delete && fs[i].lmo == lmo && fs[i].xml_file
            == xml_file
}

/// The references with one to the document added, unless one is active.
pub open spec fn with_reference(fs: Seq<ReferenceView>, lmo: Seq<char>, xml_file: Seq<char>) -> Seq<ReferenceView> {
    if has_reference(fs, lmo, xml_file) {
        fs
    } else {
        fs.push(ReferenceView { id: None, xml_file, lmo, created_at: None, is_delete: false })
    }
}

/// The report rows and the reference rows.
pub struct ReportStore {
    reports: Vec<CityReport>,
    references: Vec<VPWW54Xml>,
}

impl View for ReportStore {
    type V = StoreView;

    closed spec fn view(&self) -> StoreView {
        StoreView { reports: report_views(self.reports@), references: reference_views(self.references@) }
    }
}

impl CityReport {
    /// Whether the row is the active one of the publisher, city and kind.
    pub fn is_active_for(&self, lmo: &str, city: &str, kind: &str) -> (r: bool)
        ensures
            r == is_active_for(self@, lmo@, city@, kind@),
    {
        !self.is_delete && str_eq(self.lmo.as_str(), lmo) && str_eq(self.city.as_str(), city) && str_eq(
            self.warning_kind.as_str(),
            kind,
        )
    }
}

impl ReportStore {
    /// A store with no rows.
    pub fn new() -> (r: ReportStore)
        ensures
            r@.reports == Seq::<ReportView>::empty(),
            r@.references == Seq::<ReferenceView>::empty(),
    {
        let r = ReportStore { reports: Vec::new(), references: Vec::new() };
        assert(r@.reports =~= Seq::empty());
        assert(r@.references =~= Seq::empty());
        r
    }

    /// A store holding the given rows.
    pub fn from_rows(reports: Vec<CityReport>, references: Vec<VPWW54Xml>) -> (r: ReportStore)
        ensures
            r@.reports == report_views(reports@),
            r@.references == reference_views(references@),
    {
        ReportStore { reports, references }
    }

    /// The report rows.
    pub fn reports(&self) -> (r: &Vec<CityReport>)
        ensures
            report_views(r@) == self@.reports,
    {
        &self.reports
    }

    /// The reference rows.
    pub fn references(&self) -> (r: &Vec<VPWW54Xml>)
        ensures
            reference_views(r@) == self@.references,
    {
        &self.references
    }

    /// The position of the active row of a publisher, city and kind.
    pub fn find_active_report(&self, lmo: &str, city: &str, kind: &str) -> (r: Option<usize>)
        ensures
            match r {
                Some(i) => active_report(self@.reports, lmo@, city@, kind@) == Some(i as int) && i
                    < self@.reports.len(),
                None => active_report(self@.reports, lmo@, city@, kind@) is None,
            },
    {
        proof {
            lemma_active_report(self@.reports, lmo@, city@, kind@);
        }
        let ghost rs = self@.reports;
        let mut i: usize = self.reports.len();
        assert(rs.take(i as int) =~= rs);
        while i > 0
            invariant
                i <= self.reports.len() == rs.len(),
                rs == report_views(self.reports@),
                active_report(rs, lmo@, city@, kind@) == active_report(rs.take(i as int), lmo@, city@, kind@),
            decreases i,
        {
            assert(rs.take(i as int).last() == self.reports@[i - 1]@);
            if self.reports[i - 1].is_active_for(lmo, city, kind) {
                return Some(i - 1);
            }
            assert(rs.take(i as int).drop_last() =~= rs.take(i - 1));
            i = i - 1;
        }
        None
    }

    /// The row at `index`.
    pub fn get_city_report_at(&self, index: usize) -> (r: Option<&CityReport>)
        ensures
            match r {
                Some(rec) => index < self@.reports.len() && rec@ == self@.reports[index as int],
                None => index >= self@.reports.len(),
            },
    {
        if index < self.reports.len() {
            Some(&self.reports[index])
        } else {
            None
        }
    }

    /// The active row of a publisher, city and kind, if there is one.
    pub fn get_city_report(&self, lmo: &str, city: &str, kind: &str) -> (r: Option<&CityReport>)
        ensures
            match r {
                Some(rec) => active_report(self@.reports, lmo@, city@, kind@) matches Some(i) && self@.reports[i]
                    == rec@,
                None => active_report(self@.reports, lmo@, city@, kind@) is None,
            },
    {
        match self.find_active_report(lmo, city, kind) {
            Some(i) => Some(&self.reports[i]),
            None => None,
        }
    }
}

impl ReportStore {
    /// Adds an active row.
    pub fn create_city_report(&mut self, lmo: &str, city: &str, kind: &str, status: &str, xml_file: &str)
        ensures
            final(self)@.reports == old(self)@.reports.push(new_report(lmo@, city@, kind@, status@, xml_file@)),
            final(self)@.references == old(self)@.references,
    {
        let r = CityReport {
            id: None,
            xml_file: String::from_str(xml_file),
            lmo: String::from_str(lmo),
            city: String::from_str(city),
            warning_kind: String::from_str(kind),
            status: String::from_str(status),
            created_at: None,
            is_delete: false,
        };
        let ghost before = self.reports@;
        self.reports.push(r);
        assert(report_views(self.reports@) =~= report_views(before).push(r@));
    }

    /// Sets the status and the document of the row at `index`.
    pub fn update_city_report(&mut self, index: usize, xml_file: &str, status: &str)
        requires
            index < old(self)@.reports.len(),
        ensures
            final(self)@.reports == old(self)@.reports.update(
                index as int,
                ReportView { xml_file: xml_file@, status: status@, ..old(self)@.reports[index as int] },
            ),
            final(self)@.references == old(self)@.references,
    {
        let ghost before = self.reports@;
        self.reports[index].xml_file = String::from_str(xml_file);
        self.reports[index].status = String::from_str(status);
        assert(report_views(self.reports@) =~= report_views(before).update(
            index as int,
            ReportView { xml_file: xml_file@, status: status@, ..report_views(before)[index as int] },
        ));
    }

    /// Sets the document of the row at `index`, its status unchanged.
    pub fn update_city_report_xmlfile(&mut self, index: usize, xml_file: &str)
        requires
            index < old(self)@.reports.len(),
        ensures
            final(self)@.reports == old(self)@.reports.update(
                index as int,
                ReportView { xml_file: xml_file@, ..old(self)@.reports[index as int] },
            ),
            final(self)@.references == old(self)@.references,
    {
        let ghost before = self.reports@;
        self.reports[index].xml_file = String::from_str(xml_file);
        assert(report_views(self.reports@) =~= report_views(before).update(
            index as int,
            ReportView { xml_file: xml_file@, ..report_views(before)[index as int] },
        ));
    }

    /// Marks deleted every active row of the publisher and city, whatever
    /// its kind.
    pub fn delete_city_reports_by_city(&mut self, lmo: &str, city: &str)
        ensures
            final(self)@.reports == clear_city(old(self)@.reports, lmo@, city@),
            final(self)@.references == old(self)@.references,
    {
        let ghost orig = self@.reports;
        let mut i: usize = 0;
        while i < self.reports.len()
            invariant
                i <= self.reports.len() == orig.len(),
                self@.references == old(self)@.references,
                forall|j: int| 0 <= j < i ==> #[trigger] self@.reports[j] == cleared_for_city(orig[j], lmo@, city@),
                forall|j: int| i <= j < orig.len() ==> #[trigger] self@.reports[j] == orig[j],
            decreases orig.len() - i,
        {
            let ghost cur = self@.reports;
            assert(cur[i as int] == orig[i as int]);
            if !self.reports[i].is_delete && str_eq(self.reports[i].lmo.as_str(), lmo) && str_eq(
                self.reports[i].city.as_str(),
                city,
            ) {
                self.reports[i].is_delete = true;
            }
            assert(self@.reports =~= cur.update(i as int, cleared_for_city(orig[i as int], lmo@, city@)));
            i = i + 1;
        }
        assert(self@.reports =~= clear_city(orig, lmo@, city@));
    }

    /// Marks deleted every active row of the publisher.
    pub fn delete_city_reports_by_lmo(&mut self, lmo: &str)
        ensures
            final(self)@.reports == clear_publisher(old(self)@.reports, lmo@),
            final(self)@.references == old(self)@.references,
    {
        let ghost orig = self@.reports;
        let mut i: usize = 0;
        while i < self.reports.len()
            invariant
                i <= self.reports.len() == orig.len(),
                self@.references == old(self)@.references,
                forall|j: int| 0 <= j < i ==> #[trigger] self@.reports[j] == cleared_for_publisher(orig[j], lmo@),
                forall|j: int| i <= j < orig.len() ==> #[trigger] self@.reports[j] == orig[j],
            decreases orig.len() - i,
        {
            let ghost cur = self@.reports;
            assert(cur[i as int] == orig[i as int]);
            if !self.reports[i].is_delete && str_eq(self.reports[i].lmo.as_str(), lmo) {
                self.reports[i].is_delete = true;
            }
            assert(self@.reports =~= cur.update(i as int, cleared_for_publisher(orig[i as int], lmo@)));
            i = i + 1;
        }
        assert(self@.reports =~= clear_publisher(orig, lmo@));
    }

    /// Marks deleted every active reference of the publisher and returns
    /// their documents, in order.
    pub fn delete_vpww54_by_lmo(&mut self, lmo: &str) -> (r: Vec<String>)
        ensures
            final(self)@.references == drop_references(old(self)@.references, lmo@),
            final(self)@.reports == old(self)@.reports,
            r@.map_values(|f: String| f@) == active_documents(old(self)@.references, lmo@),
    {
        let ghost orig = self@.references;
        let mut files: Vec<String> = Vec::new();
        let mut i: usize = 0;
        assert(files@.map_values(|f: String| f@) =~= active_documents(orig.take(0), lmo@));
        while i < self.references.len()
            invariant
                i <= self.references.len() == orig.len(),
                self@.reports == old(self)@.reports,
                forall|j: int| 0 <= j < i ==> #[trigger] self@.references[j] == dropped_reference(orig[j], lmo@),
                forall|j: int| i <= j < orig.len() ==> #[trigger] self@.references[j] == orig[j],
                files@.map_values(|f: String| f@) == active_documents(orig.take(i as int), lmo@),
            decreases orig.len() - i,
        {
            assert(orig.take(i + 1).drop_last() =~= orig.take(i as int));
            assert(orig.take(i + 1).last() == orig[i as int]);
            let ghost cur = self@.references;
            assert(cur[i as int] == orig[i as int]);
            if !self.references[i].is_delete && str_eq(self.references[i].lmo.as_str(), lmo) {
                let ghost fs = files@;
                files.push(self.references[i].xml_file.clone());
                assert(files@.map_values(|f: String| f@) =~= fs.map_values(|f: String| f@).push(
                    orig[i as int].xml_file,
                ));
                self.references[i].is_delete = true;
            }
            assert(self@.references =~= cur.update(i as int, dropped_reference(orig[i as int], lmo@)));
            i = i + 1;
        }
        assert(self@.references =~= drop_references(orig, lmo@));
        assert(orig.take(orig.len() as int) =~= orig);
        files
    }

    /// Whether the publisher has an active reference to the document.
    pub fn has_reference(&self, lmo: &str, xml_file: &str) -> (r: bool)
        ensures
            r == has_reference(self@.references, lmo@, xml_file@),
    {
        let ghost fs = self@.references;
        let mut i: usize = 0;
        while i < self.references.len()
            invariant
                i <= self.references.len() == fs.len(),
                fs == reference_views(self.references@),
                forall|j: int|
                    0 <= j < i ==> !(!(#[trigger] fs[j]).is_delete && fs[j].lmo == lmo@ && fs[j].xml_file
                        == xml_file@),
            decreases fs.len() - i,
        {
            assert(fs[i as int] == self.references@[i as int]@);
            if !self.references[i].is_delete && str_eq(self.references[i].lmo.as_str(), lmo) && str_eq(
                self.references[i].xml_file.as_str(),
                xml_file,
            ) {
                return true;
            }
            i = i + 1;
        }
        false
    }

    /// Records that the publisher consumed the document, unless an active
    /// reference to it exists.
    pub fn add_vpww54_xml(&mut self, lmo: &str, xml_file: &str)
        ensures
            final(self)@.references == with_reference(old(self)@.references, lmo@, xml_file@),
            final(self)@.reports == old(self)@.reports,
    {
        if !self.has_reference(lmo, xml_file) {
            let f = VPWW54Xml {
                id: None,
                xml_file: String::from_str(xml_file),
                lmo: String::from_str(lmo),
                created_at: None,
                is_delete: false,
            };
            let ghost before = self.references@;
            self.references.push(f);
            assert(reference_views(self.references@) =~= reference_views(before).push(f@));
        }
    }
}

} // verus!
