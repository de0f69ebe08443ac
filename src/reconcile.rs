//! Reconciliation of a publisher's newest observations against the stored
//! reports: which rows to create, update or mark deleted, and which changes
//! to notify.
use crate::bulletin::{data_views, WarningData, WarningDataView, NO_WARNINGS_STATUS};
use crate::laws::lemma_reconcile_keeps_unique;
use crate::store::{
    active_documents, active_report, clear_city, clear_publisher, drop_references, new_report,
    unique_active, with_reference, CityReport, ReportStore, ReportView, StoreView,
};
use crate::text::{contains_string, str_eq};
use vstd::prelude::*;

verus! {

/// What an observation does to the active row of its publisher, city and
/// kind.
#[derive(Clone, Copy, Debug, PartialEq, Eq, Structural)]
pub enum Transition {
    /// No active row: one is created and the warning is notified.
    New,
    /// The status differs: the row takes the new status and document, and the
    /// change is notified.
    Changed,
    /// Same status from another document: the row takes the document only.
    Touched,
    /// Same status and document: nothing happens.
    Unchanged,
}

/// One effect of reconciliation on the store or on the operator, in the
/// order it happens. The publisher is the one reconciled.
#[derive(Clone, Debug)]
pub enum StoreAction {
    /// Tell the operator the status of a warning kind in a city.
    Notify { city: String, warning_kind: String, status: String },
    /// Create the active row of a city and kind.
    CreateReport { city: String, warning_kind: String, status: String, xml_file: String },
    /// Set the status and document of the active row of a city and kind.
    UpdateReport { city: String, warning_kind: String, status: String, xml_file: String },
    /// Set the document of the active row of a city and kind.
    UpdateReportXmlFile { city: String, warning_kind: String, xml_file: String },
    /// Mark deleted every active row of a city.
    ClearCity { city: String },
    /// Mark deleted every active row of the publisher.
    ClearPublisher,
    /// Record that the publisher consumed a document.
    RegisterReference { xml_file: String },
    /// Mark deleted every active reference of the publisher; the documents
    /// they referred to are listed.
    DropReferences { xml_files: Vec<String> },
}

pub enum ActionView {
    Notify { city: Seq<char>, warning_kind: Seq<char>, status: Seq<char> },
    CreateReport { city: Seq<char>, warning_kind: Seq<char>, status: Seq<char>, xml_file: Seq<char> },
    UpdateReport { city: Seq<char>, warning_kind: Seq<char>, status: Seq<char>, xml_file: Seq<char> },
    UpdateReportXmlFile { city: Seq<char>, warning_kind: Seq<char>, xml_file: Seq<char> },
    ClearCity { city: Seq<char> },
    ClearPublisher,
    RegisterReference { xml_file: Seq<char> },
    DropReferences { xml_files: Seq<Seq<char>> },
}

impl View for StoreAction {
    type V = ActionView;

    open spec fn view(&self) -> ActionView {
        match self {
            StoreAction::Notify { city, warning_kind, status } => ActionView::Notify {
                city: city@,
                warning_kind: warning_kind@,
                status: status@,
            },
            StoreAction::CreateReport { city, warning_kind, status, xml_file } => ActionView::CreateReport {
                city: city@,
                warning_kind: warning_kind@,
                status: status@,
                xml_file: xml_file@,
            },
            StoreAction::UpdateReport { city, warning_kind, status, xml_file } => ActionView::UpdateReport {
                city: city@,
                warning_kind: warning_kind@,
                status: status@,
                xml_file: xml_file@,
            },
            StoreAction::UpdateReportXmlFile { city, warning_kind, xml_file } => ActionView::UpdateReportXmlFile {
                city: city@,
                warning_kind: warning_kind@,
                xml_file: xml_file@,
            },
            StoreAction::ClearCity { city } => ActionView::ClearCity { city: city@ },
            StoreAction::ClearPublisher => ActionView::ClearPublisher,
            StoreAction::RegisterReference { xml_file } => ActionView::RegisterReference { xml_file: xml_file@ },
            StoreAction::DropReferences { xml_files } => ActionView::DropReferences {
                xml_files: xml_files@.map_values(|f: String| f@),
            },
        }
    }
}

pub open spec fn action_views(s: Seq<StoreAction>) -> Seq<ActionView> {
    s.map_values(|a: StoreAction| a@)
}

/// How many of the actions are notifications.
pub open spec fn notification_count(s: Seq<ActionView>) -> nat
    decreases s.len(),
{
    if s.len() == 0 {
        0
    } else {
        notification_count(s.drop_last()) + if s.last() is Notify {
            1nat
        } else {
            0nat
        }
    }
}

/// The transition that an observed status and document make from the active
/// row, if any.
pub open spec fn transition_of(existing: Option<ReportView>, status: Seq<char>, xml_file: Seq<char>) -> Transition {
    match existing {
        None => Transition::New,
        Some(r) => if r.status != status {
            Transition::Changed
        } else if r.xml_file != xml_file {
            Transition::Touched
        } else {
            Transition::Unchanged
        },
    }
}

/// The store and the actions after an observation of a named kind.
pub open spec fn warning_step(
    st: StoreView,
    lmo: Seq<char>,
    city: Seq<char>,
    kind: Seq<char>,
    status: Seq<char>,
    xml_file: Seq<char>,
) -> (StoreView, Seq<ActionView>) {
    match active_report(st.reports, lmo, city, kind) {
        None => (
            StoreView {
                reports: st.reports.push(new_report(lmo, city, kind, status, xml_file)),
                references: with_reference(st.references, lmo, xml_file),
            },
            seq![
                ActionView::Notify { city, warning_kind: kind, status },
                ActionView::CreateReport { city, warning_kind: kind, status, xml_file },
                ActionView::RegisterReference { xml_file },
            ],
        ),
        Some(i) => {
            let r = st.reports[i];
            if r.status != status {
                let reports = st.reports.update(i, ReportView { status, xml_file, ..r });
                let notify_and_update = seq![
                    ActionView::Notify { city, warning_kind: kind, status },
                    ActionView::UpdateReport { city, warning_kind: kind, status, xml_file },
                ];
                if r.xml_file != xml_file {
                    (
                        StoreView { reports, references: with_reference(st.references, lmo, xml_file) },
                        notify_and_update.push(ActionView::RegisterReference { xml_file }),
                    )
                } else {
                    (StoreView { reports, references: st.references }, notify_and_update)
                }
            } else if r.xml_file != xml_file {
                (
                    StoreView {
                        reports: st.reports.update(i, ReportView { xml_file, ..r }),
                        references: with_reference(st.references, lmo, xml_file),
                    },
                    seq![
                        ActionView::UpdateReportXmlFile { city, warning_kind: kind, xml_file },
                        ActionView::RegisterReference { xml_file },
                    ],
                )
            } else {
                (st, Seq::empty())
            }
        },
    }
}

/// The observation is an all-clear for its city.
pub open spec fn is_all_clear(o: WarningDataView) -> bool {
    o.warning_kind.len() == 0 && o.status == NO_WARNINGS_STATUS@
}

/// The store and the actions after one observation: those of unmonitored
/// cities and those with an empty kind and another status change nothing.
pub open spec fn observation_step(
    st: StoreView,
    lmo: Seq<char>,
    cities: Seq<Seq<char>>,
    xml_file: Seq<char>,
    o: WarningDataView,
) -> (StoreView, Seq<ActionView>) {
    if !cities.contains(o.city) {
        (st, Seq::empty())
    } else if is_all_clear(o) {
        (
            StoreView { reports: clear_city(st.reports, lmo, o.city), references: st.references },
            seq![ActionView::ClearCity { city: o.city }],
        )
    } else if o.warning_kind.len() == 0 {
        (st, Seq::empty())
    } else {
        warning_step(st, lmo, o.city, o.warning_kind, o.status, xml_file)
    }
}

/// The store and the actions after the observations, in order.
pub open spec fn observations_run(
    st: StoreView,
    lmo: Seq<char>,
    cities: Seq<Seq<char>>,
    xml_file: Seq<char>,
    obs: Seq<WarningDataView>,
) -> (StoreView, Seq<ActionView>)
    decreases obs.len(),
{
    if obs.len() == 0 {
        (st, Seq::empty())
    } else {
        let prev = observations_run(st, lmo, cities, xml_file, obs.drop_last());
        let next = observation_step(prev.0, lmo, cities, xml_file, obs.last());
        (next.0, prev.1 + next.1)
    }
}

/// The store and the actions after a publisher's cycle: with no bulletin in
/// the feed, all its rows and references are marked deleted; with one, its
/// observations are reconciled in order.
pub open spec fn reconciled(
    st: StoreView,
    lmo: Seq<char>,
    cities: Seq<Seq<char>>,
    latest: Option<(Seq<WarningDataView>, Seq<char>)>,
) -> (StoreView, Seq<ActionView>) {
    match latest {
        None => (
            StoreView {
                reports: clear_publisher(st.reports, lmo),
                references: drop_references(st.references, lmo),
            },
            seq![
                ActionView::ClearPublisher,
                ActionView::DropReferences { xml_files: active_documents(st.references, lmo) },
            ],
        ),
        Some((obs, xml_file)) => observations_run(st, lmo, cities, xml_file, obs),
    }
}

pub open spec fn city_views(cities: Seq<String>) -> Seq<Seq<char>> {
    cities.map_values(|c: String| c@)
}

/// The newest bulletin of a publisher as its observations and its document.
pub open spec fn latest_view(latest: Option<(Vec<WarningData>, String)>) -> Option<(Seq<WarningDataView>, Seq<char>)> {
    match latest {
        Some((obs, xml_file)) => Some((data_views(obs@), xml_file@)),
        None => None,
    }
}

/// The transition that an observed status and document make from the active
/// row, if any.
pub fn transition_for(existing: Option<&CityReport>, status: &str, xml_file: &str) -> (r: Transition)
    ensures
        r == transition_of(
            match existing {
                Some(e) => Some(e@),
                None => None,
            },
            status@,
            xml_file@,
        ),
{
    match existing {
        None => Transition::New,
        Some(e) => if !str_eq(e.status.as_str(), status) {
            Transition::Changed
        } else if !str_eq(e.xml_file.as_str(), xml_file) {
            Transition::Touched
        } else {
            Transition::Unchanged
        },
    }
}

fn notify_action(city: &str, kind: &str, status: &str) -> (r: StoreAction)
    ensures
        r@ == (ActionView::Notify { city: city@, warning_kind: kind@, status: status@ }),
{
    StoreAction::Notify {
        city: String::from_str(city),
        warning_kind: String::from_str(kind),
        status: String::from_str(status),
    }
}

fn register_action(xml_file: &str) -> (r: StoreAction)
    ensures
        r@ == (ActionView::RegisterReference { xml_file: xml_file@ }),
{
    StoreAction::RegisterReference { xml_file: String::from_str(xml_file) }
}

impl ReportStore {
    /// Reconciles one observation of a named kind with the active row of its
    /// publisher, city and kind.
    pub fn process_warning(&mut self, lmo: &str, city: &str, kind: &str, status: &str, xml_file: &str) -> (r: Vec<
        StoreAction,
    >)
        ensures
            final(self)@ == warning_step(old(self)@, lmo@, city@, kind@, status@, xml_file@).0,
            action_views(r@) == warning_step(old(self)@, lmo@, city@, kind@, status@, xml_file@).1,
    {
        let mut actions: Vec<StoreAction> = Vec::new();
        match self.find_active_report(lmo, city, kind) {
            None => {
                actions.push(notify_action(city, kind, status));
                self.create_city_report(lmo, city, kind, status, xml_file);
                actions.push(
                    StoreAction::CreateReport {
                        city: String::from_str(city),
                        warning_kind: String::from_str(kind),
                        status: String::from_str(status),
                        xml_file: String::from_str(xml_file),
                    },
                );
                self.add_vpww54_xml(lmo, xml_file);
                actions.push(register_action(xml_file));
            },
            Some(i) => {
                let transition = transition_for(self.get_city_report_at(i), status, xml_file);
                match transition {
                    Transition::Changed => {
                        let xml_changed = !str_eq(self.get_city_report_at(i).unwrap().xml_file.as_str(), xml_file);
                        actions.push(notify_action(city, kind, status));
                        self.update_city_report(i, xml_file, status);
                        actions.push(
                            StoreAction::UpdateReport {
                                city: String::from_str(city),
                                warning_kind: String::from_str(kind),
                                status: String::from_str(status),
                                xml_file: String::from_str(xml_file),
                            },
                        );
                        if xml_changed {
                            self.add_vpww54_xml(lmo, xml_file);
                            actions.push(register_action(xml_file));
                        }
                    },
                    Transition::Touched => {
                        self.update_city_report_xmlfile(i, xml_file);
                        actions.push(
                            StoreAction::UpdateReportXmlFile {
                                city: String::from_str(city),
                                warning_kind: String::from_str(kind),
                                xml_file: String::from_str(xml_file),
                            },
                        );
                        self.add_vpww54_xml(lmo, xml_file);
                        actions.push(register_action(xml_file));
                    },
                    _ => {},
                }
            },
        }
        assert(action_views(actions@) =~= warning_step(old(self)@, lmo@, city@, kind@, status@, xml_file@).1);
        actions
    }

    /// Reconciles a publisher's cycle. With no bulletin in the feed, every
    /// active row and reference of the publisher is marked deleted. With one,
    /// each observation of a monitored city is taken in document order: an
    /// all-clear marks deleted every active row of the city, an observation of
    /// a named kind goes through `process_warning`, and any other changes
    /// nothing.
    pub fn check_warnings(
        &mut self,
        lmo: &str,
        cities: &Vec<String>,
        latest: &Option<(Vec<WarningData>, String)>,
    ) -> (r: Vec<StoreAction>)
        ensures
            final(self)@ == reconciled(old(self)@, lmo@, city_views(cities@), latest_view(*latest)).0,
            action_views(r@) == reconciled(old(self)@, lmo@, city_views(cities@), latest_view(*latest)).1,
            unique_active(old(self)@.reports) ==> unique_active(final(self)@.reports),
    {
        proof {
            if unique_active(self@.reports) {
                lemma_reconcile_keeps_unique(self@, lmo@, city_views(cities@), latest_view(*latest));
            }
        }
        let mut actions: Vec<StoreAction> = Vec::new();
        match latest {
            None => {
                self.delete_city_reports_by_lmo(lmo);
                actions.push(StoreAction::ClearPublisher);
                let xml_files = self.delete_vpww54_by_lmo(lmo);
                actions.push(StoreAction::DropReferences { xml_files });
                assert(action_views(actions@) =~= reconciled(
                    old(self)@,
                    lmo@,
                    city_views(cities@),
                    latest_view(*latest),
                ).1);
            },
            Some((obs, xml_file)) => {
                let ghost cs = city_views(cities@);
                let ghost ov = data_views(obs@);
                let mut i: usize = 0;
                assert(action_views(actions@) =~= Seq::empty());
                while i < obs.len()
                    invariant
                        i <= obs.len() == ov.len(),
                        ov == data_views(obs@),
                        cs == city_views(cities@),
                        self@ == observations_run(old(self)@, lmo@, cs, xml_file@, ov.take(i as int)).0,
                        action_views(actions@) == observations_run(
                            old(self)@,
                            lmo@,
                            cs,
                            xml_file@,
                            ov.take(i as int),
                        ).1,
                    decreases obs.len() - i,
                {
                    let o = &obs[i];
                    assert(ov.take(i + 1).drop_last() =~= ov.take(i as int));
                    assert(ov.take(i + 1).last() == o@);
                    let ghost before = action_views(actions@);
                    if contains_string(cities, o.city.as_str()) {
                        let empty_kind = o.warning_kind.as_str().unicode_len() == 0;
                        if empty_kind && str_eq(o.status.as_str(), NO_WARNINGS_STATUS) {
                            self.delete_city_reports_by_city(lmo, o.city.as_str());
                            let a = StoreAction::ClearCity { city: o.city.clone() };
                            actions.push(a);
                            assert(action_views(actions@) =~= before.push(a@));
                        } else if !empty_kind {
                            let mut more = self.process_warning(
                                lmo,
                                o.city.as_str(),
                                o.warning_kind.as_str(),
                                o.status.as_str(),
                                xml_file.as_str(),
                            );
                            let ghost added = action_views(more@);
                            actions.append(&mut more);
                            assert(action_views(actions@) =~= before + added);
                        } else {
                            assert(before + Seq::empty() =~= before);
                        }
                    } else {
                        assert(before + Seq::empty() =~= before);
                    }
                    i = i + 1;
                }
                assert(ov.take(ov.len() as int) =~= ov);
            },
        }
        actions
    }
}

} // verus!
