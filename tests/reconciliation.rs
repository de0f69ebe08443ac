use weather_checker::bulletin::WarningData;
use weather_checker::reconcile::{transition_for, StoreAction, Transition};
use weather_checker::store::{CityReport, ReportStore, VPWW54Xml};

const NONE_STATUS: &str = "発表警報・注意報はなし";
const LMO: &str = "静岡地方気象台";

fn obs(city: &str, kind: &str, status: &str) -> WarningData {
    WarningData { city: city.to_string(), warning_kind: kind.to_string(), status: status.to_string() }
}

fn report(lmo: &str, city: &str, kind: &str, status: &str, xml: &str) -> CityReport {
    CityReport {
        id: None,
        xml_file: xml.to_string(),
        lmo: lmo.to_string(),
        city: city.to_string(),
        warning_kind: kind.to_string(),
        status: status.to_string(),
        created_at: None,
        is_delete: false,
    }
}

fn reference(lmo: &str, xml: &str) -> VPWW54Xml {
    VPWW54Xml { id: None, xml_file: xml.to_string(), lmo: lmo.to_string(), created_at: None, is_delete: false }
}

fn cities(names: &[&str]) -> Vec<String> {
    names.iter().map(|c| c.to_string()).collect()
}

fn notifications(actions: &[StoreAction]) -> usize {
    actions.iter().filter(|a| matches!(a, StoreAction::Notify { .. })).count()
}

fn active(store: &ReportStore) -> Vec<(String, String, String, String)> {
    store
        .reports()
        .iter()
        .filter(|r| !r.is_delete)
        .map(|r| (r.city.clone(), r.warning_kind.clone(), r.status.clone(), r.xml_file.clone()))
        .collect()
}

#[test]
fn new_warning_is_created_notified_and_referenced() {
    let mut store = ReportStore::new();
    let latest = Some((vec![obs("裾野市", "大雨警報", "発表")], "a.xml".to_string()));
    let actions = store.check_warnings(LMO, &cities(&["裾野市"]), &latest);
    assert_eq!(notifications(&actions), 1);
    assert_eq!(actions.len(), 3);
    assert!(matches!(&actions[0], StoreAction::Notify { city, warning_kind, status }
        if city == "裾野市" && warning_kind == "大雨警報" && status == "発表"));
    assert!(matches!(&actions[1], StoreAction::CreateReport { xml_file, .. } if xml_file == "a.xml"));
    assert!(matches!(&actions[2], StoreAction::RegisterReference { xml_file } if xml_file == "a.xml"));
    assert_eq!(active(&store), vec![("裾野市".into(), "大雨警報".into(), "発表".into(), "a.xml".into())]);
    assert_eq!(store.references().len(), 1);
    assert!(store.has_reference(LMO, "a.xml"));
}

#[test]
fn same_bulletin_twice_changes_nothing_the_second_time() {
    let mut store = ReportStore::new();
    let latest = Some((
        vec![obs("裾野市", "大雨警報", "発表"), obs("裾野市", "洪水注意報", "継続"), obs("御殿場市", "", NONE_STATUS)],
        "a.xml".to_string(),
    ));
    let watched = cities(&["裾野市", "御殿場市"]);
    let first = store.check_warnings(LMO, &watched, &latest);
    assert_eq!(notifications(&first), 2);
    let after_first = active(&store);
    let refs_first = store.references().len();
    let second = store.check_warnings(LMO, &watched, &latest);
    assert_eq!(notifications(&second), 0);
    assert!(second.iter().all(|a| matches!(a, StoreAction::ClearCity { .. })));
    assert_eq!(active(&store), after_first);
    assert_eq!(store.references().len(), refs_first);
}

#[test]
fn all_clear_deactivates_every_kind_of_the_city() {
    let mut store = ReportStore::from_rows(
        vec![
            report(LMO, "X", "A", "発表", "a.xml"),
            report(LMO, "X", "B", "継続", "a.xml"),
            report(LMO, "Y", "A", "発表", "a.xml"),
            report("他の気象台", "X", "A", "発表", "z.xml"),
        ],
        vec![],
    );
    let latest = Some((vec![obs("X", "", NONE_STATUS)], "b.xml".to_string()));
    let actions = store.check_warnings(LMO, &cities(&["X", "Y"]), &latest);
    assert_eq!(notifications(&actions), 0);
    assert!(matches!(&actions[..], [StoreAction::ClearCity { city }] if city == "X"));
    let left: Vec<(String, String)> = store
        .reports()
        .iter()
        .filter(|r| !r.is_delete)
        .map(|r| (r.lmo.clone(), r.city.clone()))
        .collect();
    assert_eq!(left, vec![(LMO.to_string(), "Y".to_string()), ("他の気象台".to_string(), "X".to_string())]);
    assert_eq!(store.reports().len(), 4);
}

#[test]
fn absent_publisher_is_cleared() {
    let mut store = ReportStore::from_rows(
        vec![
            report(LMO, "X", "A", "発表", "a.xml"),
            report(LMO, "X", "B", "継続", "a.xml"),
            report(LMO, "Y", "A", "解除", "b.xml"),
            report("他の気象台", "Z", "A", "発表", "z.xml"),
        ],
        vec![reference(LMO, "a.xml"), reference(LMO, "b.xml"), reference("他の気象台", "z.xml")],
    );
    let actions = store.check_warnings(LMO, &cities(&["X", "Y"]), &None);
    assert_eq!(notifications(&actions), 0);
    assert!(matches!(&actions[0], StoreAction::ClearPublisher));
    match &actions[1] {
        StoreAction::DropReferences { xml_files } => assert_eq!(xml_files, &vec!["a.xml".to_string(), "b.xml".to_string()]),
        _ => panic!("references were not dropped"),
    }
    assert!(store.reports().iter().filter(|r| r.lmo == LMO).all(|r| r.is_delete));
    assert!(store.references().iter().filter(|r| r.lmo == LMO).all(|r| r.is_delete));
    assert!(!store.reports()[3].is_delete);
    assert!(!store.references()[2].is_delete);
    assert_eq!(store.reports().len(), 4);
}

#[test]
fn status_change_is_notified_once_and_stored() {
    let mut store = ReportStore::from_rows(vec![report(LMO, "C", "K", "issued", "a.xml")], vec![]);
    let latest = Some((vec![obs("C", "K", "continuing")], "a.xml".to_string()));
    let actions = store.check_warnings(LMO, &cities(&["C"]), &latest);
    assert_eq!(notifications(&actions), 1);
    assert_eq!(actions.len(), 2);
    assert_eq!(active(&store), vec![("C".into(), "K".into(), "continuing".into(), "a.xml".into())]);
    assert!(store.references().is_empty());
}

#[test]
fn status_change_from_another_document_registers_it() {
    let mut store = ReportStore::from_rows(vec![report(LMO, "C", "K", "issued", "a.xml")], vec![]);
    let latest = Some((vec![obs("C", "K", "continuing")], "b.xml".to_string()));
    let actions = store.check_warnings(LMO, &cities(&["C"]), &latest);
    assert_eq!(notifications(&actions), 1);
    assert!(matches!(&actions[2], StoreAction::RegisterReference { xml_file } if xml_file == "b.xml"));
    assert_eq!(active(&store), vec![("C".into(), "K".into(), "continuing".into(), "b.xml".into())]);
}

#[test]
fn document_rotation_is_silent() {
    let mut store = ReportStore::from_rows(vec![report(LMO, "C", "K", "issued", "a.xml")], vec![]);
    let latest = Some((vec![obs("C", "K", "issued")], "b.xml".to_string()));
    let actions = store.check_warnings(LMO, &cities(&["C"]), &latest);
    assert_eq!(notifications(&actions), 0);
    assert!(matches!(&actions[0], StoreAction::UpdateReportXmlFile { xml_file, .. } if xml_file == "b.xml"));
    assert_eq!(active(&store), vec![("C".into(), "K".into(), "issued".into(), "b.xml".into())]);
    assert!(store.has_reference(LMO, "b.xml"));
}

#[test]
fn unmonitored_and_kindless_observations_change_nothing() {
    let mut store = ReportStore::new();
    let latest = Some((
        vec![obs("Elsewhere", "K", "issued"), obs("C", "", "解除"), obs("Elsewhere", "", NONE_STATUS)],
        "a.xml".to_string(),
    ));
    let actions = store.check_warnings(LMO, &cities(&["C"]), &latest);
    assert!(actions.is_empty());
    assert!(store.reports().is_empty());
}

#[test]
fn empty_bulletin_is_quiet() {
    let mut store = ReportStore::from_rows(vec![report(LMO, "C", "K", "issued", "a.xml")], vec![]);
    let actions = store.check_warnings(LMO, &cities(&["C"]), &Some((vec![], "b.xml".to_string())));
    assert!(actions.is_empty());
    assert_eq!(active(&store).len(), 1);
}

#[test]
fn transitions_follow_status_then_document() {
    let r = report(LMO, "C", "K", "issued", "a.xml");
    assert_eq!(transition_for(None, "issued", "a.xml"), Transition::New);
    assert_eq!(transition_for(Some(&r), "continuing", "a.xml"), Transition::Changed);
    assert_eq!(transition_for(Some(&r), "issued", "b.xml"), Transition::Touched);
    assert_eq!(transition_for(Some(&r), "issued", "a.xml"), Transition::Unchanged);
}

#[test]
fn lookups_find_the_active_row() {
    let mut deleted = report(LMO, "C", "K", "old", "0.xml");
    deleted.is_delete = true;
    let store = ReportStore::from_rows(vec![deleted, report(LMO, "C", "K", "issued", "a.xml")], vec![]);
    assert_eq!(store.find_active_report(LMO, "C", "K"), Some(1));
    assert_eq!(store.get_city_report(LMO, "C", "K").unwrap().status, "issued");
    assert_eq!(store.find_active_report(LMO, "C", "Other"), None);
}

#[test]
fn reference_is_added_once() {
    let mut store = ReportStore::new();
    store.add_vpww54_xml(LMO, "a.xml");
    store.add_vpww54_xml(LMO, "a.xml");
    store.add_vpww54_xml("other", "a.xml");
    assert_eq!(store.references().len(), 2);
}
