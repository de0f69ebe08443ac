use weather_checker::bulletin::{
    normalized_report_time, observations_from_events, parse_bulletin, parse_report_time, parse_vpww54, CityWarning,
    VPWW54Control, VPWW54Data, VPWW54Head, WarningKind,
};
use weather_checker::error::WeatherCheckerError;
use weather_checker::timestamp::Timestamp;
use weather_checker::xml::XmlEvent;

const STARTED: Timestamp = Timestamp { secs: 7, nanos: 0 };
const CITY_TYPE: &str = "気象警報・注意報（市町村等）";
const NONE_STATUS: &str = "発表警報・注意報はなし";

fn bulletin(city_items: &str) -> String {
    format!(
        "<?xml version=\"1.0\" encoding=\"UTF-8\"?>\n<Report>\
         <Control><Title>気象警報・注意報（Ｈ２７）</Title><DateTime>2024-05-01T01:00:00Z</DateTime>\
         <Status>通常</Status><EditorialOffice>静岡地方気象台</EditorialOffice>\
         <PublishingOffice>静岡地方気象台</PublishingOffice></Control>\
         <Head><Title>静岡県気象警報・注意報</Title><ReportDateTime>2024-05-01T10:00:00+09:00</ReportDateTime>\
         <InfoType>発表</InfoType><InfoKind>気象警報・注意報</InfoKind></Head>\
         <Body><Warning type=\"気象警報・注意報（府県予報区等）\"><Item><Kind><Name>大雨注意報</Name>\
         <Status>発表</Status></Kind><Area><Name>静岡県</Name></Area></Item></Warning>\
         <Warning type=\"{}\">{}</Warning></Body></Report>",
        CITY_TYPE, city_items
    )
}

fn kinds_of(doc: &str) -> Vec<(Option<String>, String)> {
    let data = parse_bulletin(doc, STARTED).unwrap().unwrap();
    assert_eq!(data.warnings.len(), 1);
    data.warnings[0].kinds.iter().map(|k| (k.kind_name.clone(), k.status.clone())).collect()
}

#[test]
fn control_and_head_are_read() {
    let doc = bulletin("");
    let data = parse_bulletin(&doc, STARTED).unwrap().unwrap();
    assert_eq!(data.control.title, "気象警報・注意報（Ｈ２７）");
    assert_eq!(data.control.datetime, Timestamp::new(1_714_525_200, 0));
    assert_eq!(data.control.status, "通常");
    assert_eq!(data.control.publishing_office, "静岡地方気象台");
    assert_eq!(data.head.title, "静岡県気象警報・注意報");
    assert_eq!(data.head.report_datetime, Timestamp::new(1_714_525_200, 0));
    assert_eq!(data.head.info_type, "発表");
    assert_eq!(data.head.info_kind, "気象警報・注意報");
    assert!(data.warnings.is_empty());
}

#[test]
fn named_kind_then_unnamed_status_completes_the_named_kind() {
    let doc = bulletin(
        "<Item><Kind><Name>Flood Warning</Name><Status>issued</Status></Kind>\
         <Kind><Status>canceled</Status></Kind><Area><Name>裾野市</Name></Area></Item>",
    );
    assert_eq!(kinds_of(&doc), vec![(Some("Flood Warning".to_string()), "canceled".to_string())]);
}

#[test]
fn unnamed_status_before_any_name_stands_alone() {
    let doc = bulletin(
        "<Item><Kind><Status>canceled</Status></Kind>\
         <Kind><Name>Flood Warning</Name><Status>issued</Status></Kind><Area><Name>裾野市</Name></Area></Item>",
    );
    assert_eq!(
        kinds_of(&doc),
        vec![(None, "canceled".to_string()), (Some("Flood Warning".to_string()), "issued".to_string())]
    );
    let obs = parse_vpww54(&doc, STARTED).unwrap();
    assert_eq!(obs.len(), 1);
    assert_eq!(obs[0].city, "裾野市");
    assert_eq!(obs[0].warning_kind, "Flood Warning");
    assert_eq!(obs[0].status, "issued");
}

#[test]
fn area_without_kinds_is_all_clear() {
    let doc = bulletin("<Item><Area><Name>御殿場市</Name></Area><ChangeStatus>警報・注意報種別に変化有</ChangeStatus></Item>");
    let data = parse_bulletin(&doc, STARTED).unwrap().unwrap();
    assert_eq!(data.warnings[0].area_name, "御殿場市");
    assert_eq!(data.warnings[0].change_status.as_deref(), Some("警報・注意報種別に変化有"));
    let obs = parse_vpww54(&doc, STARTED).unwrap();
    assert_eq!(obs.len(), 1);
    assert_eq!(obs[0].city, "御殿場市");
    assert_eq!(obs[0].warning_kind, "");
    assert_eq!(obs[0].status, NONE_STATUS);
}

#[test]
fn unnamed_no_warnings_kind_is_all_clear() {
    let doc = bulletin(&format!(
        "<Item><Kind><Status>{}</Status></Kind><Area><Name>裾野市</Name></Area></Item>",
        NONE_STATUS
    ));
    let obs = parse_vpww54(&doc, STARTED).unwrap();
    assert_eq!(obs.len(), 1);
    assert_eq!(obs[0].warning_kind, "");
    assert_eq!(obs[0].status, NONE_STATUS);
}

#[test]
fn other_sections_are_ignored() {
    let doc = bulletin(
        "<Item><Kind><Name>大雨警報</Name><Status>発表</Status></Kind><Kind><Name>洪水注意報</Name>\
         <Status>継続</Status></Kind><Area><Name>裾野市</Name></Area></Item>",
    );
    let obs = parse_vpww54(&doc, STARTED).unwrap();
    let got: Vec<(String, String, String)> =
        obs.into_iter().map(|o| (o.city, o.warning_kind, o.status)).collect();
    assert_eq!(
        got,
        vec![
            ("裾野市".to_string(), "大雨警報".to_string(), "発表".to_string()),
            ("裾野市".to_string(), "洪水注意報".to_string(), "継続".to_string()),
        ]
    );
}

#[test]
fn bulletin_without_head_is_unusable() {
    let doc = "<Report><Control><Title>t</Title></Control><Body></Body></Report>";
    assert!(parse_bulletin(doc, STARTED).unwrap().is_none());
    assert!(parse_vpww54(doc, STARTED).unwrap().is_empty());
}

#[test]
fn unreadable_dates_fall_back_to_start_time() {
    let doc = "<Report><Control><DateTime>soon</DateTime></Control><Head><Title>h</Title>\
               <ReportDateTime>later</ReportDateTime></Head></Report>";
    let data = parse_bulletin(doc, STARTED).unwrap().unwrap();
    assert_eq!(data.control.datetime, STARTED);
    assert_eq!(data.head.report_datetime, STARTED);
}

#[test]
fn broken_bulletin_is_an_error() {
    let doc = "<Report><Control></Report>";
    assert!(matches!(parse_vpww54(doc, STARTED), Err(WeatherCheckerError::XmlParse(_))));
    assert!(matches!(parse_bulletin(doc, STARTED), Err(WeatherCheckerError::XmlParse(_))));
}

#[test]
fn report_time_accepts_both_offsets() {
    assert_eq!(parse_report_time("2024-05-01T10:00:00+09:00"), Some(Timestamp::new(1_714_525_200, 0)));
    assert_eq!(parse_report_time("2024-05-01T01:00:00Z"), Some(Timestamp::new(1_714_525_200, 0)));
    assert_eq!(parse_report_time("nonsense"), None);
}

#[test]
fn observations_follow_document_order() {
    let data = VPWW54Data {
        control: VPWW54Control {
            title: String::new(),
            datetime: STARTED,
            status: String::new(),
            publishing_office: String::new(),
        },
        head: VPWW54Head {
            title: String::new(),
            report_datetime: STARTED,
            info_type: String::new(),
            info_kind: String::new(),
        },
        warnings: vec![
            CityWarning {
                area_name: "A".to_string(),
                change_status: None,
                kinds: vec![
                    WarningKind { kind_name: Some("k1".to_string()), status: "s1".to_string() },
                    WarningKind { kind_name: None, status: "解除".to_string() },
                    WarningKind { kind_name: None, status: NONE_STATUS.to_string() },
                ],
            },
            CityWarning { area_name: "B".to_string(), change_status: None, kinds: vec![] },
        ],
    };
    let got: Vec<(String, String, String)> =
        data.observations().into_iter().map(|o| (o.city, o.warning_kind, o.status)).collect();
    assert_eq!(
        got,
        vec![
            ("A".to_string(), "k1".to_string(), "s1".to_string()),
            ("A".to_string(), String::new(), NONE_STATUS.to_string()),
            ("B".to_string(), String::new(), NONE_STATUS.to_string()),
        ]
    );
}

#[test]
fn empty_element_tags_carry_nothing() {
    let events = vec![
        XmlEvent::Start { name: "Control".to_string(), attributes: vec![], self_closing: true },
        XmlEvent::Start { name: "Head".to_string(), attributes: vec![], self_closing: false },
        XmlEvent::Text { text: "x".to_string() },
        XmlEvent::End { name: "Head".to_string() },
    ];
    assert!(observations_from_events(&events, STARTED).is_empty());
}

#[test]
fn report_time_offset_is_written_without_colon() {
    assert_eq!(normalized_report_time("2024-05-01T10:00:00+09:00"), "2024-05-01T10:00:00+0900");
    assert_eq!(normalized_report_time("+09:00 and +09:00"), "+0900 and +0900");
    assert_eq!(normalized_report_time("2024-05-01T01:00:00Z"), "2024-05-01T01:00:00Z");
}
