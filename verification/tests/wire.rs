use openadr::program::{ProgramContent, ProgramDescription};
use openadr::report::{Confidence, ReportPayloadDescriptor};
use openadr::time::Duration;
use openadr::identifier::{string_within_range_inclusive, Identifier, IdentifierError};
use openadr::priority::Priority;
use openadr::report::{ReportContent, ReportDescriptor};
use openadr::ids::{EventId, ProgramId};
use openadr::wire_enums::{
    Attribute, DataQuality, EventType, OperatingState, ReadingType, ReportType, ResourceName, Unit,
};

#[test]
fn test_operating_state_serialization() {
    assert_eq!(OperatingState::SGDErrorCondition.as_str(), "SGD_ERROR_CONDITION");
    assert_eq!(OperatingState::Error.as_str(), "ERROR");
    assert_eq!(OperatingState::Private(String::from("something else")).as_str(), "something else");
    assert_eq!(OperatingState::from_text("NORMAL"), OperatingState::Normal);
    assert_eq!(
        OperatingState::from_text("something else"),
        OperatingState::Private(String::from("something else"))
    );
}

#[test]
fn test_data_quality_serialization() {
    assert_eq!(DataQuality::Okay.as_str(), "OK");
    assert_eq!(DataQuality::Private(String::from("something else")).as_str(), "something else");
    assert_eq!(DataQuality::from_text("MISSING"), DataQuality::Missing);
    assert_eq!(
        DataQuality::from_text("something else"),
        DataQuality::Private(String::from("something else"))
    );
}

#[test]
fn test_attribute_serialization() {
    assert_eq!(Attribute::Area.as_str(), "AREA");
    assert_eq!(Attribute::Private(String::from("something else")).as_str(), "something else");
    assert_eq!(Attribute::from_text("MAX_POWER_EXPORT"), Attribute::MaxPowerExport);
    assert_eq!(
        Attribute::from_text("something else"),
        Attribute::Private(String::from("something else"))
    );
}

#[test]
fn test_unit_serialization() {
    assert_eq!(Unit::KVARH.as_str(), "KVARH");
    assert_eq!(Unit::Private(String::from("something else")).as_str(), "something else");
    assert_eq!(Unit::from_text("CELCIUS"), Unit::Celcius);
    assert_eq!(Unit::from_text("something else"), Unit::Private(String::from("something else")));
}

#[test]
fn test_event_serialization() {
    assert_eq!(EventType::Simple.as_str(), "SIMPLE");
    assert_eq!(EventType::CTA2045Reboot.as_str(), "CTA2045_REBOOT");
    assert_eq!(EventType::from_text("GHG").unwrap(), EventType::GHG);
    assert_eq!(
        EventType::from_text("something else").unwrap(),
        EventType::Private(String::from("something else"))
    );
    assert!(EventType::from_text("").is_err());
    assert!(EventType::from_text(&"x".repeat(129)).is_err());
}

#[test]
fn test_report_type_serialization() {
    assert_eq!(ReportType::Baseline.as_str(), "BASELINE");
    assert_eq!(ReportType::RegulationSetpoint.as_str(), "REGULATION_SETPOINT");
    assert_eq!(ReportType::Private(String::from("something else")).as_str(), "something else");
    assert_eq!(ReportType::from_text("DEMAND").unwrap(), ReportType::Demand);
    assert_eq!(ReportType::from_text("EXPORT_RESERVATION_FEE").unwrap(), ReportType::ExportReservationFee);
    assert_eq!(
        ReportType::from_text("something else").unwrap(),
        ReportType::Private(String::from("something else"))
    );
    assert!(ReportType::from_text("").is_err());
    assert!(ReportType::from_text(&"x".repeat(129)).is_err());
}

#[test]
fn test_reading_type_serialization() {
    assert_eq!(ReadingType::DirectRead.as_str(), "DIRECT_READ");
    assert_eq!(ReadingType::Private(String::from("something else")).as_str(), "something else");
    assert_eq!(ReadingType::from_text("AVERAGE"), ReadingType::Average);
    assert_eq!(
        ReadingType::from_text("something else"),
        ReadingType::Private(String::from("something else"))
    );
}

#[test]
fn test_resource_name_serialization() {
    assert_eq!(ResourceName::AggregatedReport.as_str(), "AGGREGATED_REPORT");
    assert_eq!(ResourceName::Private(String::from("something else")).as_str(), "something else");
    assert_eq!(ResourceName::from_text("AGGREGATED_REPORT").unwrap(), ResourceName::AggregatedReport);
    assert_eq!(
        ResourceName::from_text("something else").unwrap(),
        ResourceName::Private(String::from("something else"))
    );
    assert!(ResourceName::from_text("").is_err());
    assert!(ResourceName::from_text(&"x".repeat(129)).is_err());
}

#[test]
fn private_text_too_long_reports_its_length() {
    assert_eq!(
        EventType::from_text(&"x".repeat(129)).unwrap_err().message(),
        "string length 129 outside of allowed range 1..=128"
    );
}

#[test]
fn deserialize_identifier() {
    assert_eq!(Identifier::parse("example-999").unwrap().as_str(), "example-999");
    assert!(Identifier::parse("þingvellir-999")
        .unwrap_err()
        .message()
        .contains("identifier contains characters besides"));

    let long = "x".repeat(128);
    assert_eq!(Identifier::parse(&long).unwrap().as_str(), long);

    let too_long = "x".repeat(129);
    assert!(Identifier::parse(&too_long)
        .unwrap_err()
        .message()
        .contains("string length 129 outside of allowed range 1..=128"));

    assert!(Identifier::parse("")
        .unwrap_err()
        .message()
        .contains("string length 0 outside of allowed range 1..=128"));
}

#[test]
fn identifier_null_is_forbidden() {
    assert_eq!(
        Identifier::parse("NuLl").unwrap_err(),
        IdentifierError::ForbiddenName(String::from("NuLl"))
    );
    assert_eq!(
        IdentifierError::ForbiddenName(String::from("null")).message(),
        "this identifier name is not allowed: null"
    );
}

#[test]
fn deserialize_string_within_range_inclusive() {
    let long = "x".repeat(128);
    assert_eq!(string_within_range_inclusive::<1, 128>(long.clone()).unwrap(), long);

    let too_long = "x".repeat(129);
    assert!(string_within_range_inclusive::<1, 128>(too_long)
        .unwrap_err()
        .message()
        .contains("string length 129 outside of allowed range 1..=128"));

    assert!(string_within_range_inclusive::<1, 128>(String::new())
        .unwrap_err()
        .message()
        .contains("string length 0 outside of allowed range 1..=128"));
}

#[test]
fn descriptor_defaults() {
    let d = ReportDescriptor::new(ReportType::Private("hello".into()));
    assert_eq!(d.payload_type, ReportType::Private("hello".into()));
    assert_eq!(d.reading_type, ReadingType::DirectRead);
    assert!(d.units.is_none() && d.targets.is_none());
    assert!(!d.aggregate);
    assert_eq!((d.start_interval, d.num_intervals, d.frequency, d.repeat), (-1, -1, -1, 1));
    assert!(d.historical);
}

#[test]
fn report_content_builders() {
    let content = ReportContent {
        object_type: None,
        program_id: ProgramId::new("p1").unwrap(),
        event_id: EventId::parse("e1").unwrap(),
        client_name: "c".to_string(),
        report_name: None,
        payload_descriptors: None,
        resources: vec![],
    };
    let named = content.with_client_name("ven-1").with_name("daily");
    assert_eq!(named.client_name, "ven-1");
    assert_eq!(named.report_name.as_deref(), Some("daily"));
    assert!(named.validate());
}

#[test]
fn priority_order() {
    assert!(Priority::unspecified().is_lower_than(&Priority::new(1000)));
    assert!(Priority::new(2).is_lower_than(&Priority::new(1)));
    assert!(!Priority::max().is_lower_than(&Priority::new(0)));
    assert_eq!(Priority::min(), Priority::unspecified());
    assert_eq!(Priority::from_db(Some(-5)), Priority::new(5));
    assert_eq!(Priority::from_db(Some(1i64 << 40)), Priority::unspecified());
    assert_eq!(Priority::new(7).to_db(), Some(7));
    assert_eq!(Priority::max().cmp(&Priority::new(3)), std::cmp::Ordering::Greater);
}

#[test]
fn priority_database_conversions() {
    assert_eq!(Option::<i64>::from(Priority::unspecified()), None);
    assert_eq!(Option::<i64>::from(Priority::new(9)), Some(9));
    assert_eq!(Priority::from(Some(-3i64)), Priority::new(3));
    assert_eq!(Priority::from(None::<i64>), Priority::unspecified());
    for p in [Priority::unspecified(), Priority::new(0), Priority::new(u32::MAX)] {
        assert_eq!(Priority::from(Option::<i64>::from(p)), p);
    }
}

#[test]
fn durations_parse() {
    assert_eq!(Duration::parse("PT1H").unwrap(), Duration::pt1h());
    assert_eq!(Duration::parse("P9999Y").unwrap(), Duration::p999y());
    assert_eq!(Duration::parse("P0Y0M0DT5H0M0S").unwrap(), Duration::hours(5.0f32.to_bits()));
    let err = Duration::parse("one hour").unwrap_err();
    assert_eq!(err.input, "one hour");
}

#[test]
fn program_descriptions_are_urls() {
    assert!(ProgramDescription { url: "https://example.com/tariff".into() }.validate());
    assert!(!ProgramDescription { url: "not a url".into() }.validate());
    let mut content = ProgramContent::new("ResTOU");
    assert!(content.validate());
    content.program_descriptions = Some(vec![ProgramDescription { url: "not a url".into() }]);
    assert!(!content.validate());
    assert_eq!(content.program_name, "ResTOU");
    assert_eq!(content.object_type, Some(openadr::wire_enums::ProgramObjectType::Program));
}

#[test]
fn confidences_are_percentages() {
    let mut d = ReportPayloadDescriptor::new(ReportType::Baseline);
    assert!(d.validate());
    d.confidence = Some(Confidence(100));
    assert!(d.validate());
    d.confidence = Some(Confidence(101));
    assert!(!d.validate());
}
