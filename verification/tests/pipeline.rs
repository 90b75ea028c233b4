use hass_collector::pipeline::{enrich, parse_instant, process, queue_capacity};
use hass_collector::{
    Area, DefaultFilter, Device, Entity, EntityFilter, Event, IndividualEntityFilter, Instant, MetadataTree,
    NumericForms, Point, Severity, Skip, State,
};

const STAMP: &str = "2024-01-01T00:00:00+00:00";

fn forms(text: &str) -> NumericForms {
    NumericForms {
        float: text.parse::<f64>().ok().map(f64::to_bits),
        integer: text.parse::<i64>().ok().map(|v| (v as f64).to_bits()),
    }
}

fn state(id: &str, text: &str, stamp: &str, class: Option<&str>) -> State {
    State {
        entity_id: id.to_string(),
        state: text.to_string(),
        numeric: forms(text),
        last_updated: stamp.to_string(),
        device_class: class.map(str::to_string),
    }
}

fn event(id: &str, text: &str, stamp: &str, class: Option<&str>) -> Event {
    Event { entity_id: id.to_string(), new_state: Some(state(id, text, stamp, class)) }
}

fn living_room() -> MetadataTree {
    MetadataTree::new(
        vec![Area { id: "a1".to_string(), name: "Living Room".to_string() }],
        vec![Device { id: "d1".to_string(), name: "Living Room Sensor".to_string(), area_id: Some("a1".to_string()) }],
        vec![Entity {
            entity_id: "sensor.temp".to_string(),
            device_id: Some("d1".to_string()),
            name: None,
            original_name: None,
        }],
    )
}

fn no_rules() -> EntityFilter {
    EntityFilter::new(Vec::new())
}

fn tags(point: &Point) -> Vec<(String, String)> {
    point.tags.iter().map(|t| (t.key.clone(), t.value.clone())).collect()
}

fn pair(key: &str, value: &str) -> (String, String) {
    (key.to_string(), value.to_string())
}

#[test]
fn rfc3339_is_read_to_seconds_and_nanos() {
    assert_eq!(parse_instant("2024-01-01T00:00:00Z"), Some(Instant { seconds: 1704067200, nanos: 0 }));
    assert_eq!(
        parse_instant("2024-01-01T01:00:00.5+01:00"),
        Some(Instant { seconds: 1704067200, nanos: 500_000_000 })
    );
    assert_eq!(parse_instant("1969-12-31T23:59:59Z"), Some(Instant { seconds: -1, nanos: 0 }));
}

#[test]
fn other_text_is_no_timestamp() {
    assert_eq!(parse_instant("yesterday"), None);
    assert_eq!(parse_instant(""), None);
    assert_eq!(parse_instant("2024-01-01"), None);
    assert_eq!(parse_instant("1704067200"), None);
}

#[test]
fn queue_holds_two_payloads_per_worker() {
    assert_eq!(queue_capacity(0), 0);
    assert_eq!(queue_capacity(1), 2);
    assert_eq!(queue_capacity(255), 510);
}

#[test]
fn temperature_event_becomes_a_point() {
    let ev = event("sensor.temp", "21.5", STAMP, Some("temperature"));
    let point = process(&ev, DefaultFilter::Allow, &no_rules(), &living_room()).unwrap();
    assert_eq!(point.measurement, "hass:sensor");
    assert_eq!(f64::from_bits(point.value.bits()), 21.5);
    assert_eq!(point.timestamp, Instant { seconds: 1704067200, nanos: 0 });
    assert_eq!(
        tags(&point),
        vec![
            pair("entity.id", "sensor.temp"),
            pair("device.name", "Living Room Sensor"),
            pair("device.area", "Living Room"),
            pair("device.class", "temperature"),
        ]
    );
}

#[test]
fn event_without_metadata_is_skipped() {
    let ev = event("sensor.temp", "21.5", STAMP, Some("temperature"));
    let empty = MetadataTree::new(vec![], vec![], vec![]);
    assert_eq!(process(&ev, DefaultFilter::Allow, &no_rules(), &empty).unwrap_err(), Skip::MetadataNotFound);
    let next = event("sensor.temp", "22", STAMP, None);
    assert!(process(&next, DefaultFilter::Allow, &no_rules(), &living_room()).is_ok());
}

#[test]
fn entity_name_is_tagged_where_known() {
    let tree = |name: Option<&str>, original: Option<&str>| {
        MetadataTree::new(
            vec![],
            vec![Device { id: "d1".to_string(), name: "Plug".to_string(), area_id: None }],
            vec![Entity {
                entity_id: "switch.plug".to_string(),
                device_id: Some("d1".to_string()),
                name: name.map(str::to_string),
                original_name: original.map(str::to_string),
            }],
        )
    };
    let ev = event("switch.plug", "on", STAMP, None);
    let both = process(&ev, DefaultFilter::Allow, &no_rules(), &tree(Some("Desk"), Some("Plug 1"))).unwrap();
    assert_eq!(both.measurement, "hass:switch");
    assert_eq!(f64::from_bits(both.value.bits()), 1.0);
    assert_eq!(
        tags(&both),
        vec![pair("entity.id", "switch.plug"), pair("device.name", "Plug"), pair("entity.name", "Desk")]
    );
    let original = process(&ev, DefaultFilter::Allow, &no_rules(), &tree(None, Some("Plug 1"))).unwrap();
    assert_eq!(
        tags(&original),
        vec![pair("entity.id", "switch.plug"), pair("device.name", "Plug"), pair("entity.name", "Plug 1")]
    );
    let neither = process(&ev, DefaultFilter::Allow, &no_rules(), &tree(None, None)).unwrap();
    assert_eq!(tags(&neither), vec![pair("entity.id", "switch.plug"), pair("device.name", "Plug")]);
}

#[test]
fn policy_and_rules_decide_admission() {
    let ev = event("sensor.temp", "21.5", STAMP, None);
    let sensors = EntityFilter::new(vec![IndividualEntityFilter::new("sensor", None).unwrap()]);
    let tree = living_room();
    assert!(process(&ev, DefaultFilter::Deny, &sensors, &tree).is_ok());
    assert_eq!(process(&ev, DefaultFilter::Deny, &no_rules(), &tree).unwrap_err(), Skip::Filtered);
    assert_eq!(process(&ev, DefaultFilter::Allow, &sensors, &tree).unwrap_err(), Skip::Filtered);
    assert!(process(&ev, DefaultFilter::Allow, &no_rules(), &tree).is_ok());
}

#[test]
fn event_without_new_state_is_skipped() {
    let ev = Event { entity_id: "sensor.temp".to_string(), new_state: None };
    assert_eq!(process(&ev, DefaultFilter::Allow, &no_rules(), &living_room()).unwrap_err(), Skip::MissingState);
}

#[test]
fn state_with_undotted_identifier_is_skipped() {
    let ev = Event { entity_id: "sensor.temp".to_string(), new_state: Some(state("sensortemp", "1", "bad", None)) };
    assert_eq!(process(&ev, DefaultFilter::Allow, &no_rules(), &living_room()).unwrap_err(), Skip::InvalidEntityId);
}

#[test]
fn bad_timestamp_is_skipped_before_the_lookup() {
    let ev = event("sensor.unknown", "zzz", "not a time", None);
    assert_eq!(process(&ev, DefaultFilter::Allow, &no_rules(), &living_room()).unwrap_err(), Skip::InvalidTimestamp);
}

#[test]
fn missing_metadata_is_reported_before_the_value() {
    let ev = event("sensor.unknown", "zzz", STAMP, None);
    assert_eq!(process(&ev, DefaultFilter::Allow, &no_rules(), &living_room()).unwrap_err(), Skip::MetadataNotFound);
}

#[test]
fn non_numeric_state_is_skipped() {
    let ev = event("sensor.temp", "unavailable", STAMP, None);
    assert_eq!(process(&ev, DefaultFilter::Allow, &no_rules(), &living_room()).unwrap_err(), Skip::NotNumeric);
}

#[test]
fn enrich_takes_the_timestamp_as_given() {
    let st = state("sensor.temp", "off", "ignored here", None);
    let at = Instant { seconds: 12, nanos: 34 };
    let point = enrich(&st, Some(at), &living_room()).unwrap();
    assert_eq!(point.timestamp, at);
    assert_eq!(f64::from_bits(point.value.bits()), 0.0);
    assert_eq!(enrich(&st, None, &living_room()).unwrap_err(), Skip::InvalidTimestamp);
}

#[test]
fn filter_reads_the_event_identifier_and_enrichment_the_state_identifier() {
    let ev = Event { entity_id: "switch.other".to_string(), new_state: Some(state("sensor.temp", "3", STAMP, None)) };
    let switches = EntityFilter::new(vec![IndividualEntityFilter::new("switch", None).unwrap()]);
    let point = process(&ev, DefaultFilter::Deny, &switches, &living_room()).unwrap();
    assert_eq!(point.measurement, "hass:sensor");
}

#[test]
fn instant_in_nanoseconds() {
    assert_eq!(Instant { seconds: 1704067200, nanos: 500_000_000 }.unix_nanos(), 1_704_067_200_500_000_000);
    assert_eq!(Instant { seconds: -1, nanos: 1 }.unix_nanos(), -999_999_999);
    assert_eq!(Instant { seconds: i64::MAX, nanos: u32::MAX }.unix_nanos(), 9_223_372_036_854_775_807_000_000_000 + 4_294_967_295);
}

#[test]
fn skips_are_reported_by_severity() {
    assert_eq!(Skip::Filtered.severity(), Severity::Debug);
    assert_eq!(Skip::MissingState.severity(), Severity::Warning);
    assert_eq!(Skip::InvalidEntityId.severity(), Severity::Warning);
    assert_eq!(Skip::InvalidTimestamp.severity(), Severity::Error);
    assert_eq!(Skip::MetadataNotFound.severity(), Severity::Warning);
    assert_eq!(Skip::NotNumeric.severity(), Severity::Warning);
}

#[test]
fn skips_have_their_texts() {
    assert_eq!(Skip::Filtered.message(), "Did not match filter");
    assert_eq!(Skip::MissingState.message(), "New state missing");
    assert_eq!(Skip::InvalidEntityId.message(), "Invalid entity ID");
    assert_eq!(Skip::InvalidTimestamp.message(), "Failed to parse timestamp");
    assert_eq!(Skip::MetadataNotFound.message(), "Metadata not found");
    assert_eq!(Skip::NotNumeric.message(), "Failed to parse numerical value from state");
}
