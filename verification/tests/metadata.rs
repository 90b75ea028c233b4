use hass_collector::metadata::find_latest;
use hass_collector::{Area, Device, Entity, MetadataTree};

fn area(id: &str, name: &str) -> Area {
    Area { id: id.to_string(), name: name.to_string() }
}

fn device(id: &str, name: &str, area_id: Option<&str>) -> Device {
    Device { id: id.to_string(), name: name.to_string(), area_id: area_id.map(str::to_string) }
}

fn entity(id: &str, device_id: Option<&str>) -> Entity {
    Entity {
        entity_id: id.to_string(),
        device_id: device_id.map(str::to_string),
        name: None,
        original_name: None,
    }
}

#[test]
fn full_chain_resolves() {
    let tree = MetadataTree::new(
        vec![area("a1", "Living Room")],
        vec![device("d1", "Living Room Sensor", Some("a1"))],
        vec![entity("sensor.temp", Some("d1"))],
    );
    let found = tree.find("sensor.temp").unwrap();
    assert_eq!(found.entity.entity_id, "sensor.temp");
    assert_eq!(found.device.name, "Living Room Sensor");
    assert_eq!(found.area.unwrap().name, "Living Room");
}

#[test]
fn missing_area_record_leaves_area_empty() {
    let tree = MetadataTree::new(
        vec![area("other", "Attic")],
        vec![device("d1", "Sensor", Some("a1"))],
        vec![entity("sensor.temp", Some("d1"))],
    );
    let found = tree.find("sensor.temp").unwrap();
    assert_eq!(found.entity.entity_id, "sensor.temp");
    assert_eq!(found.device.id, "d1");
    assert!(found.area.is_none());
}

#[test]
fn device_without_area_leaves_area_empty() {
    let tree = MetadataTree::new(
        vec![area("a1", "Living Room")],
        vec![device("d1", "Sensor", None)],
        vec![entity("sensor.temp", Some("d1"))],
    );
    let found = tree.find("sensor.temp").unwrap();
    assert_eq!(found.device.name, "Sensor");
    assert!(found.area.is_none());
}

#[test]
fn dangling_device_is_not_found() {
    let tree = MetadataTree::new(
        vec![area("a1", "Living Room")],
        vec![device("d2", "Other", Some("a1"))],
        vec![entity("sensor.temp", Some("d1"))],
    );
    assert!(tree.find("sensor.temp").is_none());
}

#[test]
fn entity_without_device_is_not_found() {
    let tree = MetadataTree::new(vec![], vec![device("d1", "Sensor", None)], vec![entity("sensor.temp", None)]);
    assert!(tree.find("sensor.temp").is_none());
}

#[test]
fn unknown_entity_is_not_found() {
    let tree = MetadataTree::new(vec![], vec![device("d1", "Sensor", None)], vec![entity("sensor.temp", Some("d1"))]);
    assert!(tree.find("sensor.humidity").is_none());
    assert!(tree.find("").is_none());
    let empty = MetadataTree::new(vec![], vec![], vec![]);
    assert!(empty.find("sensor.temp").is_none());
}

#[test]
fn later_record_replaces_earlier_one_with_the_same_key() {
    let tree = MetadataTree::new(
        vec![area("a1", "Old"), area("a1", "New")],
        vec![device("d1", "First", Some("a1")), device("d1", "Second", Some("a1")), device("d2", "Else", None)],
        vec![entity("sensor.temp", Some("d2")), entity("sensor.temp", Some("d1"))],
    );
    let found = tree.find("sensor.temp").unwrap();
    assert_eq!(found.device.name, "Second");
    assert_eq!(found.area.unwrap().name, "New");
}

#[test]
fn find_latest_scans_by_key() {
    let areas = vec![area("x", "1"), area("y", "2"), area("x", "3")];
    assert_eq!(find_latest(&areas, "x").unwrap().name, "3");
    assert_eq!(find_latest(&areas, "y").unwrap().name, "2");
    assert!(find_latest(&areas, "z").is_none());
}
