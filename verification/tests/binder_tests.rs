use scanmap::binder::{popup_html, MapBinder};
use scanmap::scan::{Scan, ScanRegistry};

fn scan(id: &str, name: &str, lat: i64, lon: i64) -> Scan {
    Scan { id: String::from(id), name: String::from(name), lat_micro: lat, lon_micro: lon }
}

#[test]
fn popup_references_the_object() {
    assert_eq!(
        popup_html("abc123"),
        "<img src=\"https://drive.google.com/uc?id=abc123\" width=\"100\">"
    );
}

#[test]
fn sync_places_each_scan_once() {
    let mut registry = ScanRegistry::new();
    registry.append(scan("a", "one.jpg", 19_076_000, 72_877_700));
    registry.append(scan("b", "two.jpg", 1_000_000, 2_000_000));

    let mut binder = MapBinder::new();
    let markers = binder.sync(&registry);
    assert_eq!(markers.len(), 2);
    assert_eq!(markers[0].lat_micro, 19_076_000);
    assert_eq!(markers[0].lon_micro, 72_877_700);
    assert_eq!(
        markers[0].popup_html,
        "<img src=\"https://drive.google.com/uc?id=a\" width=\"100\">"
    );
    assert_eq!(markers[1].popup_html, popup_html("b"));
}

#[test]
fn replaying_the_snapshot_adds_no_marker() {
    let mut registry = ScanRegistry::new();
    registry.append(scan("a", "one.jpg", 1, 2));
    registry.append(scan("b", "two.jpg", 3, 4));

    let mut binder = MapBinder::new();
    let first = binder.sync(&registry);
    assert_eq!(first.len(), 2);
    let second = binder.sync(&registry);
    assert_eq!(second.len(), 0);

    registry.append(scan("c", "three.jpg", 5, 6));
    let third = binder.sync(&registry);
    assert_eq!(third.len(), 1);
    assert_eq!(third[0].popup_html, popup_html("c"));
}

#[test]
fn duplicate_identifiers_are_placed_once() {
    let mut registry = ScanRegistry::new();
    registry.append(scan("a", "one.jpg", 1, 2));
    registry.append(scan("a", "one.jpg", 1, 2));
    let mut binder = MapBinder::new();
    let markers = binder.sync(&registry);
    assert_eq!(markers.len(), 1);
}

#[test]
fn registry_keeps_insertion_order_and_duplicates() {
    let mut registry = ScanRegistry::new();
    assert_eq!(registry.len(), 0);
    registry.append(scan("x", "a.jpg", 1, 2));
    registry.append(scan("y", "b.jpg", 3, 4));
    registry.append(scan("x", "a.jpg", 1, 2));
    assert_eq!(registry.len(), 3);
    assert_eq!(registry.get(0).id, "x");
    assert_eq!(registry.get(1).id, "y");
    assert_eq!(registry.get(2).id, "x");

    let snap = registry.snapshot();
    assert_eq!(snap.len(), 3);
    assert_eq!(snap[1].name, "b.jpg");
    assert_eq!(snap[2].lat_micro, 1);
}
