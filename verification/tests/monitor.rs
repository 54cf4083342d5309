use power_supply::DeviceDescriptor;
use power_supply::DeviceType;
use power_supply::PopulationError;
use power_supply::PowerSupply;
use power_supply::Status;
use power_supply::parse_i32;

fn battery(status: Option<&str>) -> DeviceDescriptor {
    DeviceDescriptor {
        driver: Some("battery".to_string()),
        sysname: "BAT0".to_string(),
        status: status.map(|s| s.to_string()),
        online: None,
    }
}

fn adapter(online: Option<&str>) -> DeviceDescriptor {
    DeviceDescriptor {
        driver: Some("ac".to_string()),
        sysname: "ADP1".to_string(),
        status: None,
        online: online.map(|s| s.to_string()),
    }
}

fn named(driver: Option<&str>, sysname: &str) -> DeviceDescriptor {
    DeviceDescriptor {
        driver: driver.map(|s| s.to_string()),
        sysname: sysname.to_string(),
        status: None,
        online: None,
    }
}

#[test]
fn adapter_online_values() {
    let read = |v: Option<&str>| Status::read_from_adapter_device(&adapter(v));
    assert_eq!(read(Some("0")), Status::Discharging);
    assert_eq!(read(Some("1")), Status::Charging);
    assert_eq!(read(Some("2")), Status::Charging);
    assert_eq!(read(Some("3")), Status::Unknown);
    assert_eq!(read(Some("-1")), Status::Unknown);
    assert_eq!(read(Some("+1")), Status::Charging);
    assert_eq!(read(Some("01")), Status::Charging);
    assert_eq!(read(Some("")), Status::Unknown);
    assert_eq!(read(Some("on")), Status::Unknown);
    assert_eq!(read(Some("1.0")), Status::Unknown);
    assert_eq!(read(Some(" 1")), Status::Unknown);
    assert_eq!(read(Some("2147483648")), Status::Unknown);
    assert_eq!(read(None), Status::Unknown);
}

#[test]
fn battery_status_strings() {
    let read = |v: Option<&str>| Status::read_from_battery_device(&battery(v));
    assert_eq!(read(Some("Charging")), Status::Charging);
    assert_eq!(read(Some("Discharging")), Status::Discharging);
    assert_eq!(read(Some("Not charging")), Status::Discharging);
    assert_eq!(read(Some("Full")), Status::Unknown);
    assert_eq!(read(Some("charging")), Status::Unknown);
    assert_eq!(read(Some("")), Status::Unknown);
    assert_eq!(read(None), Status::Unknown);
}

#[test]
fn decimal_parse_exact_values() {
    assert_eq!(parse_i32("0"), Some(0));
    assert_eq!(parse_i32("007"), Some(7));
    assert_eq!(parse_i32("+42"), Some(42));
    assert_eq!(parse_i32("-42"), Some(-42));
    assert_eq!(parse_i32("2147483647"), Some(i32::MAX));
    assert_eq!(parse_i32("-2147483648"), Some(i32::MIN));
    assert_eq!(parse_i32("2147483648"), None);
    assert_eq!(parse_i32("-2147483649"), None);
    assert_eq!(parse_i32("99999999999999999999"), None);
    assert_eq!(parse_i32(""), None);
    assert_eq!(parse_i32("+"), None);
    assert_eq!(parse_i32("-"), None);
    assert_eq!(parse_i32("12a"), None);
    assert_eq!(parse_i32("a12"), None);
    assert_eq!(parse_i32("1 2"), None);
}

#[test]
fn classification_primary_rule() {
    assert_eq!(named(Some("battery"), "weird").device_type(), Some(DeviceType::Battery));
    assert_eq!(named(Some("ac"), "weird").device_type(), Some(DeviceType::Adapter));
    assert_eq!(named(Some("usb"), "weird").device_type(), None);
}

#[test]
fn classification_fallback_rule() {
    assert_eq!(named(None, "BAT0").device_type(), Some(DeviceType::Battery));
    assert_eq!(named(None, "ADP1").device_type(), Some(DeviceType::Adapter));
    assert_eq!(named(None, "hidraw0").device_type(), None);
    // an unrecognised driver string also falls back to the name
    assert_eq!(named(Some("usb"), "BAT5").device_type(), Some(DeviceType::Battery));
    assert_eq!(named(Some("usb"), "ADP0").device_type(), Some(DeviceType::Adapter));
}

#[test]
fn status_labels() {
    assert_eq!(Status::Discharging.label(), "Discharging");
    assert_eq!(Status::Charging.label(), "Charging");
    assert_eq!(Status::Unknown.label(), "Unknown");
}

#[test]
fn fresh_tracker_state() {
    let ps = PowerSupply::new();
    assert_eq!(ps.charging_status(), Status::Unknown);
    assert!(!ps.is_populated());
    let ps2 = PowerSupply::default();
    assert_eq!(ps2.charging_status(), Status::Unknown);
}

#[test]
fn adapter_priority_over_battery() {
    let mut ps = PowerSupply::new();
    ps.ensure_initial_population(vec![adapter(Some("1")), battery(Some("Discharging"))])
        .unwrap();
    ps.recompute_status();
    assert_eq!(ps.charging_status(), Status::Charging);

    let mut ps = PowerSupply::new();
    ps.ensure_initial_population(vec![adapter(Some("0")), battery(Some("Charging"))])
        .unwrap();
    ps.recompute_status();
    assert_eq!(ps.charging_status(), Status::Discharging);
}

#[test]
fn battery_fallback_when_adapter_inconclusive() {
    let mut ps = PowerSupply::new();
    ps.ensure_initial_population(vec![adapter(Some("on")), battery(Some("Charging"))])
        .unwrap();
    ps.recompute_status();
    assert_eq!(ps.charging_status(), Status::Charging);

    let mut ps = PowerSupply::new();
    ps.ensure_initial_population(vec![adapter(None), battery(Some("Not charging"))])
        .unwrap();
    ps.recompute_status();
    assert_eq!(ps.charging_status(), Status::Discharging);

    let mut ps = PowerSupply::new();
    ps.ensure_initial_population(vec![adapter(None), battery(Some("Full"))]).unwrap();
    ps.recompute_status();
    assert_eq!(ps.charging_status(), Status::Unknown);
}

#[test]
fn recompute_twice_reports_no_change() {
    let mut ps = PowerSupply::new();
    ps.ensure_initial_population(vec![adapter(Some("1")), battery(Some("Discharging"))])
        .unwrap();
    ps.recompute_status();
    assert!(ps.charging_status_changed());
    ps.recompute_status();
    assert!(!ps.charging_status_changed());
    assert_eq!(ps.charging_status(), Status::Charging);
}

#[test]
fn change_detected_when_adapter_goes_offline() {
    let mut ps = PowerSupply::new();
    ps.ensure_initial_population(vec![adapter(Some("1")), battery(Some("Discharging"))])
        .unwrap();
    ps.recompute_status();
    assert_eq!(ps.charging_status(), Status::Charging);
    ps.ingest(adapter(Some("0")));
    ps.recompute_status();
    assert!(ps.charging_status_changed());
    assert_eq!(ps.charging_status(), Status::Discharging);
}

#[test]
fn population_requires_exactly_one_of_each() {
    let mut ps = PowerSupply::new();
    assert_eq!(
        ps.ensure_initial_population(vec![]),
        Err(PopulationError { batteries: 0, adapters: 0 })
    );
    assert!(!ps.is_populated());
    assert_eq!(ps.charging_status(), Status::Unknown);

    let mut ps = PowerSupply::new();
    assert_eq!(
        ps.ensure_initial_population(vec![battery(Some("Charging"))]),
        Err(PopulationError { batteries: 1, adapters: 0 })
    );

    let mut ps = PowerSupply::new();
    assert_eq!(
        ps.ensure_initial_population(vec![
            battery(Some("Charging")),
            adapter(Some("1")),
            named(None, "BAT9"),
        ]),
        Err(PopulationError { batteries: 2, adapters: 1 })
    );
    assert!(!ps.is_populated());
}

#[test]
fn population_ignores_irrelevant_devices() {
    let mut ps = PowerSupply::new();
    ps.ensure_initial_population(vec![
        named(None, "hidraw0"),
        adapter(Some("1")),
        battery(Some("Discharging")),
    ])
    .unwrap();
    assert!(ps.is_populated());
}

#[test]
fn population_is_one_time() {
    let mut ps = PowerSupply::new();
    ps.ensure_initial_population(vec![adapter(Some("1")), battery(Some("Discharging"))])
        .unwrap();
    // once populated, a later call ignores its argument entirely
    assert_eq!(ps.ensure_initial_population(vec![]), Ok(()));
    assert!(ps.is_populated());
}

#[test]
fn unclassifiable_event_is_ignored() {
    let mut ps = PowerSupply::new();
    ps.ensure_initial_population(vec![adapter(Some("1")), battery(Some("Discharging"))])
        .unwrap();
    ps.recompute_status();
    ps.update(vec![named(None, "hidraw0")]);
    assert_eq!(ps.charging_status(), Status::Charging);
    assert!(!ps.charging_status_changed());
}

#[test]
fn end_to_end_scenario() {
    let mut ps = PowerSupply::new();
    ps.ensure_initial_population(vec![adapter(Some("1")), battery(Some("Discharging"))])
        .unwrap();
    ps.recompute_status();
    assert_eq!(ps.charging_status(), Status::Charging);
    assert!(ps.charging_status_changed());

    ps.update(vec![adapter(Some("0"))]);
    assert_eq!(ps.charging_status(), Status::Discharging);
    assert!(ps.charging_status_changed());

    ps.update(vec![]);
    assert_eq!(ps.charging_status(), Status::Discharging);
    assert!(!ps.charging_status_changed());
}
