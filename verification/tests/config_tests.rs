use chuni_leap::config::AirSensorConfig;
use chuni_leap::frame::Point3;

fn pt(y: i64) -> Point3 {
    Point3 { x: 0, y, z: 0 }
}

fn reference_config() -> AirSensorConfig {
    AirSensorConfig { base_height: 100_000, step_height: 25_000, check_fingers: true }
}

#[test]
fn boundary_on_band_edge_maps_up() {
    // Height exactly 125 mm sits on the boundary between bands 0 and 1 and
    // belongs to the upper band.
    let c = reference_config();
    assert_eq!(c.sensor_index(&pt(125_000)), Some(1));
}

#[test]
fn boundary_just_below_edge_maps_down() {
    // 124.999 mm is still inside band 0.
    let c = reference_config();
    assert_eq!(c.sensor_index(&pt(124_999)), Some(0));
}

#[test]
fn below_base_is_no_band() {
    // 99.999 mm lies below the stack.
    let c = reference_config();
    assert_eq!(c.sensor_index(&pt(99_999)), None);
}

#[test]
fn top_boundary_is_no_band() {
    // 250 mm is exactly the top boundary of band 5: index 6 is out of range.
    let c = reference_config();
    assert_eq!(c.sensor_index(&pt(250_000)), None);
}

#[test]
fn base_height_is_band_zero() {
    let c = reference_config();
    assert_eq!(c.sensor_index(&pt(100_000)), Some(0));
}

#[test]
fn highest_in_range_height_is_band_five() {
    let c = reference_config();
    assert_eq!(c.sensor_index(&pt(249_999)), Some(5));
}

#[test]
fn negative_heights_are_excluded() {
    let c = reference_config();
    assert_eq!(c.sensor_index(&pt(-1_000_000)), None);
}

#[test]
fn default_config_matches_reference_mapping() {
    let c = AirSensorConfig::default();
    assert_eq!(c.base_height, 100_000);
    assert_eq!(c.step_height, 25_000);
    assert!(c.check_fingers);
}

#[test]
fn zero_or_negative_step_is_invalid() {
    let mut c = reference_config();
    assert!(c.is_valid());
    c.step_height = 0;
    assert!(!c.is_valid());
    c.step_height = -5;
    assert!(!c.is_valid());
}
