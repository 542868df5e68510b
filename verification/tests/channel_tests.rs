use chuni_leap::channel::{AirSensorState, StateChannel};
use chuni_leap::config::{AirSensorConfig, NUM_SENSORS};

fn valid_config() -> AirSensorConfig {
    AirSensorConfig { base_height: 50_000, step_height: 10_000, check_fingers: false }
}

#[test]
fn fresh_channel_reads_all_false() {
    let ch = StateChannel::new(valid_config());
    assert_eq!(ch.read(), vec![false; NUM_SENSORS]);
}

#[test]
fn read_returns_the_last_published_array() {
    // Sequential publish/read interleaving: every read sees exactly the
    // array of the latest publish, whole.
    let ch = StateChannel::new(valid_config());
    let published = [
        vec![true, false, false, false, false, false],
        vec![true, true, false, false, true, false],
        vec![false; 6],
        vec![true; 6],
    ];
    for array in &published {
        ch.publish(array.clone());
        assert_eq!(&ch.read(), array);
    }
}

#[test]
fn channel_keeps_the_accepted_config() {
    let ch = StateChannel::new(valid_config());
    let got = ch.get_config();
    assert_eq!(got.base_height, 50_000);
    assert_eq!(got.step_height, 10_000);
    assert!(!got.check_fingers);
}

#[test]
fn invalid_startup_config_falls_back_to_default() {
    let mut bad = valid_config();
    bad.step_height = 0;
    let ch = StateChannel::new(bad);
    let got = ch.get_config();
    assert_eq!(got.base_height, 100_000);
    assert_eq!(got.step_height, 25_000);
}

#[test]
fn update_config_replaces_the_slot() {
    let ch = StateChannel::new(AirSensorConfig::default());
    assert!(ch.update_config(valid_config()));
    assert_eq!(ch.get_config().base_height, 50_000);
}

#[test]
fn invalid_config_update_is_rejected() {
    let ch = StateChannel::new(valid_config());
    let mut bad = valid_config();
    bad.step_height = -1;
    assert!(!ch.update_config(bad));
    // The slot keeps its previous value.
    assert_eq!(ch.get_config().step_height, 10_000);
}

#[test]
fn snapshot_combines_config_and_state() {
    let ch = StateChannel::new(valid_config());
    ch.publish(vec![false, false, true, false, false, false]);
    let snap = ch.snapshot();
    assert_eq!(snap.config.base_height, 50_000);
    assert_eq!(snap.visualized_sensors, vec![false, false, true, false, false, false]);
}

#[test]
fn default_snapshot_is_released_under_default_config() {
    let snap = AirSensorState::default();
    assert_eq!(snap.config.base_height, 100_000);
    assert_eq!(snap.config.step_height, 25_000);
    assert_eq!(snap.visualized_sensors, vec![false; NUM_SENSORS]);
}
