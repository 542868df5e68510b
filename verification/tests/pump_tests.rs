use chuni_leap::channel::StateChannel;
use chuni_leap::config::{AirSensorConfig, NUM_SENSORS};
use chuni_leap::frame::{Frame, Hand, Point3};
use chuni_leap::pump::{FramePump, TrackingEvent};

fn cfg() -> AirSensorConfig {
    AirSensorConfig { base_height: 100_000, step_height: 25_000, check_fingers: true }
}

fn one_hand_frame(palm_y: i64) -> Frame {
    Frame {
        hands: vec![Hand { palm: Point3 { x: 0, y: palm_y, z: 0 }, digit_joints: vec![] }],
    }
}

#[test]
fn tracking_frame_publishes_and_notifies() {
    let ch = StateChannel::new(cfg());
    let mut pump = FramePump::new();
    let signals = pump.pump_cycle(&ch, &TrackingEvent::Tracking(one_hand_frame(130_000)));
    assert!(signals.notify);
    assert!(!signals.device_lost);
    assert_eq!(ch.read(), vec![false, true, false, false, false, false]);
}

#[test]
fn identical_frame_notifies_only_once() {
    let ch = StateChannel::new(cfg());
    let mut pump = FramePump::new();
    let first = pump.pump_cycle(&ch, &TrackingEvent::Tracking(one_hand_frame(130_000)));
    let second = pump.pump_cycle(&ch, &TrackingEvent::Tracking(one_hand_frame(130_000)));
    assert!(first.notify);
    assert!(!second.notify);
}

#[test]
fn unchanged_state_is_not_republished() {
    // The publication path depends only on whether the state changed:
    // a frame reproducing the current all-false state publishes nothing.
    let ch = StateChannel::new(cfg());
    let mut pump = FramePump::new();
    let far_away = one_hand_frame(1_000_000);
    let signals = pump.pump_cycle(&ch, &TrackingEvent::Tracking(far_away));
    assert!(!signals.notify);
    assert_eq!(ch.read(), vec![false; NUM_SENSORS]);
}

#[test]
fn device_loss_is_reported_and_state_is_held() {
    let ch = StateChannel::new(cfg());
    let mut pump = FramePump::new();
    pump.pump_cycle(&ch, &TrackingEvent::Tracking(one_hand_frame(130_000)));
    let before = ch.read();
    let signals = pump.pump_cycle(&ch, &TrackingEvent::DeviceLost);
    assert!(signals.device_lost);
    assert!(!signals.notify);
    // The published array is held at its last value, not reset to all-false.
    assert_eq!(ch.read(), before);
}

#[test]
fn timeout_and_other_events_change_nothing() {
    let ch = StateChannel::new(cfg());
    let mut pump = FramePump::new();
    pump.pump_cycle(&ch, &TrackingEvent::Tracking(one_hand_frame(130_000)));
    let before = ch.read();
    for event in [TrackingEvent::Timeout, TrackingEvent::DeviceConnected, TrackingEvent::Other] {
        let signals = pump.pump_cycle(&ch, &event);
        assert!(!signals.notify);
        assert!(!signals.device_lost);
        assert_eq!(ch.read(), before);
    }
}

#[test]
fn config_replacement_applies_on_the_next_frame() {
    let ch = StateChannel::new(cfg());
    let mut pump = FramePump::new();
    pump.pump_cycle(&ch, &TrackingEvent::Tracking(one_hand_frame(130_000)));
    assert_eq!(ch.read(), vec![false, true, false, false, false, false]);

    // Shift the band origin; the same palm height now lands in band 3.
    let mut moved = cfg();
    moved.base_height = 40_000;
    assert!(ch.update_config(moved));
    let signals = pump.pump_cycle(&ch, &TrackingEvent::Tracking(one_hand_frame(130_000)));
    assert!(signals.notify);
    assert_eq!(ch.read(), vec![false, false, false, true, false, false]);
}

#[test]
fn empty_frame_after_a_hit_publishes_the_release()
{
    let ch = StateChannel::new(cfg());
    let mut pump = FramePump::new();
    pump.pump_cycle(&ch, &TrackingEvent::Tracking(one_hand_frame(130_000)));
    let signals = pump.pump_cycle(&ch, &TrackingEvent::Tracking(Frame { hands: vec![] }));
    assert!(signals.notify);
    assert_eq!(ch.read(), vec![false; NUM_SENSORS]);
}
