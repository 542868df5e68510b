use vstd::prelude::*;

use crate::binner::{all_false_spec, evaluate, evaluate_spec};
use crate::channel::StateChannel;
use crate::config::{AirSensorConfig, AirSensorData};
use crate::frame::Frame;
use crate::gate::{gate_publishes, ChangeGate};

verus! {

/// One outcome of waiting on the tracking device, as the pump's decision
/// logic sees it.
pub enum TrackingEvent {
    /// A tracking frame arrived.
    Tracking(Frame),
    /// The device announced itself; nothing to compute.
    DeviceConnected,
    /// The device became unavailable mid-session. Must be surfaced, and the
    /// published state held at its last value, not reset.
    DeviceLost,
    /// The bounded wait elapsed with no event: not an error, the loop simply
    /// continues.
    Timeout,
    /// Any other event type, ignored.
    Other,
}

/// What the surrounding poll loop must do after one decision step.
#[derive(Clone, Copy)]
pub struct PumpSignals {
    /// A changed state was published: wake the consumer (redraw).
    pub notify: bool,
    /// The device was lost: report it. The published state is left alone, so
    /// a momentary dropout never registers as "all sensors released".
    pub device_lost: bool,
}

/// The decision core of the polling loop: holds the change gate between
/// frames and turns each tracking event into at most one publication and one
/// consumer notification. The blocking device wait itself lives with the
/// caller, which hands every outcome in as a [`TrackingEvent`].
pub struct FramePump {
    gate: ChangeGate,
}

impl FramePump {
    /// The candidate array computed from the last tracking frame (the change
    /// detector's memory); all-false until a first frame arrives.
    pub closed spec fn current(self) -> Seq<bool> {
        self.gate.last_view()
    }

    pub fn new() -> (r: Self)
        ensures
            r.current() == all_false_spec(),
    {
        FramePump { gate: ChangeGate::new() }
    }

    /// The decision on one tracking frame under a fixed configuration
    /// snapshot: computes the frame's sensor array, feeds it through the
    /// change detector, and returns the array to publish — present exactly
    /// when the state actually changed, so an unchanged state is never
    /// republished and no change is ever withheld.
    pub fn handle_frame(&mut self, config: &AirSensorConfig, frame: &Frame) -> (publish: Option<
        AirSensorData,
    >)
        requires
            config.wf(),
        ensures
            final(self).current() == evaluate_spec(*frame, *config),
            (publish is Some) == gate_publishes(
                old(self).current(),
                evaluate_spec(*frame, *config),
            ),
            publish matches Some(a) ==> a@ == evaluate_spec(*frame, *config),
    {
        let candidate = evaluate(frame, config);
        let changed = self.gate.submit(&candidate);
        if changed {
            Some(candidate)
        } else {
            None
        }
    }

    /// One full pump cycle against the shared channel. On a tracking frame it
    /// takes a fresh configuration snapshot, evaluates, publishes any changed
    /// state, and asks for exactly one notification per actual change. On
    /// device loss it only reports the loss: the state is held. Timeouts and
    /// other events change nothing.
    pub fn pump_cycle(&mut self, channel: &StateChannel, event: &TrackingEvent) -> (r: PumpSignals)
        ensures
            r.device_lost == (event is DeviceLost),
            !(event is Tracking) ==> final(self).current() == old(self).current() && !r.notify,
            event matches TrackingEvent::Tracking(frame) ==> exists|c: AirSensorConfig|
                #[trigger] c.wf() && final(self).current() == evaluate_spec(*frame, c) && r.notify
                    == gate_publishes(old(self).current(), evaluate_spec(*frame, c)),
    {
        match event {
            TrackingEvent::Tracking(frame) => {
                let config = channel.get_config();
                let publish = self.handle_frame(&config, frame);
                match publish {
                    Some(arr) => {
                        channel.publish(arr);
                        PumpSignals { notify: true, device_lost: false }
                    },
                    None => PumpSignals { notify: false, device_lost: false },
                }
            },
            TrackingEvent::DeviceLost => PumpSignals { notify: false, device_lost: true },
            _ => PumpSignals { notify: false, device_lost: false },
        }
    }
}

} // verus!
