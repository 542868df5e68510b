use vstd::prelude::*;
use vstd::rwlock::{RwLock, RwLockPredicate};

use crate::binner::{all_false, all_false_spec, copy_array};
use crate::config::{AirSensorConfig, AirSensorData, NUM_SENSORS};

verus! {

/// Lock invariant of the published-state slot: every array that can be
/// stored there has the configured length, so a reader always receives a
/// fully formed array.
pub struct SensorSlotInv {}

impl RwLockPredicate<AirSensorData> for SensorSlotInv {
    open spec fn inv(self, v: AirSensorData) -> bool {
        v@.len() == NUM_SENSORS as int
    }
}

/// Lock invariant of the configuration slot: every stored configuration is
/// well-formed (positive band height).
pub struct ConfigSlotInv {}

impl RwLockPredicate<AirSensorConfig> for ConfigSlotInv {
    open spec fn inv(self, v: AirSensorConfig) -> bool {
        v.wf()
    }
}

/// One consumer-side snapshot of the shared state: the mapping parameters
/// together with the array published last.
pub struct AirSensorState {
    pub config: AirSensorConfig,
    pub visualized_sensors: AirSensorData,
}

impl AirSensorState {
    /// The configuration is acceptable and the array has the configured
    /// length.
    pub open spec fn wf(self) -> bool {
        self.config.wf() && self.visualized_sensors@.len() == NUM_SENSORS as int
    }
}

impl Default for AirSensorState {
    /// The startup snapshot: default mapping parameters and the all-released
    /// array.
    fn default() -> (r: Self)
        ensures
            r.config == AirSensorConfig::spec_default(),
            r.visualized_sensors@ == all_false_spec(),
            r.wf(),
    {
        AirSensorState { config: AirSensorConfig::default(), visualized_sensors: all_false() }
    }
}

/// The shared cell between the polling producer and the consumer thread.
///
/// The published array and the configuration live in two independently
/// synchronized slots, each guarded by a verified reader-writer lock whose
/// invariant admits only well-formed values. Every access copies the whole
/// value in or out under the lock (a short critical section, never held
/// across device or UI work), so a reader sees the array of some single
/// publication, never a mixture of two — torn reads are ruled out by
/// construction.
pub struct StateChannel {
    sensors: RwLock<AirSensorData, SensorSlotInv>,
    config: RwLock<AirSensorConfig, ConfigSlotInv>,
}

impl StateChannel {
    #[verifier::type_invariant]
    spec fn wf(self) -> bool {
        self.sensors.pred() == (SensorSlotInv {  }) && self.config.pred() == (ConfigSlotInv {  })
    }

    /// Creates the channel. The published state starts all-false; an invalid
    /// configuration is rejected here, at acceptance time, by falling back to
    /// the default mapping.
    pub fn new(config: AirSensorConfig) -> (r: Self) {
        let cfg = if config.is_valid() {
            config
        } else {
            AirSensorConfig::default()
        };
        StateChannel {
            sensors: RwLock::new(all_false(), Ghost(SensorSlotInv {  })),
            config: RwLock::new(cfg, Ghost(ConfigSlotInv {  })),
        }
    }

    /// The latest published array, copied out whole under the lock: never
    /// torn, always of the configured length. Non-blocking apart from the
    /// short copy.
    pub fn read(&self) -> (r: AirSensorData)
        ensures
            r@.len() == NUM_SENSORS as int,
    {
        proof {
            use_type_invariant(self);
        }
        let handle = self.sensors.acquire_read();
        let r = copy_array(handle.borrow());
        handle.release_read();
        r
    }

    /// Replaces the published array atomically with respect to any concurrent
    /// [`StateChannel::read`]: a reader sees the array before or after this
    /// publication, never a mixture.
    pub fn publish(&self, sensors: AirSensorData)
        requires
            sensors@.len() == NUM_SENSORS as int,
    {
        proof {
            use_type_invariant(self);
        }
        let (_, handle) = self.sensors.acquire_write();
        handle.release_write(sensors);
    }

    /// A fresh copy of the current mapping parameters, taken once per frame
    /// by the pump so a configuration replacement applies on the next frame
    /// evaluation, never mid-frame.
    pub fn get_config(&self) -> (r: AirSensorConfig)
        ensures
            r.wf(),
    {
        proof {
            use_type_invariant(self);
        }
        let handle = self.config.acquire_read();
        let c = *handle.borrow();
        handle.release_read();
        c
    }

    /// Replaces the mapping parameters for the next frame evaluation.
    /// An ill-formed configuration is rejected, and the slot keeps its
    /// previous value.
    pub fn update_config(&self, config: AirSensorConfig) -> (accepted: bool)
        ensures
            accepted == config.wf(),
    {
        if config.is_valid() {
            proof {
                use_type_invariant(self);
            }
            let (_, handle) = self.config.acquire_write();
            handle.release_write(config);
            true
        } else {
            false
        }
    }

    /// A combined consumer-side snapshot for rendering: the configuration
    /// and the latest published array, each read whole under its own lock.
    pub fn snapshot(&self) -> (r: AirSensorState)
        ensures
            r.wf(),
    {
        AirSensorState { config: self.get_config(), visualized_sensors: self.read() }
    }
}

} // verus!
