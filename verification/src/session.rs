//! Motor session: the façade that binds one device identity and one set of
//! configuration defaults.
//!
//! The physical channel (the transport that carries the register reads and
//! writes) is owned by the caller and is re-addressed to `slave_id` before
//! every operation; a session therefore never aliases the channel, it only
//! says — exactly — which registers each operation touches. Ownership of
//! the channel moves between sessions by consuming transfer, never by
//! sharing.

use vstd::prelude::*;

use crate::sequence::{RegWrite, init_writes, spec_init_writes};
use crate::types::StepperConfig;

verus! {

/// One addressed device on the shared bus, with its configuration
/// defaults.
#[derive(Debug, Clone)]
pub struct MotorSession {
    /// The device identity every operation of this session is addressed to.
    pub slave_id: u8,
    /// The configuration the initialization sequence is derived from.
    pub config: StepperConfig,
}

impl MotorSession {
    /// Bind a session to the device named by the configuration.
    pub fn new(config: StepperConfig) -> (r: Self)
        ensures
            r.slave_id == config.slave_id,
            r.config == config,
    {
        let slave_id = config.slave_id;
        MotorSession { slave_id, config }
    }

    /// The minimal bring-up sequence for this session's device, derived
    /// from the stored defaults: pulses per revolution, direction, peak
    /// current, inductance, in that fixed order.
    pub fn init_writes(&self) -> (r: Vec<RegWrite>)
        ensures
            r@ == spec_init_writes(self.config),
    {
        init_writes(&self.config)
    }
}

} // verus!
