//! The controller models of the Motoron family and how many motor channels each drives.

use vstd::prelude::*;

verus! {

/// The controller type being worked on.
#[derive(Debug, Clone, Copy, PartialEq, Eq, Hash, Structural)]
pub enum ControllerType {
    M1T550,
    M1U550,
    M2T550,
    M2U550,
    M1T256,
    M1U256,
    M2T256,
    M2U256,
    M3S550,
    M3H550,
    M3S256,
    M3H256,
    M2S24v14,
    M2H24v14,
    M2S24v16,
    M2H24v16,
    M2S18v18,
    M2H18v18,
    M2S18v20,
    M2H18v20,
}

/// The number of motor channels of a model: the digit after the `M` of its name.
pub open spec fn channels_of(t: ControllerType) -> u8 {
    match t {
        ControllerType::M1T550 | ControllerType::M1U550 | ControllerType::M1T256
        | ControllerType::M1U256 => 1,
        ControllerType::M3S550 | ControllerType::M3H550 | ControllerType::M3S256
        | ControllerType::M3H256 => 3,
        _ => 2,
    }
}

impl ControllerType {
    /// How many motor channels this controller supports, from 1 to 3.
    pub fn motor_channels(&self) -> (r: u8)
        ensures
            r == channels_of(*self),
            1 <= r <= 3,
    {
        match self {
            ControllerType::M1T550
            | ControllerType::M1U550
            | ControllerType::M1T256
            | ControllerType::M1U256 => 1,
            ControllerType::M2T550
            | ControllerType::M2U550
            | ControllerType::M2T256
            | ControllerType::M2U256
            | ControllerType::M2S24v14
            | ControllerType::M2H24v14
            | ControllerType::M2S24v16
            | ControllerType::M2H24v16
            | ControllerType::M2S18v18
            | ControllerType::M2H18v18
            | ControllerType::M2S18v20
            | ControllerType::M2H18v20 => 2,
            ControllerType::M3S550
            | ControllerType::M3H550
            | ControllerType::M3S256
            | ControllerType::M3H256 => 3,
        }
    }
}

} // verus!
