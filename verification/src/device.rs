use vstd::prelude::*;

use crate::error::SignalError;

verus! {

/// The smallest device id a Signal address may carry.
pub const MIN_DEVICE_ID: u32 = 1;

/// The largest device id a Signal address may carry.
pub const MAX_DEVICE_ID: u32 = 127;

/// Whether `id` is a valid Signal device id.
pub open spec fn is_valid_device_id(id: int) -> bool {
    MIN_DEVICE_ID <= id <= MAX_DEVICE_ID
}

/// A device id known to lie in `1..=127`.
#[derive(Clone, Copy, Debug, PartialEq, Eq, Structural)]
pub struct DeviceId {
    id: u8,
}

impl DeviceId {
    #[verifier::type_invariant]
    closed spec fn inv(self) -> bool {
        is_valid_device_id(self.id as int)
    }

    /// The numeric value of the id.
    pub closed spec fn value(self) -> u8 {
        self.id
    }

    /// The numeric value of the id, widened to `u32`.
    pub fn to_u32(&self) -> (r: u32)
        ensures
            r == self.value(),
            is_valid_device_id(r as int),
    {
        proof {
            use_type_invariant(self);
        }
        self.id as u32
    }
}

/// Checks that `id` is a valid device id and wraps it.
pub fn make_device_id(id: u32) -> (r: Result<DeviceId, SignalError>)
    ensures
        match r {
            Ok(d) => is_valid_device_id(id as int) && d.value() == id,
            Err(e) => !is_valid_device_id(id as int) && e == SignalError::InvalidDeviceId,
        },
{
    if MIN_DEVICE_ID <= id && id <= MAX_DEVICE_ID {
        Ok(DeviceId { id: id as u8 })
    } else {
        Err(SignalError::InvalidDeviceId)
    }
}

} // verus!
