//! Selection of a device by its index.
use crate::error::AccelError;
use vstd::prelude::*;

verus! {

/// One physical accelerator, identified by its index among the devices.
#[derive(Debug, Clone, Copy, PartialEq, Eq, Structural)]
pub struct Device {
    id: usize,
}

impl View for Device {
    type V = usize;

    closed spec fn view(&self) -> usize {
        self.id
    }
}

impl Device {
    /// The device of index `id`, where `count` devices are present.
    ///
    /// Fails with `DeviceNotFound { id, count }` exactly when `id >= count`.
    pub fn nth(id: usize, count: usize) -> (r: Result<Device, AccelError>)
        ensures
            id < count <==> r is Ok,
            r is Ok ==> r->Ok_0@ == id,
            id >= count ==> r == Err::<Device, AccelError>(AccelError::DeviceNotFound { id, count }),
    {
        if id >= count {
            return Err(AccelError::DeviceNotFound { id, count });
        }
        Ok(Device { id })
    }

    /// The index of this device.
    pub fn id(&self) -> (r: usize)
        ensures
            r == self@,
    {
        self.id
    }
}

} // verus!
