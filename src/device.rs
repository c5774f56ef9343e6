use vstd::prelude::*;

verus! {

/// `DXGI_ERROR_UNSUPPORTED`, the result of asking for a driver that the
/// machine does not offer.
pub const DXGI_ERROR_UNSUPPORTED: i32 = -2005270524;

/// Which driver a GPU device is created with.
#[derive(Clone, Copy, Debug, PartialEq, Eq, Structural)]
pub enum DriverType {
    /// The hardware driver.
    Hardware,
    /// The software rasterizer.
    Warp,
}

/// What to do after one attempt to create a device.
#[derive(Clone, Copy, Debug, PartialEq, Eq, Structural)]
pub enum DeviceStep {
    /// The device exists, made with this driver.
    Created(DriverType),
    /// Try again with this driver.
    Retry(DriverType),
    /// Give up with this result code.
    Failed(i32),
}

/// A success code ends the search; the hardware driver reported as
/// unsupported leads to one attempt with the software driver; every other
/// failure is final.
pub open spec fn spec_device_step(tried: DriverType, hresult: i32) -> DeviceStep {
    if hresult >= 0 {
        DeviceStep::Created(tried)
    } else if tried == DriverType::Hardware && hresult == DXGI_ERROR_UNSUPPORTED {
        DeviceStep::Retry(DriverType::Warp)
    } else {
        DeviceStep::Failed(hresult)
    }
}

/// The driver that device creation starts with.
pub fn first_driver() -> (r: DriverType)
    ensures
        r == DriverType::Hardware,
{
    DriverType::Hardware
}

/// The step after creating a device with `tried` returned `hresult`.
pub fn next_device_step(tried: DriverType, hresult: i32) -> (r: DeviceStep)
    ensures
        r == spec_device_step(tried, hresult),
{
    if hresult >= 0 {
        DeviceStep::Created(tried)
    } else if tried == DriverType::Hardware && hresult == DXGI_ERROR_UNSUPPORTED {
        DeviceStep::Retry(DriverType::Warp)
    } else {
        DeviceStep::Failed(hresult)
    }
}

/// When the hardware driver is reported unsupported, the software driver is
/// tried next; if that succeeds, a device exists just as it would from the
/// hardware driver, and whatever the software attempt returns, there is no
/// further attempt.
pub proof fn lemma_unsupported_hardware_falls_back_to_warp(warp_result: i32)
    ensures
        spec_device_step(DriverType::Hardware, DXGI_ERROR_UNSUPPORTED) == DeviceStep::Retry(
            DriverType::Warp,
        ),
        warp_result >= 0 ==> spec_device_step(DriverType::Warp, warp_result)
            == DeviceStep::Created(DriverType::Warp),
        !(spec_device_step(DriverType::Warp, warp_result) is Retry),
{
}

} // verus!
