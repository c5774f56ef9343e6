use screenshot::device::{first_driver, next_device_step, DeviceStep, DriverType, DXGI_ERROR_UNSUPPORTED};

const E_FAIL: i32 = 0x8000_4005u32 as i32;

#[test]
fn hardware_comes_first() {
    assert_eq!(first_driver(), DriverType::Hardware);
}

#[test]
fn hardware_success_creates_device() {
    assert_eq!(next_device_step(DriverType::Hardware, 0), DeviceStep::Created(DriverType::Hardware));
    assert_eq!(next_device_step(DriverType::Hardware, 1), DeviceStep::Created(DriverType::Hardware));
}

#[test]
fn unsupported_hardware_falls_back_to_warp() {
    assert_eq!(DXGI_ERROR_UNSUPPORTED, 0x887A_0004u32 as i32);
    let step = next_device_step(DriverType::Hardware, DXGI_ERROR_UNSUPPORTED);
    assert_eq!(step, DeviceStep::Retry(DriverType::Warp));
    assert_eq!(next_device_step(DriverType::Warp, 0), DeviceStep::Created(DriverType::Warp));
}

#[test]
fn warp_failure_is_final() {
    assert_eq!(
        next_device_step(DriverType::Warp, DXGI_ERROR_UNSUPPORTED),
        DeviceStep::Failed(DXGI_ERROR_UNSUPPORTED)
    );
    assert_eq!(next_device_step(DriverType::Warp, E_FAIL), DeviceStep::Failed(E_FAIL));
}

#[test]
fn other_hardware_failure_is_final() {
    assert_eq!(next_device_step(DriverType::Hardware, E_FAIL), DeviceStep::Failed(E_FAIL));
}
