use carbleurator::{
    finish_connect, get_central, init_gamepads, BleStep, BringUpError, CarbleuratorError, Central,
    ConnectMode, GamepadFault,
};

#[test]
fn not_implemented_maps_to_usb_not_supported() {
    let e = CarbleuratorError::from(GamepadFault::<String>::NotImplemented);
    assert!(matches!(e, CarbleuratorError::UsbNotSupportedError));
}

#[test]
fn invalid_axis_maps_to_device_initialization() {
    let e = CarbleuratorError::from(GamepadFault::<String>::InvalidAxisToBtn);
    assert!(matches!(e, CarbleuratorError::UsbDeviceInitializationError));
}

#[test]
fn other_fault_wraps_cause_unchanged() {
    let e = CarbleuratorError::from(GamepadFault::Other("udev went away".to_string()));
    match e {
        CarbleuratorError::UsbInitializationError(cause) => assert_eq!(cause, "udev went away"),
        other => panic!("unexpected {:?}", other),
    }
}

#[test]
fn zero_gamepads_is_missing_gamepad() {
    let r = init_gamepads::<&str, String>(Ok(("driver", 0)));
    assert!(matches!(r, Err(CarbleuratorError::MissingGamepad)));
}

#[test]
fn driver_failure_is_classified() {
    let r = init_gamepads::<&str, String>(Err(GamepadFault::NotImplemented));
    assert!(matches!(r, Err(CarbleuratorError::UsbNotSupportedError)));
    let r = init_gamepads::<&str, String>(Err(GamepadFault::Other("io".to_string())));
    assert!(matches!(r, Err(CarbleuratorError::UsbInitializationError(ref c)) if c == "io"));
}

#[test]
fn gamepads_present_give_handle() {
    let r = init_gamepads::<&str, String>(Ok(("driver", 2)));
    assert!(matches!(r, Ok("driver")));
}

#[test]
fn empty_listing_is_missing_adapter_in_both_modes() {
    for mode in [ConnectMode::PreConnected, ConnectMode::ExplicitConnect] {
        let r = get_central::<u32, String>(mode, Ok(Vec::new()));
        assert!(matches!(
            r,
            Err(BringUpError::Classified(CarbleuratorError::MissingBleAdapter))
        ));
    }
}

#[test]
fn first_adapter_is_chosen() {
    let r = get_central::<u32, String>(ConnectMode::PreConnected, Ok(vec![7, 8, 9]));
    assert!(matches!(r, Ok(Central::Ready(7))));
    let r = get_central::<u32, String>(ConnectMode::ExplicitConnect, Ok(vec![4, 5]));
    assert!(matches!(r, Ok(Central::NeedsConnect(4))));
}

#[test]
fn listing_failure_is_wrapped() {
    let r = get_central::<u32, String>(ConnectMode::PreConnected, Err("hci down".to_string()));
    match r {
        Err(BringUpError::Ble { step, cause }) => {
            assert_eq!(step, BleStep::ListAdapters);
            assert_eq!(cause, "hci down");
        }
        other => panic!("unexpected {:?}", other),
    }
}

#[test]
fn failed_connect_is_wrapped_not_missing() {
    let r = get_central::<u32, String>(ConnectMode::ExplicitConnect, Ok(vec![1]));
    assert!(matches!(r, Ok(Central::NeedsConnect(1))));
    let r = finish_connect::<u32, String>(Err("permission denied".to_string()));
    match r {
        Err(BringUpError::Ble { step, cause }) => {
            assert_eq!(step, BleStep::Connect);
            assert_eq!(cause, "permission denied");
        }
        other => panic!("unexpected {:?}", other),
    }
    assert!(matches!(finish_connect::<u32, String>(Ok(3)), Ok(3)));
}

#[test]
fn scan_failure_context() {
    assert_eq!(BleStep::StartScan.context(), "Failed to scan for new BLE peripherals");
}
