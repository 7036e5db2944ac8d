use vstd::prelude::*;

verus! {

/// A failure reported by the gamepad driver when it starts, as the driver
/// tells its kinds apart. `E` is the driver's own cause, carried unread.
#[derive(Debug)]
pub enum GamepadFault<E> {
    /// The driver has no backend for this platform.
    NotImplemented,
    /// A device's axis-to-button mapping is invalid.
    InvalidAxisToBtn,
    /// Any other driver failure.
    Other(E),
}

/// The closed set of classified bring-up failures. `E` is the opaque cause
/// wrapped by `UsbInitializationError`.
#[derive(Debug)]
pub enum CarbleuratorError<E> {
    UsbNotSupportedError,
    UsbDeviceInitializationError,
    UsbInitializationError(E),
    MissingGamepad,
    MissingBleAdapter,
}

/// How a gamepad driver failure is classified.
pub open spec fn classify_fault<E>(fault: GamepadFault<E>) -> CarbleuratorError<E> {
    match fault {
        GamepadFault::NotImplemented => CarbleuratorError::UsbNotSupportedError,
        GamepadFault::InvalidAxisToBtn => CarbleuratorError::UsbDeviceInitializationError,
        GamepadFault::Other(cause) => CarbleuratorError::UsbInitializationError(cause),
    }
}

impl<E> From<GamepadFault<E>> for CarbleuratorError<E> {
    fn from(fault: GamepadFault<E>) -> (r: Self)
        ensures
            r == classify_fault(fault),
            fault is NotImplemented ==> r is UsbNotSupportedError,
            fault is InvalidAxisToBtn ==> r is UsbDeviceInitializationError,
            fault matches GamepadFault::Other(cause) ==> r == CarbleuratorError::UsbInitializationError(
                cause,
            ),
    {
        match fault {
            GamepadFault::NotImplemented => CarbleuratorError::UsbNotSupportedError,
            GamepadFault::InvalidAxisToBtn => CarbleuratorError::UsbDeviceInitializationError,
            GamepadFault::Other(cause) => CarbleuratorError::UsbInitializationError(cause),
        }
    }
}

impl<E> vstd::std_specs::convert::FromSpecImpl<GamepadFault<E>> for CarbleuratorError<E> {
    open spec fn obeys_from_spec() -> bool {
        true
    }

    open spec fn from_spec(fault: GamepadFault<E>) -> Self {
        classify_fault(fault)
    }
}

} // verus!
