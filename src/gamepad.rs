use vstd::prelude::*;

use crate::error::{classify_fault, CarbleuratorError, GamepadFault};

verus! {

/// What gamepad bring-up yields for a driver start: the driver's failure,
/// classified; `MissingGamepad` when it started with no device; else the
/// driver handle.
pub open spec fn gamepads_outcome<G, E>(started: Result<(G, usize), GamepadFault<E>>) -> Result<
    G,
    CarbleuratorError<E>,
> {
    match started {
        Err(fault) => Err(classify_fault(fault)),
        Ok((handle, count)) => if count == 0 {
            Err(CarbleuratorError::MissingGamepad)
        } else {
            Ok(handle)
        },
    }
}

/// Gamepad bring-up. `started` is what starting the driver gave: its handle
/// with the number of devices it lists, or its failure. A driver that starts
/// with no device is a failure too.
pub fn init_gamepads<G, E>(started: Result<(G, usize), GamepadFault<E>>) -> (r: Result<
    G,
    CarbleuratorError<E>,
>)
    ensures
        r == gamepads_outcome(started),
        started matches Ok((_, count)) && count == 0 ==> r == Err::<G, CarbleuratorError<E>>(
            CarbleuratorError::MissingGamepad,
        ),
        started matches Err(fault) ==> r == Err::<G, CarbleuratorError<E>>(classify_fault(fault)),
{
    match started {
        Err(fault) => Err(CarbleuratorError::from(fault)),
        Ok((handle, count)) => {
            if count == 0 {
                Err(CarbleuratorError::MissingGamepad)
            } else {
                Ok(handle)
            }
        },
    }
}

} // verus!
