use vstd::prelude::*;

use crate::error::CarbleuratorError;

verus! {

/// How a platform's BLE layer hands out adapters.
#[derive(PartialEq, Eq, Structural, Clone, Copy, Debug)]
pub enum ConnectMode {
    /// Listed adapters are already connected.
    PreConnected,
    /// A listed adapter must be connected before use.
    ExplicitConnect,
}

/// The BLE operation that an opaque failure came from.
#[derive(PartialEq, Eq, Structural, Clone, Copy, Debug)]
pub enum BleStep {
    CreateManager,
    ListAdapters,
    Connect,
    StartScan,
}

/// The message that a failure of a BLE operation is reported with.
pub open spec fn context_text(step: BleStep) -> Seq<char> {
    match step {
        BleStep::CreateManager => "Failed to create the BLE manager"@,
        BleStep::ListAdapters => "Failed to list BLE adapters"@,
        BleStep::Connect => "Failed to connect to the BLE adapter"@,
        BleStep::StartScan => "Failed to scan for new BLE peripherals"@,
    }
}

impl BleStep {
    /// The message that a failure of this operation is reported with.
    pub fn context(&self) -> (r: &'static str)
        ensures
            r@ == context_text(*self),
    {
        match self {
            BleStep::CreateManager => "Failed to create the BLE manager",
            BleStep::ListAdapters => "Failed to list BLE adapters",
            BleStep::Connect => "Failed to connect to the BLE adapter",
            BleStep::StartScan => "Failed to scan for new BLE peripherals",
        }
    }
}

/// A bring-up failure: one of the classified kinds, or a BLE failure whose
/// cause is carried unread, with the operation it came from.
#[derive(Debug)]
pub enum BringUpError<E> {
    Classified(CarbleuratorError<E>),
    Ble { step: BleStep, cause: E },
}

/// The adapter chosen from a listing, and whether it still has to be
/// connected.
#[derive(Debug)]
pub enum Central<A> {
    Ready(A),
    NeedsConnect(A),
}

/// What adapter selection yields for a listing: the listing's failure,
/// `MissingBleAdapter` for an empty list, else the first adapter.
pub open spec fn central_outcome<A, E>(mode: ConnectMode, listed: Result<Seq<A>, E>) -> Result<
    Central<A>,
    BringUpError<E>,
> {
    match listed {
        Err(cause) => Err(BringUpError::Ble { step: BleStep::ListAdapters, cause }),
        Ok(adapters) => if adapters.len() == 0 {
            Err(BringUpError::Classified(CarbleuratorError::MissingBleAdapter))
        } else {
            match mode {
                ConnectMode::PreConnected => Ok(Central::Ready(adapters[0])),
                ConnectMode::ExplicitConnect => Ok(Central::NeedsConnect(adapters[0])),
            }
        },
    }
}

/// The view of a listing result.
pub open spec fn listing_view<A, E>(listed: Result<Vec<A>, E>) -> Result<Seq<A>, E> {
    match listed {
        Ok(v) => Ok(v@),
        Err(e) => Err(e),
    }
}

/// What finishing an explicit connect yields: the connected adapter, or the
/// connect failure as an opaque cause.
pub open spec fn connect_outcome<A, E>(connected: Result<A, E>) -> Result<A, BringUpError<E>> {
    match connected {
        Ok(adapter) => Ok(adapter),
        Err(cause) => Err(BringUpError::Ble { step: BleStep::Connect, cause }),
    }
}

/// Adapter selection: the first listed adapter, with no ranking.
pub fn get_central<A, E>(mode: ConnectMode, listed: Result<Vec<A>, E>) -> (r: Result<
    Central<A>,
    BringUpError<E>,
>)
    ensures
        r == central_outcome(mode, listing_view(listed)),
        listed matches Ok(v) && v@.len() == 0 ==> r == Err::<Central<A>, BringUpError<E>>(
            BringUpError::Classified(CarbleuratorError::MissingBleAdapter),
        ),
{
    match listed {
        Err(cause) => Err(BringUpError::Ble { step: BleStep::ListAdapters, cause }),
        Ok(mut adapters) => {
            if adapters.len() == 0 {
                Err(BringUpError::Classified(CarbleuratorError::MissingBleAdapter))
            } else {
                let first = adapters.remove(0);
                match mode {
                    ConnectMode::PreConnected => Ok(Central::Ready(first)),
                    ConnectMode::ExplicitConnect => Ok(Central::NeedsConnect(first)),
                }
            }
        },
    }
}

/// Finishes an explicit connect: its failure is a BLE failure, never a
/// missing adapter, since the adapter was there.
pub fn finish_connect<A, E>(connected: Result<A, E>) -> (r: Result<A, BringUpError<E>>)
    ensures
        r == connect_outcome(connected),
{
    match connected {
        Ok(adapter) => Ok(adapter),
        Err(cause) => Err(BringUpError::Ble { step: BleStep::Connect, cause }),
    }
}

/// An empty listing gives `MissingBleAdapter` in either connect mode.
pub proof fn lemma_empty_listing_is_missing_adapter<A, E>(mode: ConnectMode)
    ensures
        central_outcome::<A, E>(mode, Ok(Seq::empty())) == Err::<Central<A>, BringUpError<E>>(
            BringUpError::Classified(CarbleuratorError::MissingBleAdapter),
        ),
{
}

/// With explicit connect, one listed adapter whose connect fails gives the
/// connect failure as an opaque cause, not `MissingBleAdapter`.
pub proof fn lemma_failed_connect_is_wrapped<A, E>(adapter: A, cause: E)
    ensures
        central_outcome::<A, E>(ConnectMode::ExplicitConnect, Ok(seq![adapter]))
            == Ok::<Central<A>, BringUpError<E>>(Central::NeedsConnect(adapter)),
        connect_outcome::<A, E>(Err(cause)) == Err::<A, BringUpError<E>>(
            BringUpError::Ble { step: BleStep::Connect, cause },
        ),
        !(connect_outcome::<A, E>(Err(cause)) matches Err(BringUpError::Classified(_))),
{
}

} // verus!
