//! Bring-up logic for a bridge between a USB gamepad and a BLE head-unit:
//! the error taxonomy, the gamepad and adapter checks, the discovery
//! sequence with its status signals, and the event relay.

mod adapter;
mod error;
mod gamepad;
mod peripheral;
mod relay;
mod sequencer;

pub use adapter::{
    central_outcome, connect_outcome, context_text, finish_connect, get_central,
    lemma_empty_listing_is_missing_adapter, lemma_failed_connect_is_wrapped, listing_view, BleStep,
    BringUpError, Central, ConnectMode,
};
pub use error::{classify_fault, CarbleuratorError, GamepadFault};
pub use gamepad::{gamepads_outcome, init_gamepads};
pub use peripheral::{shown_name, PeripheralRecord};
pub use relay::{
    drain_round, drained, lemma_burst_then_quiet, polls_made, relay_step, relay_step_spec, RelayStep,
    POLL_INTERVAL_MS,
};
pub use sequencer::{
    is_terminal, lemma_failed_run_signals, lemma_successful_run_signals, next_stage, run_from,
    run_signals, sequence_signals, signal_seq, step_signal, successor, work_of, works_left, Sequencer,
    Signal, Stage, Work, DISCOVERY_WINDOW_SECS,
};
