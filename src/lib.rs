//! Lifecycle logic of a pseudoterminal session: a shell spawned on a PTY,
//! the controlling terminal held in raw mode while the session is active,
//! and bytes relayed in both directions until the session ends.
//!
//! The library decides; the embedding program performs the system calls
//! that the decisions name and reports their outcomes back.
mod console;
mod laws;
mod relay;
mod session;
mod shell;

pub use console::ConsoleLogger;
pub use laws::{
    captures_read, delivered, lemma_eof_stops, lemma_output_in_order, lemma_restored_once,
    lemma_sends_in_order, lemma_stop_twice, lemma_terminal_restored, lemma_written_is_sent,
    outputs, raw_balance, run, sends, terminal_after, written,
};
pub use relay::{
    input_event, input_step, keeps_reading, read_event, relay_step, ReadOutcome, RELAY_BUFFER_SIZE};
pub use session::{
    actions_view, initial, restore_actions, step, teardown, Action, ActionView, Event, EventView,
    Phase, Reply, SessionError, SessionState, SessionView, TerminalEmulator,
};
pub use shell::{resolve_shell, FALLBACK_SHELL};
