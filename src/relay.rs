use vstd::prelude::*;
use vstd::slice::{slice_subrange, slice_to_vec};

use crate::session::{Event, EventView};

verus! {

/// Size of the buffer the relay reads into: each read hands over at most this
/// many bytes.
pub const RELAY_BUFFER_SIZE: usize = 1024;

/// What one blocking read of the pseudoterminal's master side gave.
#[derive(Clone, Copy, Debug, PartialEq, Eq, Structural)]
pub enum ReadOutcome {
    /// The read filled this many bytes at the start of the buffer.
    Bytes(usize),
    /// The slave side has been closed by every process holding it (the shell
    /// has exited); reported by some systems as an error of its own.
    HungUp,
    /// Any other failure.
    Failed,
}

/// The event one read gives: a chunk of output, end-of-file (a read of zero
/// bytes, or the slave side closed), or a read failure.
pub open spec fn read_event<A>(data: Seq<u8>, outcome: ReadOutcome) -> EventView<A> {
    match outcome {
        ReadOutcome::Bytes(n) => if n == 0 {
            EventView::Eof
        } else {
            EventView::Output(data.subrange(0, n as int))
        },
        ReadOutcome::HungUp => EventView::Eof,
        ReadOutcome::Failed => EventView::ReadFailed,
    }
}

/// Whether the relay reads again after an event: only after a chunk of output.
pub open spec fn keeps_reading<A>(e: EventView<A>) -> bool {
    e is Output
}

/// Turns the outcome of one read into the event for the session, and says
/// whether the relay reads again. Output keeps the bytes exactly as read: no
/// text decoding takes place, so invalid encodings pass through unchanged.
pub fn relay_step<A>(buf: &[u8], outcome: ReadOutcome) -> (r: (Event<A>, bool))
    requires
        outcome matches ReadOutcome::Bytes(n) ==> n <= buf@.len(),
    ensures
        r.0@ == read_event::<A>(buf@, outcome),
        r.1 == keeps_reading(r.0@),
{
    match outcome {
        ReadOutcome::Bytes(n) => {
            if n == 0 {
                (Event::Eof, false)
            } else {
                let chunk = slice_to_vec(slice_subrange(buf, 0, n));
                (Event::Output(chunk), true)
            }
        },
        ReadOutcome::HungUp => (Event::Eof, false),
        ReadOutcome::Failed => (Event::ReadFailed, false),
    }
}

/// The event one read of the user's input gives: end of input stops the
/// session; anything else is sent to the shell as it was read.
pub open spec fn input_event<A>(data: Seq<u8>, n: usize) -> EventView<A> {
    if n == 0 {
        EventView::Stop
    } else {
        EventView::Send(data.subrange(0, n as int))
    }
}

/// Turns a read of `n` bytes of the user's input into the event for the session.
pub fn input_step<A>(buf: &[u8], n: usize) -> (r: Event<A>)
    requires
        n <= buf@.len(),
    ensures
        r@ == input_event::<A>(buf@, n),
{
    if n == 0 {
        Event::Stop
    } else {
        Event::Send(slice_to_vec(slice_subrange(buf, 0, n)))
    }
}

} // verus!
