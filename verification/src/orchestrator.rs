//! The event loop's decision table.
//!
//! The orchestrator suspends on three sources at once — decoded terminal
//! events, the writer channel, and asynchronously delivered history appends —
//! and proceeds with whichever is ready first. What each wakeup *does* is
//! decided here, over plain values, with the terminal bytes appended to an
//! output buffer; the unverified shell only performs the waiting and the I/O.

use vstd::prelude::*;

use crate::history::added;
use crate::line::Event;
use crate::line::LineState;
use crate::line::event_rel;
use crate::ReadlineError;
use crate::ReadlineEvent;

verus! {

/// One wakeup of the orchestrator's loop: whichever of the three suspension
/// points became ready, or the writer channel reporting that every writer is
/// gone.
pub enum LoopInput {
    /// A decoded terminal event arrived.
    Terminal(Event),
    /// The writer channel handed over one chunk of background output.
    Chunk(Vec<u8>),
    /// A history append request was delivered from outside the loop, so that
    /// only this loop ever touches the editor state.
    HistoryAppend(String),
    /// The writer channel is closed and no chunk is pending on it.
    ChannelClosed,
}

/// Decide one loop wakeup: apply a keystroke (whose result, if any, is
/// returned to the caller), render a queued output chunk above the prompt,
/// ingest a history append, or report the fatal closed-channel condition.
pub fn step(line: &mut LineState, input: LoopInput, out: &mut Vec<u8>) -> (r: Result<
    Option<ReadlineEvent>,
    ReadlineError,
>)
    requires
        old(line).wf(),
    ensures
        final(line).wf(),
        old(line).measurements_consistent() ==> final(line).measurements_consistent(),
        match input {
            LoopInput::Terminal(event) => (r matches Ok(result) && event_rel(
                *old(line),
                event,
                *final(line),
                old(out)@,
                final(out)@,
                result,
            )),
            LoopInput::Chunk(data) => {
                &&& (r matches Ok(result) && result is None)
                &&& *final(line) == old(line).print_data_post(data@)
                &&& final(out)@ == old(out)@ + old(line).print_data_bytes(data@)
            },
            LoopInput::HistoryAppend(entry) => {
                &&& (r matches Ok(result) && result is None)
                &&& final(out)@ == old(out)@
                &&& *final(line) == (LineState { history: final(line).history, ..*old(line) })
                &&& final(line).history.entries_view() == added(
                    old(line).history.entries_view(),
                    old(line).history.max_size_view(),
                    entry@,
                )
                &&& final(line).history.max_size_view() == old(line).history.max_size_view()
                &&& final(line).history.position_view() is None
            },
            LoopInput::ChannelClosed => {
                &&& r == Err::<Option<ReadlineEvent>, ReadlineError>(ReadlineError::Closed)
                &&& *final(line) == *old(line)
                &&& final(out)@ == old(out)@
            },
        },
{
    match input {
        LoopInput::Terminal(event) => Ok(line.handle_event(event, out)),
        LoopInput::Chunk(data) => {
            line.print_data(data.as_slice(), out);
            Ok(None)
        },
        LoopInput::HistoryAppend(entry) => {
            line.history.add_entry(entry);
            Ok(None)
        },
        LoopInput::ChannelClosed => Err(ReadlineError::Closed),
    }
}

} // verus!
