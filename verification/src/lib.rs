//! Read a line of interactively edited input from a raw-mode terminal while
//! other tasks concurrently print to the same screen.
//!
//! The crate is organised around four pieces:
//!
//! - [`History`]: a bounded, deduplicated log of previously submitted lines
//!   with a navigable cursor.
//! - `LineState` (in [`line`]): the line-editing and rendering state machine.
//!   It consumes decoded key and resize events and appends the terminal
//!   control bytes it wants written to an output buffer.
//! - [`SharedWriter`]: a clonable handle that buffers bytes until a full line
//!   is available and then hands the chunk to a bounded channel, so that
//!   concurrent producers never corrupt the prompt.
//! - An unverified orchestrator (outside this crate's verified core) owns the
//!   terminal, drains the channel, and runs the event loop.

use thingbuf::mpsc::Sender;
use vstd::prelude::*;

pub mod history;
pub mod line;
pub mod orchestrator;
pub mod term;

pub use history::History;

verus! {

/// The bounded channel's producer handle, from thingbuf.
#[verifier::external_type_specification]
#[verifier::external_body]
#[verifier::reject_recursive_types(T)]
#[verifier::reject_recursive_types(R)]
pub struct ExSender<T, R>(thingbuf::mpsc::Sender<T, R>);

/// thingbuf's default slot-recycling policy.
#[verifier::external_type_specification]
#[verifier::external_body]
pub struct ExDefaultRecycle(thingbuf::recycling::DefaultRecycle);

/// Relies on thingbuf's `Sender::clone`: another producer handle to the same
/// channel. A `Sender` value is opaque here and stands for the channel it
/// feeds, so under that abstraction the clone is the same value.
pub assume_specification<T, R>[ <thingbuf::mpsc::Sender<T, R> as Clone>::clone ](
    s: &thingbuf::mpsc::Sender<T, R>,
) -> (result: thingbuf::mpsc::Sender<T, R>)
    ensures
        result == *s,
;

/// The outcome of offering one chunk to the bounded channel without waiting.
pub enum TrySendOutcome {
    /// The chunk was accepted and will reach the consumer.
    Sent,
    /// The channel is at capacity; nothing was taken.
    Full,
    /// The consumer is gone; nothing was taken and nothing ever will be.
    Closed,
}

/// Relies on thingbuf's `Sender::try_send_ref`: it reserves a slot without
/// waiting when the channel has room, fails with Full at capacity, and fails
/// with Closed when the receiver was dropped. On success the whole local
/// buffer is swapped into the reserved slot, so the buffer is left empty and
/// its old content travels to the consumer as one chunk; on failure the
/// buffer is untouched.
#[verifier::external_body]
fn try_send_buffer(sender: &Sender<Vec<u8>>, buf: &mut Vec<u8>) -> (r: TrySendOutcome)
    ensures
        match r {
            TrySendOutcome::Sent => final(buf)@.len() == 0,
            TrySendOutcome::Full => final(buf)@ == old(buf)@,
            TrySendOutcome::Closed => final(buf)@ == old(buf)@,
        },
{
    match sender.try_send_ref() {
        Ok(mut slot) => {
            std::mem::swap(&mut *slot, buf);
            buf.clear();
            TrySendOutcome::Sent
        },
        Err(thingbuf::mpsc::errors::TrySendError::Full(_)) => TrySendOutcome::Full,
        _ => TrySendOutcome::Closed,
    }
}

/// Whether a byte buffer ends in a line feed.
pub open spec fn ends_with_newline(b: Seq<u8>) -> bool {
    b.len() > 0 && b.last() == 10u8
}

/// A failed non-suspending write.
#[derive(Debug, PartialEq, Eq)]
pub enum WriteError {
    /// The channel is at capacity. The handle's buffer was left exactly as it
    /// was before the call, so the same write can be retried verbatim.
    WouldBlock,
    /// The consumer is gone; no later write will succeed either.
    Closed,
}

/// A clonable output handle. Bytes are buffered privately per handle until a
/// write completes a line (or the buffer is taken explicitly); only then does
/// a whole chunk go to the bounded channel that the orchestrator drains, so
/// concurrent producers never interleave partial lines.
pub struct SharedWriter {
    buffer: Vec<u8>,
    sender: Sender<Vec<u8>>,
}

impl SharedWriter {
    /// The bytes buffered in this handle, not yet handed to the channel.
    pub closed spec fn buffer_view(self) -> Seq<u8> {
        self.buffer@
    }

    /// The channel producer handle this writer feeds.
    pub closed spec fn sender_view(self) -> Sender<Vec<u8>> {
        self.sender
    }

    /// A writer over the given producer handle, with an empty buffer.
    pub fn new(sender: Sender<Vec<u8>>) -> (r: SharedWriter)
        ensures
            r.buffer_view() == Seq::<u8>::empty(),
            r.sender_view() == sender,
    {
        let r = SharedWriter { buffer: Vec::new(), sender };
        proof {
            assert(r.buffer_view() =~= Seq::<u8>::empty());
        }
        r
    }

    /// The non-suspending write. The bytes join the private buffer; once the
    /// buffer ends in a newline the whole buffer is offered to the channel as
    /// one chunk. A write that does not complete a line always succeeds
    /// without touching the channel. When the channel is full the buffer is
    /// left as it was before the call, so the caller can retry the same write
    /// verbatim; when the consumer is gone the bytes stay buffered and
    /// `Closed` is reported.
    pub fn write(&mut self, data: &[u8]) -> (r: Result<usize, WriteError>)
        ensures
            final(self).sender_view() == old(self).sender_view(),
            !ends_with_newline(old(self).buffer_view() + data@) ==> r is Ok,
            match r {
                Ok(n) => {
                    &&& n == data@.len()
                    &&& if ends_with_newline(old(self).buffer_view() + data@) {
                        final(self).buffer_view() == Seq::<u8>::empty()
                    } else {
                        final(self).buffer_view() == old(self).buffer_view() + data@
                    }
                },
                Err(WriteError::WouldBlock) => {
                    &&& ends_with_newline(old(self).buffer_view() + data@)
                    &&& final(self).buffer_view() == old(self).buffer_view()
                },
                Err(WriteError::Closed) => {
                    &&& ends_with_newline(old(self).buffer_view() + data@)
                    &&& final(self).buffer_view() == old(self).buffer_view() + data@
                },
            },
    {
        let old_len = self.buffer.len();
        self.buffer.extend_from_slice(data);
        let full = self.buffer.len();
        if full > 0 && self.buffer[full - 1] == 10u8 {
            match try_send_buffer(&self.sender, &mut self.buffer) {
                TrySendOutcome::Sent => Ok(data.len()),
                TrySendOutcome::Full => {
                    self.buffer.truncate(old_len);
                    proof {
                        assert(self.buffer@ =~= old(self).buffer_view());
                    }
                    Err(WriteError::WouldBlock)
                },
                TrySendOutcome::Closed => Err(WriteError::Closed),
            }
        } else {
            Ok(data.len())
        }
    }

    /// Append bytes to the private buffer without offering anything to the
    /// channel, and say whether the buffer now ends in a newline and is due
    /// to be handed over.
    pub fn buffer_append(&mut self, data: &[u8]) -> (flush_now: bool)
        ensures
            final(self).sender_view() == old(self).sender_view(),
            final(self).buffer_view() == old(self).buffer_view() + data@,
            flush_now == ends_with_newline(final(self).buffer_view()),
    {
        self.buffer.extend_from_slice(data);
        let n = self.buffer.len();
        n > 0 && self.buffer[n - 1] == 10u8
    }

    /// Take everything pending, leaving the buffer empty: the explicit flush
    /// path, which hands even a line-incomplete chunk over.
    pub fn take_buffer(&mut self) -> (r: Vec<u8>)
        ensures
            final(self).sender_view() == old(self).sender_view(),
            final(self).buffer_view() == Seq::<u8>::empty(),
            r@ == old(self).buffer_view(),
    {
        let r = self.buffer.clone();
        self.buffer.clear();
        proof {
            assert(self.buffer_view() =~= Seq::<u8>::empty());
        }
        r
    }

    /// The producer handle, for the suspending write paths that wait for
    /// channel capacity.
    pub fn sender(&self) -> (r: &Sender<Vec<u8>>)
        ensures
            *r == self.sender_view(),
    {
        &self.sender
    }
}

impl Clone for SharedWriter {
    /// A clone feeds the same channel but starts with its own empty buffer,
    /// so concurrent producers do not contend on each other's buffering
    /// state.
    fn clone(&self) -> (r: Self)
        ensures
            r.buffer_view() == Seq::<u8>::empty(),
            r.sender_view() == self.sender_view(),
    {
        let r = SharedWriter { buffer: Vec::new(), sender: self.sender.clone() };
        proof {
            assert(r.buffer_view() =~= Seq::<u8>::empty());
        }
        r
    }
}

/// Fatal errors of an interactive session.
#[derive(Debug, PartialEq, Eq)]
pub enum ReadlineError {
    /// An underlying terminal read or write failed; the message describes it.
    IO(String),
    /// Every writer handle was dropped and all buffered output was drained.
    Closed,
}

/// Control results of reading one line.
#[derive(Debug, PartialEq, Eq)]
pub enum ReadlineEvent {
    /// The user submitted a line of text.
    Line(String),
    /// The user asked for end of input (Ctrl-D).
    Eof,
    /// The user interrupted the current line (Ctrl-C).
    Interrupted,
}

} // verus!
