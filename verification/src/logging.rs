//! Bounded in-memory logs.
//!
//! Log lines arrive as bytes, are cut into entries when the writer is
//! flushed, and are kept in two bounded buffers, one for logs and one for
//! traces. A full buffer drops its oldest entry for each new one.

use std::collections::VecDeque;
use vstd::prelude::*;
use vstd::utf8::decode_utf8;
use vstd::utf8::valid_utf8;

verus! {

/// One log line with the time at which it was written.
#[derive(Debug)]
pub struct LogEntry {
    pub timestamp: u64,
    pub message: String,
}

impl Clone for LogEntry {
    fn clone(&self) -> (r: LogEntry)
        ensures
            r == *self,
    {
        LogEntry { timestamp: self.timestamp, message: self.message.clone() }
    }
}

/// The last `capacity` entries of `all`, or all of them if there are
/// fewer.
pub open spec fn newest(all: Seq<LogEntry>, capacity: nat) -> Seq<LogEntry> {
    if all.len() <= capacity {
        all
    } else {
        all.subrange(all.len() - capacity, all.len() as int)
    }
}

/// `std::string::String::from_utf8`: the text that the bytes encode, if
/// they are valid UTF-8.
#[verifier::external_body]
fn text_from_utf8(bytes: Vec<u8>) -> (r: Option<String>)
    ensures
        r is Some <==> valid_utf8(bytes@),
        r matches Some(text) ==> text@ == decode_utf8(bytes@),
{
    String::from_utf8(bytes).ok()
}

/// A circular buffer for log entries.
pub struct LogBuffer {
    max_capacity: usize,
    entries: VecDeque<LogEntry>,
}

impl View for LogBuffer {
    type V = Seq<LogEntry>;

    /// The entries, oldest first.
    closed spec fn view(&self) -> Seq<LogEntry> {
        self.entries@
    }
}

impl LogBuffer {
    /// The number of entries that the buffer keeps at most.
    pub closed spec fn capacity(&self) -> nat {
        self.max_capacity as nat
    }

    /// Creates an empty buffer of the given capacity.
    pub fn with_capacity(max_capacity: usize) -> (buffer: LogBuffer)
        ensures
            buffer@ == Seq::<LogEntry>::empty(),
            buffer.capacity() == max_capacity,
    {
        LogBuffer { max_capacity, entries: VecDeque::with_capacity(max_capacity) }
    }

    /// The number of entries that the buffer keeps at most.
    pub fn max_capacity(&self) -> (r: usize)
        ensures
            r == self.capacity(),
    {
        self.max_capacity
    }

    /// Adds an entry as the newest, dropping the oldest entries for which
    /// there is no room.
    pub fn append(&mut self, entry: LogEntry)
        requires
            old(self).capacity() > 0,
        ensures
            final(self)@ == newest(old(self)@.push(entry), old(self).capacity()),
            final(self).capacity() == old(self).capacity(),
    {
        while self.entries.len() >= self.max_capacity
            invariant
                self.max_capacity == old(self).max_capacity,
                self.max_capacity > 0,
                self.entries@.len() <= old(self).entries@.len(),
                self.entries@.len() == old(self).entries@.len() || self.entries@.len() + 1
                    >= self.max_capacity,
                self.entries@ == old(self).entries@.subrange(
                    old(self).entries@.len() - self.entries@.len(),
                    old(self).entries@.len() as int,
                ),
            decreases self.entries@.len(),
        {
            self.entries.pop_front();
        }
        self.entries.push_back(entry);
        proof {
            assert(self.entries@ =~= newest(old(self)@.push(entry), old(self).capacity()));
        }
    }

    /// The entries in the order of their insertion.
    pub fn iter(&self) -> (r: Vec<LogEntry>)
        ensures
            r@ == self@,
    {
        let mut r: Vec<LogEntry> = Vec::with_capacity(self.entries.len());
        let mut i: usize = 0;
        while i < self.entries.len()
            invariant
                i <= self.entries@.len(),
                r@ == self.entries@.subrange(0, i as int),
            decreases self.entries@.len() - i,
        {
            r.push(self.entries[i].clone());
            i += 1;
        }
        r
    }
}

impl Default for LogBuffer {
    fn default() -> (buffer: LogBuffer)
        ensures
            buffer@ == Seq::<LogEntry>::empty(),
            buffer.capacity() == 100,
    {
        LogBuffer { max_capacity: 100, entries: VecDeque::new() }
    }
}

/// The two buffers of the service: logs and traces.
pub struct LogSinks {
    log: LogBuffer,
    trace: LogBuffer,
}

impl LogSinks {
    /// The kept log entries, oldest first.
    pub closed spec fn logs(&self) -> Seq<LogEntry> {
        self.log@
    }

    /// The kept trace entries, oldest first.
    pub closed spec fn traces(&self) -> Seq<LogEntry> {
        self.trace@
    }

    /// The capacity of the log buffer.
    pub closed spec fn log_capacity(&self) -> nat {
        self.log.capacity()
    }

    /// The capacity of the trace buffer.
    pub closed spec fn trace_capacity(&self) -> nat {
        self.trace.capacity()
    }

    /// Both buffers can hold an entry.
    pub open spec fn wf(&self) -> bool {
        self.log_capacity() > 0 && self.trace_capacity() > 0
    }

    /// Two empty buffers of 100 entries each.
    pub fn new() -> (sinks: LogSinks)
        ensures
            sinks.logs() == Seq::<LogEntry>::empty(),
            sinks.traces() == Seq::<LogEntry>::empty(),
            sinks.log_capacity() == 100,
            sinks.trace_capacity() == 100,
            sinks.wf(),
    {
        LogSinks { log: LogBuffer::default(), trace: LogBuffer::default() }
    }

    /// Adds an entry to the traces if `trace` is set, to the logs if not.
    pub fn append(&mut self, trace: bool, entry: LogEntry)
        requires
            old(self).wf(),
        ensures
            final(self).wf(),
            final(self).log_capacity() == old(self).log_capacity(),
            final(self).trace_capacity() == old(self).trace_capacity(),
            trace ==> final(self).logs() == old(self).logs(),
            trace ==> final(self).traces() == newest(
                old(self).traces().push(entry),
                old(self).trace_capacity(),
            ),
            !trace ==> final(self).traces() == old(self).traces(),
            !trace ==> final(self).logs() == newest(
                old(self).logs().push(entry),
                old(self).log_capacity(),
            ),
    {
        if trace {
            self.trace.append(entry);
        } else {
            self.log.append(entry);
        }
    }
}

/// The kept log entries, oldest first.
pub fn export_logs(sinks: &LogSinks) -> (r: Vec<LogEntry>)
    ensures
        r@ == sinks.logs(),
{
    sinks.log.iter()
}

/// The kept trace entries, oldest first.
pub fn export_traces(sinks: &LogSinks) -> (r: Vec<LogEntry>)
    ensures
        r@ == sinks.traces(),
{
    sinks.trace.iter()
}

/// Collects the bytes of one log line until it is flushed into a buffer.
pub struct LogWriter {
    trace: bool,
    buffer: Vec<u8>,
}

impl LogWriter {
    /// Whether the writer writes traces.
    pub closed spec fn is_trace(&self) -> bool {
        self.trace
    }

    /// The bytes written since the last flush.
    pub closed spec fn pending(&self) -> Seq<u8> {
        self.buffer@
    }

    /// A writer with nothing pending, for traces if `trace` is set and for
    /// logs if not.
    pub fn new(trace: bool) -> (writer: LogWriter)
        ensures
            writer.is_trace() == trace,
            writer.pending() == Seq::<u8>::empty(),
    {
        LogWriter { trace, buffer: Vec::new() }
    }

    /// Takes all of `buf` and says how many bytes that was.
    pub fn write(&mut self, buf: &[u8]) -> (n: usize)
        ensures
            n == buf@.len(),
            final(self).pending() == old(self).pending() + buf@,
            final(self).is_trace() == old(self).is_trace(),
    {
        self.buffer.extend_from_slice(buf);
        buf.len()
    }

    /// Turns the pending bytes into one entry stamped `timestamp` and adds
    /// it to the writer's buffer. Pending bytes that are not UTF-8 are
    /// dropped, and the result is `false`.
    pub fn flush(&mut self, sinks: &mut LogSinks, timestamp: u64) -> (done: bool)
        requires
            old(sinks).wf(),
        ensures
            done == valid_utf8(old(self).pending()),
            final(self).pending() == Seq::<u8>::empty(),
            final(self).is_trace() == old(self).is_trace(),
            final(sinks).wf(),
            final(sinks).log_capacity() == old(sinks).log_capacity(),
            final(sinks).trace_capacity() == old(sinks).trace_capacity(),
            !done ==> final(sinks).logs() == old(sinks).logs(),
            !done ==> final(sinks).traces() == old(sinks).traces(),
            done ==> (exists|entry: LogEntry|
                entry.timestamp == timestamp && entry.message@ == decode_utf8(old(self).pending())
                    && #[trigger] flushed(old(sinks), final(sinks), old(self).is_trace(), entry)),
    {
        let mut bytes: Vec<u8> = Vec::new();
        std::mem::swap(&mut self.buffer, &mut bytes);
        match text_from_utf8(bytes) {
            Some(message) => {
                let entry = LogEntry { timestamp, message };
                sinks.append(self.trace, entry);
                assert(flushed(old(sinks), sinks, old(self).is_trace(), entry));
                true
            },
            None => false,
        }
    }
}

/// `post` is `pre` with `entry` added to the traces if `trace` is set, to
/// the logs if not.
pub open spec fn flushed(pre: &LogSinks, post: &LogSinks, trace: bool, entry: LogEntry) -> bool {
    &&& post.logs() == if trace {
        pre.logs()
    } else {
        newest(pre.logs().push(entry), pre.log_capacity())
    }
    &&& post.traces() == if trace {
        newest(pre.traces().push(entry), pre.trace_capacity())
    } else {
        pre.traces()
    }
}

} // verus!
