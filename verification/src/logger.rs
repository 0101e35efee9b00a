use vstd::prelude::*;

verus! {

/// Severity of one buffered log line.
#[derive(Clone, Copy, PartialEq, Eq, Structural, Debug)]
pub enum LogType {
    INFO,
    ERROR,
}

/// The buffered-log interface the engine consumes: `log_buffered` appends a
/// line without blocking; `flush_buffer` hands the whole buffer over for the
/// sink to write and empties it.  Writing to the sink itself is the
/// caller's business.
#[derive(Debug)]
pub struct Logger {
    pub logfile_path: String,
    pub buffer: Vec<(LogType, String)>,
}

/// The buffer with each line reduced to its severity and text.
pub open spec fn log_view(buffer: Seq<(LogType, String)>) -> Seq<(LogType, Seq<char>)> {
    buffer.map_values(|e: (LogType, String)| (e.0, e.1@))
}

impl Logger {
    pub fn new(logfile_path: String) -> (r: Logger)
        ensures
            r.logfile_path == logfile_path,
            r.buffer@.len() == 0,
    {
        Logger { logfile_path, buffer: Vec::new() }
    }

    /// Append one line to the buffer; nothing is written yet.
    pub fn log_buffered(&mut self, log_type: LogType, message: String)
        ensures
            final(self).buffer@ == old(self).buffer@.push((log_type, message)),
            log_view(final(self).buffer@) == log_view(old(self).buffer@).push(
                (log_type, message@),
            ),
            final(self).logfile_path == old(self).logfile_path,
    {
        self.buffer.push((log_type, message));
        proof {
            assert(log_view(self.buffer@) =~= log_view(old(self).buffer@).push(
                (log_type, message@),
            ));
        }
    }

    /// Hand the buffered lines over, oldest first, leaving the buffer empty:
    /// whoever drains the buffer writes every line, so none is silently
    /// lost.
    pub fn flush_buffer(&mut self) -> (r: Vec<(LogType, String)>)
        ensures
            r@ == old(self).buffer@,
            final(self).buffer@.len() == 0,
            final(self).logfile_path == old(self).logfile_path,
    {
        let mut drained: Vec<(LogType, String)> = Vec::new();
        core::mem::swap(&mut drained, &mut self.buffer);
        drained
    }
}

} // verus!
