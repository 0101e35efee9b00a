use vstd::prelude::*;
use vstd::string::StringExecFns;

use crate::logger::{log_view, LogType, Logger};
use crate::test::{finished_from, stopped_from, Test};

verus! {

/// A command received over the remote-control channel.  `Create` carries a
/// freshly configured test and the requested client count.
pub enum WebSocketMessage {
    Create(Test, u64),
    Start,
    Stop,
    Finish,
}

/// What one inbound frame of the duplex connection amounts to, once the
/// transport and the payload have been decoded: a well-formed command, a
/// text frame that did not parse, a close event, or anything else (ignored).
pub enum FrameEvent {
    Command(WebSocketMessage),
    InvalidText,
    Close,
    Other,
}

/// The worker-side remote-control bridge: it holds at most one test, its own
/// cancellation flag, a note of whether a run task was spawned, and the
/// shared buffered logger.  Inbound commands become operations on the held
/// test; the bridge's own run loop is cancellable the same way the test is.
#[derive(Debug)]
pub struct Worker {
    pub test: Option<Test>,
    pub master_addr: String,
    pub cancelled: bool,
    pub test_started: bool,
    pub logger: Logger,
}

/// The log text announcing a newly created test with its client count.
pub open spec fn create_log_text(user_count: u64) -> Seq<char> {
    "Creating Test with ["@ + crate::text::spec_decimal(user_count as int) + "] users"@
}

impl Worker {
    pub fn new(master_addr: String, logfile_path: String) -> (r: Worker)
        ensures
            r.test is None,
            r.master_addr == master_addr,
            r.cancelled == false,
            r.test_started == false,
            r.logger.logfile_path == logfile_path,
            r.logger.buffer@.len() == 0,
    {
        Worker {
            test: None,
            master_addr,
            cancelled: false,
            test_started: false,
            logger: Logger::new(logfile_path),
        }
    }

    /// Stop the held test, if any; without one this changes nothing.
    pub fn stop_test(&mut self)
        ensures
            old(self).test is None ==> *final(self) == *old(self),
            old(self).test is Some ==> final(self).test is Some && stopped_from(
                old(self).test->0,
                final(self).test->0,
            ),
            final(self).master_addr == old(self).master_addr,
            final(self).cancelled == old(self).cancelled,
            final(self).test_started == old(self).test_started,
            final(self).logger == old(self).logger,
    {
        match &mut self.test {
            Option::Some(test) => test.stop(),
            Option::None => {},
        }
    }

    /// Finish the held test, if any: stop still wins at every node.
    pub fn finish_test(&mut self)
        ensures
            old(self).test is None ==> *final(self) == *old(self),
            old(self).test is Some ==> final(self).test is Some && finished_from(
                old(self).test->0,
                final(self).test->0,
            ),
            final(self).master_addr == old(self).master_addr,
            final(self).cancelled == old(self).cancelled,
            final(self).test_started == old(self).test_started,
            final(self).logger == old(self).logger,
    {
        match &mut self.test {
            Option::Some(test) => test.finish(),
            Option::None => {},
        }
    }

    /// Note that the held test's run was spawned as an independent task, so
    /// that shutdown knows to await it.
    pub fn run_test(&mut self)
        ensures
            *final(self) == (Worker { test_started: true, ..*old(self) }),
    {
        self.test_started = true;
    }

    /// Stop the test and cancel the bridge's own loop: a remote `Stop` ends
    /// the whole worker session.
    pub fn stop(&mut self)
        ensures
            old(self).test is None ==> final(self).test is None,
            old(self).test is Some ==> final(self).test is Some && stopped_from(
                old(self).test->0,
                final(self).test->0,
            ),
            final(self).cancelled == true,
            final(self).master_addr == old(self).master_addr,
            final(self).test_started == old(self).test_started,
            final(self).logger == old(self).logger,
    {
        self.stop_test();
        self.cancelled = true;
    }

    /// Finish the test and cancel the bridge's own loop.
    pub fn finish(&mut self)
        ensures
            old(self).test is None ==> final(self).test is None,
            old(self).test is Some ==> final(self).test is Some && finished_from(
                old(self).test->0,
                final(self).test->0,
            ),
            final(self).cancelled == true,
            final(self).master_addr == old(self).master_addr,
            final(self).test_started == old(self).test_started,
            final(self).logger == old(self).logger,
    {
        self.finish_test();
        self.cancelled = true;
    }

    /// React to one decoded frame of the control connection.
    ///
    /// - `Create` replaces any held test with the new one, its run-time
    ///   bound cleared: a remote-controlled test runs until told to stop.
    /// - `Start` records that the run was spawned.
    /// - `Stop` and `Finish` forward to the test and end the session.
    /// - A text frame that did not parse is logged as one ERROR line,
    ///   `Invalid message`, and dropped: the connection stays open and no
    ///   other state changes.
    /// - A close event stops the test and the session.
    /// - Any other frame is ignored.
    pub fn handle_frame(&mut self, event: FrameEvent)
        ensures
            final(self).master_addr == old(self).master_addr,
            final(self).logger.logfile_path == old(self).logger.logfile_path,
            match event {
                FrameEvent::Command(msg) => match msg {
                    WebSocketMessage::Create(t, user_count) => {
                        &&& final(self).test == Some(Test { run_time: None::<u64>, ..t })
                        &&& log_view(final(self).logger.buffer@) == log_view(
                            old(self).logger.buffer@,
                        ).push((LogType::INFO, create_log_text(user_count)))
                        &&& final(self).cancelled == old(self).cancelled
                        &&& final(self).test_started == old(self).test_started
                    },
                    WebSocketMessage::Start => {
                        &&& final(self).test == old(self).test
                        &&& final(self).test_started == true
                        &&& log_view(final(self).logger.buffer@) == log_view(
                            old(self).logger.buffer@,
                        ).push((LogType::INFO, "Starting test"@))
                        &&& final(self).cancelled == old(self).cancelled
                    },
                    WebSocketMessage::Stop => {
                        &&& (old(self).test is None ==> final(self).test is None)
                        &&& (old(self).test is Some ==> final(self).test is Some && stopped_from(
                            old(self).test->0,
                            final(self).test->0,
                        ))
                        &&& final(self).cancelled == true
                        &&& final(self).test_started == old(self).test_started
                        &&& log_view(final(self).logger.buffer@) == log_view(
                            old(self).logger.buffer@,
                        ).push((LogType::INFO, "Stopping test"@))
                    },
                    WebSocketMessage::Finish => {
                        &&& (old(self).test is None ==> final(self).test is None)
                        &&& (old(self).test is Some ==> final(self).test is Some && finished_from(
                            old(self).test->0,
                            final(self).test->0,
                        ))
                        &&& final(self).cancelled == true
                        &&& final(self).test_started == old(self).test_started
                        &&& log_view(final(self).logger.buffer@) == log_view(
                            old(self).logger.buffer@,
                        ).push((LogType::INFO, "Finishing test"@))
                    },
                },
                FrameEvent::InvalidText => {
                    &&& final(self).test == old(self).test
                    &&& final(self).cancelled == old(self).cancelled
                    &&& final(self).test_started == old(self).test_started
                    &&& log_view(final(self).logger.buffer@) == log_view(
                        old(self).logger.buffer@,
                    ).push((LogType::ERROR, "Invalid message"@))
                },
                FrameEvent::Close => {
                    &&& (old(self).test is None ==> final(self).test is None)
                    &&& (old(self).test is Some ==> final(self).test is Some && stopped_from(
                        old(self).test->0,
                        final(self).test->0,
                    ))
                    &&& final(self).cancelled == true
                    &&& final(self).test_started == old(self).test_started
                    &&& log_view(final(self).logger.buffer@) == log_view(
                        old(self).logger.buffer@,
                    ).push((LogType::INFO, "Closing connection"@)).push(
                        (LogType::INFO, "Stopping test"@),
                    )
                },
                FrameEvent::Other => *final(self) == *old(self),
            },
    {
        match event {
            FrameEvent::Command(msg) => match msg {
                WebSocketMessage::Create(mut test, user_count) => {
                    test.set_run_time(None);
                    self.logger.log_buffered(LogType::INFO, Self::create_log_message(user_count));
                    self.test = Some(test);
                },
                WebSocketMessage::Start => {
                    self.logger.log_buffered(LogType::INFO, String::from_str("Starting test"));
                    self.run_test();
                },
                WebSocketMessage::Stop => {
                    self.logger.log_buffered(LogType::INFO, String::from_str("Stopping test"));
                    self.stop();
                },
                WebSocketMessage::Finish => {
                    self.logger.log_buffered(LogType::INFO, String::from_str("Finishing test"));
                    self.finish();
                },
            },
            FrameEvent::InvalidText => {
                self.logger.log_buffered(LogType::ERROR, String::from_str("Invalid message"));
            },
            FrameEvent::Close => {
                self.logger.log_buffered(LogType::INFO, String::from_str("Closing connection"));
                self.logger.log_buffered(LogType::INFO, String::from_str("Stopping test"));
                self.stop();
            },
            FrameEvent::Other => {},
        }
    }

    /// The text announcing a created test, with the client count in decimal.
    fn create_log_message(user_count: u64) -> (r: String)
        ensures
            r@ == create_log_text(user_count),
    {
        let count = crate::text::u64_to_string(user_count);
        String::from_str("Creating Test with [").concat(count.as_str()).concat("] users")
    }

    /// Leaving the run loop: one farewell line is buffered and the whole
    /// buffer is handed over for the sink to write, leaving it empty — no
    /// buffered line is silently lost.
    pub fn shutdown(&mut self) -> (r: Vec<(LogType, String)>)
        ensures
            log_view(r@) == log_view(old(self).logger.buffer@).push(
                (LogType::INFO, "Terminating... Bye!"@),
            ),
            final(self).logger.buffer@.len() == 0,
            final(self).logger.logfile_path == old(self).logger.logfile_path,
            final(self).test == old(self).test,
            final(self).cancelled == old(self).cancelled,
            final(self).test_started == old(self).test_started,
            final(self).master_addr == old(self).master_addr,
    {
        self.logger.log_buffered(LogType::INFO, String::from_str("Terminating... Bye!"));
        self.logger.flush_buffer()
    }
}

} // verus!
