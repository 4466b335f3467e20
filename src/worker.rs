//! The decisions of one worker, as a machine from events to actions. The
//! caller performs each action (a discovery request, a connect, a read or a
//! write, a search, a sleep) and hands the outcome back as the next event.
use vstd::prelude::*;
use vstd::string::StringExecFns;
use crate::codec::{dec_chars, decimal_text};
use crate::job::{is_job_of, holds_job, lemma_short_reply_skipped, reply_fields, read_reply, request_line, Job, JobReply};
use crate::pool::PoolEndpoint;
use crate::search::SearchOutcome;
use crate::text::{is_trim_of, trim_text};

verus! {

/// Seconds to wait before discovering a pool again after a failure.
pub const BACKOFF_SECS: u64 = 10;

/// Seconds allowed for opening a connection.
pub const CONNECT_TIMEOUT_SECS: u64 = 10;

/// Seconds allowed for each read and each write on a connection.
pub const IO_TIMEOUT_SECS: u64 = 15;

/// Bytes read for the pool's greeting.
pub const GREETING_BUFFER: usize = 128;

/// Bytes read for a job reply.
pub const REPLY_BUFFER: usize = 1024;

/// Bytes read for the pool's feedback on a result.
pub const FEEDBACK_BUFFER: usize = 128;

/// Where a worker stands between two events.
pub enum Phase {
    /// Not begun.
    Idle,
    /// Waiting for a pool from discovery.
    Locating,
    /// Waiting for the connection to this pool.
    Connecting(PoolEndpoint),
    /// Connected to this pool, waiting for its greeting.
    Greeting(PoolEndpoint),
    /// Waiting for the connection status to be published.
    Joining,
    /// Waiting for the reply to a job request.
    Requesting,
    /// Waiting for the search of a job.
    Searching,
    /// Waiting for the pool's feedback on a result.
    Submitting,
    /// Waiting for feedback to be announced.
    Announcing,
    /// Waiting for an error to be reported.
    Failing,
    /// Waiting for the connection to be dropped.
    Leaving,
    /// Done for good.
    Finished,
}

/// What the caller is to do next.
pub enum Action {
    /// Ask discovery for a pool.
    Locate,
    /// Set the connection status to the first text, then connect to the
    /// `address:port` in the second.
    Connect(String, String),
    /// Read the pool's greeting.
    ReadGreeting,
    /// Set the connection status to the text.
    Publish(String),
    /// Write this line and read the reply.
    RequestJob(String),
    /// Search this job.
    Search(Job),
    /// Submit this nonce and read the feedback.
    Submit(u64),
    /// Announce the pool's feedback on the last result.
    Announce(String),
    /// Record and announce this error, then wait this many seconds.
    Report(String, u64),
    /// Drop the connection and set the connection status to the text.
    Disconnect(String),
    /// Stop the worker.
    Exit,
}

/// The outcome of the last action.
pub enum Event {
    /// The action is done; it had no outcome to report.
    Done,
    Located(PoolEndpoint),
    LocateFailed(String),
    Connected,
    ConnectFailed(String),
    /// The greeting, as read; empty at the end of the stream.
    Greeted(Vec<u8>),
    /// Reading the greeting failed.
    GreetingFailed,
    /// The reply to a job request, as read; empty when nothing was read.
    Replied(Vec<u8>),
    /// Writing the request or reading the reply failed.
    ReplyFailed,
    Searched(SearchOutcome),
    /// The feedback on a result, as read; `None` when it could not be read.
    Fed(Option<String>),
    /// Writing the result failed.
    SubmitFailed,
}

/// One worker: its thread id, the user it mines for, and its phase.
pub struct Worker {
    pub thread_id: u32,
    pub username: String,
    pub phase: Phase,
}

/// An error line from thread `tid`.
pub open spec fn thread_error(tid: u32, what: Seq<char>) -> Seq<char> {
    "[Thread "@ + dec_chars(tid as nat) + "] "@ + what
}

/// Back at the top of the discovery loop: locate a pool, or finish once
/// the run flag is cleared.
pub open spec fn resumes_discovery(w: Worker, a: Action, running: bool) -> bool {
    if running {
        w.phase is Locating && a is Locate
    } else {
        w.phase is Finished && a is Exit
    }
}

/// Back at the top of the job loop: ask for a job, or drop the connection
/// once the run flag is cleared.
pub open spec fn resumes_jobs(w: Worker, a: Action, running: bool) -> bool {
    if running {
        w.phase is Requesting && a is RequestJob && a->RequestJob_0@ == "JOB,"@ + w.username@
            + ",LOW\n"@
    } else {
        leaves(w, a)
    }
}

/// The connection is given up.
pub open spec fn leaves(w: Worker, a: Action) -> bool {
    w.phase is Leaving && a is Disconnect && a->Disconnect_0@ == "Disconnected"@
}

/// An error is reported, and discovery starts over after it.
pub open spec fn fails(w: Worker, a: Action, message: Seq<char>, wait: u64) -> bool {
    w.phase is Failing && a is Report && a->Report_0@ == message && a->Report_1 == wait
}

/// The step taken on `e` from phase `p`, given the run flag.
pub open spec fn step_ok(tid: u32, p: Phase, e: Event, running: bool, w: Worker, a: Action) -> bool {
    match (p, e) {
        (Phase::Idle, _) => resumes_discovery(w, a, running),
        (Phase::Locating, Event::Located(pool)) => w.phase == Phase::Connecting(pool) && a is Connect
            && a->Connect_0@ == "Connecting to "@ + pool.name@ && a->Connect_1@ == pool.address@
            + ":"@ + dec_chars(pool.port as nat),
        (Phase::Locating, Event::LocateFailed(m)) => fails(
            w,
            a,
            thread_error(tid, "Error getting pool: "@ + m@),
            BACKOFF_SECS,
        ),
        (Phase::Connecting(pool), Event::Connected) => w.phase == Phase::Greeting(pool) && a
            is ReadGreeting,
        (Phase::Connecting(_), Event::ConnectFailed(m)) => fails(
            w,
            a,
            thread_error(tid, "Error connecting to server: "@ + m@),
            BACKOFF_SECS,
        ),
        (Phase::Greeting(pool), Event::Greeted(text)) => if text@.len() == 0 {
            fails(w, a, thread_error(tid, "Error reading server version"@), BACKOFF_SECS)
        } else {
            w.phase is Joining && a is Publish && a->Publish_0@ == "Connected to "@ + pool.name@
        },
        (Phase::Greeting(_), Event::GreetingFailed) => fails(
            w,
            a,
            thread_error(tid, "Error reading server version"@),
            BACKOFF_SECS,
        ),
        (Phase::Joining, Event::Done) => resumes_jobs(w, a, running),
        (Phase::Requesting, Event::Replied(text)) => if text@.len() == 0 {
            leaves(w, a)
        } else if !holds_job(text@) {
            resumes_jobs(w, a, running)
        } else {
            w.phase is Searching && a is Search && is_job_of(a->Search_0, text@)
        },
        (Phase::Requesting, Event::ReplyFailed) => leaves(w, a),
        (Phase::Searching, Event::Searched(SearchOutcome::Found(n))) => w.phase is Submitting
            && a == Action::Submit(n),
        (Phase::Searching, Event::Searched(_)) => resumes_jobs(w, a, running),
        (Phase::Submitting, Event::Fed(Some(f))) => w.phase is Announcing && a is Announce
            && is_trim_of(a->Announce_0@, f@),
        (Phase::Submitting, Event::Fed(None)) => resumes_jobs(w, a, running),
        (Phase::Submitting, Event::SubmitFailed) => leaves(w, a),
        (Phase::Announcing, Event::Done) => resumes_jobs(w, a, running),
        (Phase::Failing, Event::Done) => resumes_discovery(w, a, running),
        (Phase::Leaving, Event::Done) => resumes_discovery(w, a, running),
        _ => w.phase is Finished && a is Exit,
    }
}

/// A reply with fewer than three fields leaves the connection up: while
/// the run flag is on the worker asks for the next job on it.
pub proof fn lemma_short_reply_keeps_connection(tid: u32, text: Vec<u8>, w: Worker, a: Action)
    requires
        step_ok(tid, Phase::Requesting, Event::Replied(text), true, w, a),
        text@.len() > 0,
        reply_fields(text@).len() < 3,
    ensures
        w.phase is Requesting && a is RequestJob,
{
    lemma_short_reply_skipped(text@);
}

/// An empty read on a job request drops the connection.
pub proof fn lemma_empty_reply_drops_connection(tid: u32, text: Vec<u8>, running: bool, w: Worker, a: Action)
    requires
        step_ok(tid, Phase::Requesting, Event::Replied(text), running, w, a),
        text@.len() == 0,
    ensures
        w.phase is Leaving && a is Disconnect,
{
}

impl Worker {
    pub fn new(thread_id: u32, username: String) -> (r: Worker)
        ensures
            r.thread_id == thread_id,
            r.username@ == username@,
            r.phase is Idle,
    {
        Worker { thread_id, username, phase: Phase::Idle }
    }

    fn to_discovery(&mut self, running: bool) -> (a: Action)
        ensures
            final(self).thread_id == old(self).thread_id,
            final(self).username == old(self).username,
            resumes_discovery(*final(self), a, running),
    {
        if running {
            self.phase = Phase::Locating;
            Action::Locate
        } else {
            self.phase = Phase::Finished;
            Action::Exit
        }
    }

    fn to_jobs(&mut self, running: bool) -> (a: Action)
        ensures
            final(self).thread_id == old(self).thread_id,
            final(self).username == old(self).username,
            resumes_jobs(*final(self), a, running),
    {
        if running {
            self.phase = Phase::Requesting;
            Action::RequestJob(request_line(self.username.as_str()))
        } else {
            self.leave()
        }
    }

    fn leave(&mut self) -> (a: Action)
        ensures
            final(self).thread_id == old(self).thread_id,
            final(self).username == old(self).username,
            leaves(*final(self), a),
    {
        self.phase = Phase::Leaving;
        Action::Disconnect(String::from_str("Disconnected"))
    }

    fn fail(&mut self, what: String, wait: u64) -> (a: Action)
        ensures
            final(self).thread_id == old(self).thread_id,
            final(self).username == old(self).username,
            fails(*final(self), a, thread_error(old(self).thread_id, what@), wait),
    {
        self.phase = Phase::Failing;
        let message = String::from_str("[Thread ").concat(decimal_text(self.thread_id as u64).as_str()).concat(
            "] ",
        ).concat(what.as_str());
        Action::Report(message, wait)
    }

    /// Takes the outcome of the last action and decides the next one;
    /// `running` is the run flag as read just before.
    pub fn step(&mut self, event: Event, running: bool) -> (a: Action)
        ensures
            final(self).thread_id == old(self).thread_id,
            final(self).username == old(self).username,
            step_ok(old(self).thread_id, old(self).phase, event, running, *final(self), a),
    {
        match event {
            Event::Done => {
                match self.phase {
                    Phase::Idle | Phase::Failing | Phase::Leaving => self.to_discovery(running),
                    Phase::Announcing | Phase::Joining => self.to_jobs(running),
                    _ => self.finish(),
                }
            },
            Event::Located(pool) => {
                match self.phase {
                    Phase::Idle => self.to_discovery(running),
                    Phase::Locating => {
                        let status = String::from_str("Connecting to ").concat(pool.name.as_str());
                        let address = pool.socket_text();
                        self.phase = Phase::Connecting(pool);
                        Action::Connect(status, address)
                    },
                    _ => self.finish(),
                }
            },
            Event::LocateFailed(m) => {
                match self.phase {
                    Phase::Idle => self.to_discovery(running),
                    Phase::Locating => self.fail(
                        String::from_str("Error getting pool: ").concat(m.as_str()),
                        BACKOFF_SECS,
                    ),
                    _ => self.finish(),
                }
            },
            Event::Connected => {
                let mut prev = Phase::Idle;
                core::mem::swap(&mut self.phase, &mut prev);
                match prev {
                    Phase::Idle => self.to_discovery(running),
                    Phase::Connecting(pool) => {
                        self.phase = Phase::Greeting(pool);
                        Action::ReadGreeting
                    },
                    _ => self.finish(),
                }
            },
            Event::ConnectFailed(m) => {
                match self.phase {
                    Phase::Idle => self.to_discovery(running),
                    Phase::Connecting(_) => self.fail(
                        String::from_str("Error connecting to server: ").concat(m.as_str()),
                        BACKOFF_SECS,
                    ),
                    _ => self.finish(),
                }
            },
            Event::Greeted(text) => {
                match self.phase {
                    Phase::Idle => self.to_discovery(running),
                    Phase::Greeting(ref pool) => if text.len() == 0 {
                        self.fail(String::from_str("Error reading server version"), BACKOFF_SECS)
                    } else {
                        let status = String::from_str("Connected to ").concat(pool.name.as_str());
                        self.phase = Phase::Joining;
                        Action::Publish(status)
                    },
                    _ => self.finish(),
                }
            },
            Event::GreetingFailed => {
                match self.phase {
                    Phase::Idle => self.to_discovery(running),
                    Phase::Greeting(_) => self.fail(
                        String::from_str("Error reading server version"),
                        BACKOFF_SECS,
                    ),
                    _ => self.finish(),
                }
            },
            Event::Replied(text) => {
                match self.phase {
                    Phase::Idle => self.to_discovery(running),
                    Phase::Requesting => {
                        match read_reply(text.as_slice()) {
                            JobReply::Dead => self.leave(),
                            JobReply::Skip => self.to_jobs(running),
                            JobReply::Ready(job) => {
                                self.phase = Phase::Searching;
                                Action::Search(job)
                            },
                        }
                    },
                    _ => self.finish(),
                }
            },
            Event::ReplyFailed => {
                match self.phase {
                    Phase::Idle => self.to_discovery(running),
                    Phase::Requesting => self.leave(),
                    _ => self.finish(),
                }
            },
            Event::Searched(outcome) => {
                match self.phase {
                    Phase::Idle => self.to_discovery(running),
                    Phase::Searching => {
                        match outcome {
                            SearchOutcome::Found(n) => {
                                self.phase = Phase::Submitting;
                                Action::Submit(n)
                            },
                            _ => self.to_jobs(running),
                        }
                    },
                    _ => self.finish(),
                }
            },
            Event::Fed(feedback) => {
                match self.phase {
                    Phase::Idle => self.to_discovery(running),
                    Phase::Submitting => {
                        match feedback {
                            Some(f) => {
                                self.phase = Phase::Announcing;
                                Action::Announce(trim_text(f.as_str()))
                            },
                            None => self.to_jobs(running),
                        }
                    },
                    _ => self.finish(),
                }
            },
            Event::SubmitFailed => {
                match self.phase {
                    Phase::Idle => self.to_discovery(running),
                    Phase::Submitting => self.leave(),
                    _ => self.finish(),
                }
            },
        }
    }

    fn finish(&mut self) -> (a: Action)
        ensures
            final(self).thread_id == old(self).thread_id,
            final(self).username == old(self).username,
            final(self).phase is Finished && a is Exit,
    {
        self.phase = Phase::Finished;
        Action::Exit
    }
}

/// The line announcing a result's feedback: thread id, feedback and the
/// hash rate text.
pub fn progress_message(thread_id: u32, feedback: &str, hashrate: &str) -> (r: String)
    ensures
        r@ == "["@ + dec_chars(thread_id as nat) + "] "@ + feedback@ + " "@ + hashrate@ + " H/s"@,
{
    String::from_str("[").concat(decimal_text(thread_id as u64).as_str()).concat("] ").concat(
        feedback,
    ).concat(" ").concat(hashrate).concat(" H/s")
}

} // verus!
