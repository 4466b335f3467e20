//! The engine's shared status and the start / stop decisions.
use vstd::prelude::*;
use vstd::string::StringExecFns;
use crate::search::RunFlag;

verus! {

/// A snapshot of what the engine is doing.
pub struct EngineStatus {
    pub is_mining: bool,
    pub worker_count: usize,
    pub connection_status: String,
    pub last_error: String,
}

/// The status as plain values.
pub struct StatusModel {
    pub is_mining: bool,
    pub worker_count: nat,
    pub connection_status: Seq<char>,
    pub last_error: Seq<char>,
}

impl View for EngineStatus {
    type V = StatusModel;

    open spec fn view(&self) -> StatusModel {
        StatusModel {
            is_mining: self.is_mining,
            worker_count: self.worker_count as nat,
            connection_status: self.connection_status@,
            last_error: self.last_error@,
        }
    }
}

/// The status of an engine that has not started.
pub open spec fn initial_status() -> StatusModel {
    StatusModel {
        is_mining: false,
        worker_count: 0,
        connection_status: "Not Connected"@,
        last_error: "None"@,
    }
}

/// The status after a start with `workers` workers: unchanged while mining.
pub open spec fn started(s: StatusModel, workers: nat) -> StatusModel {
    if s.is_mining {
        s
    } else {
        StatusModel { is_mining: true, worker_count: workers, ..s }
    }
}

/// The status after a stop: unchanged unless mining.
pub open spec fn stopped(s: StatusModel) -> StatusModel {
    StatusModel { is_mining: false, ..s }
}

impl EngineStatus {
    pub fn new() -> (r: EngineStatus)
        ensures
            r@ == initial_status(),
    {
        EngineStatus {
            is_mining: false,
            worker_count: 0,
            connection_status: String::from_str("Not Connected"),
            last_error: String::from_str("None"),
        }
    }

    /// A copy of this status.
    pub fn snapshot(&self) -> (r: EngineStatus)
        ensures
            r@ == self@,
    {
        EngineStatus {
            is_mining: self.is_mining,
            worker_count: self.worker_count,
            connection_status: self.connection_status.clone(),
            last_error: self.last_error.clone(),
        }
    }
}

impl Default for EngineStatus {
    fn default() -> (r: EngineStatus)
        ensures
            r@ == initial_status(),
    {
        EngineStatus::new()
    }
}

/// Owns the run flag and the status that every worker shares.
pub struct Supervisor {
    flag: RunFlag,
    status: EngineStatus,
}

impl View for Supervisor {
    type V = StatusModel;

    closed spec fn view(&self) -> StatusModel {
        self.status@
    }
}

impl Supervisor {
    pub fn new() -> (r: Supervisor)
        ensures
            r@ == initial_status(),
    {
        Supervisor { flag: RunFlag::new(false), status: EngineStatus::new() }
    }

    /// Starts mining with `workers` workers. Returns whether the caller is
    /// to spawn them: not when mining is already on. Each start raises a
    /// new run flag, so workers of an earlier run that are still winding
    /// down keep seeing theirs cleared.
    pub fn start(&mut self, workers: usize) -> (spawn: bool)
        ensures
            spawn == !old(self)@.is_mining,
            final(self)@ == started(old(self)@, workers as nat),
    {
        if self.status.is_mining {
            return false;
        }
        self.flag = RunFlag::new(true);
        self.status.is_mining = true;
        self.status.worker_count = workers;
        true
    }

    /// Stops mining. Returns whether there were workers to wind down.
    pub fn stop(&mut self) -> (was_mining: bool)
        ensures
            was_mining == old(self)@.is_mining,
            final(self)@ == stopped(old(self)@),
    {
        if !self.status.is_mining {
            return false;
        }
        self.flag.set(false);
        self.status.is_mining = false;
        true
    }

    /// A copy of the current status.
    pub fn status(&self) -> (r: EngineStatus)
        ensures
            r@ == self@,
    {
        self.status.snapshot()
    }

    /// A handle on the run flag, for a worker.
    pub fn run_flag(&self) -> (r: RunFlag) {
        self.flag.share()
    }

    pub fn set_connection_status(&mut self, text: String)
        ensures
            final(self)@ == (StatusModel { connection_status: text@, ..old(self)@ }),
    {
        self.status.connection_status = text;
    }

    pub fn set_last_error(&mut self, text: String)
        ensures
            final(self)@ == (StatusModel { last_error: text@, ..old(self)@ }),
    {
        self.status.last_error = text;
    }
}

/// The number of workers that `cores` cores with `threads` threads each
/// make: none when the product is not positive, at most `u32::MAX`.
pub open spec fn workers_for(cores: i32, threads: i32) -> u32 {
    let p = cores as int * threads as int;
    if p <= 0 {
        0
    } else if p > u32::MAX {
        u32::MAX
    } else {
        p as u32
    }
}

pub fn worker_count(cores: i32, threads: i32) -> (r: u32)
    ensures
        r == workers_for(cores, threads),
{
    let c = cores as i64;
    let t = threads as i64;
    assert(-0x8000_0000 <= c <= 0x7fff_ffff && -0x8000_0000 <= t <= 0x7fff_ffff);
    assert(-0x4000_0000_0000_0000 <= c * t <= 0x4000_0000_0000_0000) by (nonlinear_arith)
        requires
            -0x8000_0000 <= c <= 0x7fff_ffff,
            -0x8000_0000 <= t <= 0x7fff_ffff,
    ;
    let p = c * t;
    if p <= 0 {
        0
    } else if p > u32::MAX as i64 {
        u32::MAX
    } else {
        p as u32
    }
}

/// Starting again while mining changes nothing and spawns nothing.
pub proof fn lemma_start_idempotent(s: StatusModel, first: nat, second: nat)
    ensures
        started(started(s, first), second) == started(s, first),
        started(s, first).is_mining,
{
}

/// Stopping a second time changes nothing and winds nothing down.
pub proof fn lemma_stop_idempotent(s: StatusModel)
    ensures
        stopped(stopped(s)) == stopped(s),
        !stopped(s).is_mining,
{
}

} // verus!
