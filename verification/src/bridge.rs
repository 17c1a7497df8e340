//! The host-side state of the bridge: the workbook directory that scripts
//! read files from, the one-time start of the cell monitor, and the native
//! heartbeat timer.

use vstd::prelude::*;
use crate::error::BridgeError;
use crate::utf16::{is_surrogate, text_from_utf16, utf16_lossy};

verus! {

/// The heartbeat interval used when the host asks for 0 ms.
pub const DEFAULT_HEARTBEAT_MS: u32 = 100;

/// The heartbeat interval for a requested one: 0 means the default.
pub open spec fn heartbeat_interval(requested_ms: u32) -> u32 {
    if requested_ms == 0 { DEFAULT_HEARTBEAT_MS } else { requested_ms }
}

/// A workbook file to read: the workbook directory and the file name in it.
#[derive(Debug, Clone, PartialEq)]
pub struct WorkbookFile {
    pub dir: String,
    pub file_name: String,
}

/// The workbook file that a file name stands for, given the workbook
/// directory (if one is set): the directory and the name, or an error when
/// no directory is set.
pub open spec fn workbook_file_of(dir: Option<Seq<char>>, file_name: Seq<char>) -> Result<(Seq<char>, Seq<char>), BridgeError> {
    match dir {
        Some(d) => Ok((d, file_name)),
        None => Err(BridgeError::WorkbookPathNotSet),
    }
}

/// Whether starting the monitor starts it now: only the first time.
pub open spec fn monitor_starts(started: bool) -> bool {
    !started
}

/// The timer id kept after a timer was created with id `id`: the new one
/// when none was kept, the kept one otherwise.
pub open spec fn timer_after_record(kept: usize, id: usize) -> usize {
    if kept == 0 { id } else { kept }
}

/// A host call on the heartbeat, with the id that creating a timer gave
/// (when the call creates one).
#[derive(Debug, Clone, Copy, PartialEq)]
pub enum HeartbeatCall {
    Start(usize),
    Stop,
}

/// The kept timer id after a heartbeat call: a start keeps a newly created
/// timer only when none runs; a stop forgets the running one.
pub open spec fn timer_after_call(kept: usize, call: HeartbeatCall) -> usize {
    match call {
        HeartbeatCall::Start(id) => timer_after_record(kept, id),
        HeartbeatCall::Stop => 0,
    }
}

/// How many timers a heartbeat call creates: one for a start when none runs.
pub open spec fn timers_created_by(kept: usize, call: HeartbeatCall) -> nat {
    match call {
        HeartbeatCall::Start(_) => if kept == 0 { 1 } else { 0 },
        HeartbeatCall::Stop => 0,
    }
}

/// How many timers a heartbeat call kills: one for a stop when one runs.
pub open spec fn timers_killed_by(kept: usize, call: HeartbeatCall) -> nat {
    match call {
        HeartbeatCall::Start(_) => 0,
        HeartbeatCall::Stop => if kept != 0 { 1 } else { 0 },
    }
}

/// The kept timer id after a run of heartbeat calls, with the numbers of
/// timers created and killed on the way.
pub open spec fn heartbeat_run(kept: usize, calls: Seq<HeartbeatCall>) -> (usize, nat, nat)
    decreases calls.len(),
{
    if calls.len() == 0 {
        (kept, 0, 0)
    } else {
        let (last, created, killed) = heartbeat_run(timer_after_call(kept, calls[0]), calls.drop_first());
        (last, created + timers_created_by(kept, calls[0]), killed + timers_killed_by(kept, calls[0]))
    }
}

/// The state that the host keeps for the bridge.
pub struct BridgeState {
    workbook_dir: Option<String>,
    monitor_started: bool,
    timer_id: usize,
}

impl BridgeState {
    /// The workbook directory, if set.
    pub closed spec fn workbook_dir(self) -> Option<Seq<char>> {
        match self.workbook_dir {
            Some(d) => Some(d@),
            None => None,
        }
    }

    /// Whether the cell monitor has been started.
    pub closed spec fn monitor_started(self) -> bool {
        self.monitor_started
    }

    /// The id of the running heartbeat timer; 0 when there is none.
    pub closed spec fn timer_id(self) -> usize {
        self.timer_id
    }

    /// No workbook directory, monitor not started, no timer.
    pub fn new() -> (r: Self)
        ensures
            r.workbook_dir() is None,
            !r.monitor_started(),
            r.timer_id() == 0,
    {
        BridgeState { workbook_dir: None, monitor_started: false, timer_id: 0 }
    }

    /// Sets the workbook directory.
    pub fn set_workbook_dir(&mut self, dir: String)
        ensures
            final(self).workbook_dir() == Some(dir@),
            final(self).monitor_started() == old(self).monitor_started(),
            final(self).timer_id() == old(self).timer_id(),
    {
        self.workbook_dir = Some(dir);
    }

    /// Sets the workbook directory from the UTF-16 path the host hands over;
    /// without a path (a null pointer) nothing changes.
    pub fn set_workbook_path(&mut self, path: Option<&[u16]>)
        ensures
            path is None ==> final(self).workbook_dir() == old(self).workbook_dir(),
            path matches Some(units) ==> final(self).workbook_dir() == Some(utf16_lossy(units@)),
            path matches Some(units) ==> ((forall|i: int| 0 <= i < units@.len() ==> !is_surrogate(#[trigger] units@[i]))
                ==> final(self).workbook_dir() == Some(units@.map_values(|u: u16| u as char))),
            final(self).monitor_started() == old(self).monitor_started(),
            final(self).timer_id() == old(self).timer_id(),
    {
        match path {
            None => {},
            Some(units) => {
                let dir = text_from_utf16(units);
                self.workbook_dir = Some(dir);
            },
        }
    }

    /// The workbook file that a script asks to read: the directory and the
    /// name, or `WorkbookPathNotSet` before a directory is set.
    pub fn workbook_file(&self, file_name: String) -> (r: Result<WorkbookFile, BridgeError>)
        ensures
            match workbook_file_of(self.workbook_dir(), file_name@) {
                Ok((d, f)) => r matches Ok(wf) && wf.dir@ == d && wf.file_name@ == f,
                Err(e) => r == Err::<WorkbookFile, BridgeError>(e),
            },
    {
        match &self.workbook_dir {
            Some(d) => Ok(WorkbookFile { dir: d.clone(), file_name }),
            None => Err(BridgeError::WorkbookPathNotSet),
        }
    }

    /// A request to start the cell monitor: true (start it) only the first
    /// time.
    pub fn try_start_monitor(&mut self) -> (start: bool)
        ensures
            start == monitor_starts(old(self).monitor_started()),
            final(self).monitor_started(),
            final(self).workbook_dir() == old(self).workbook_dir(),
            final(self).timer_id() == old(self).timer_id(),
    {
        if self.monitor_started {
            false
        } else {
            self.monitor_started = true;
            true
        }
    }

    /// A request to start the heartbeat: the interval to create a timer
    /// with, or `None` when a timer is already running.
    pub fn heartbeat_request(&self, requested_ms: u32) -> (r: Option<u32>)
        ensures
            r is Some <==> self.timer_id() == 0,
            r matches Some(ms) ==> ms == heartbeat_interval(requested_ms),
    {
        if self.timer_id == 0 {
            Some(if requested_ms == 0 { DEFAULT_HEARTBEAT_MS } else { requested_ms })
        } else {
            None
        }
    }

    /// Keeps the id of a newly created timer, unless one is already kept.
    pub fn record_timer(&mut self, id: usize)
        ensures
            final(self).timer_id() == timer_after_record(old(self).timer_id(), id),
            final(self).workbook_dir() == old(self).workbook_dir(),
            final(self).monitor_started() == old(self).monitor_started(),
    {
        if self.timer_id == 0 {
            self.timer_id = id;
        }
    }

    /// A request to stop the heartbeat: the id of the timer to kill (if one
    /// is running), which is forgotten.
    pub fn stop_heartbeat(&mut self) -> (r: Option<usize>)
        ensures
            old(self).timer_id() != 0 ==> r == Some(old(self).timer_id()),
            old(self).timer_id() == 0 ==> r is None,
            final(self).timer_id() == 0,
            final(self).workbook_dir() == old(self).workbook_dir(),
            final(self).monitor_started() == old(self).monitor_started(),
    {
        if self.timer_id != 0 {
            let id = self.timer_id;
            self.timer_id = 0;
            Some(id)
        } else {
            None
        }
    }
}

} // verus!
