//! The bookkeeping of a handle to a running process: whether it was aborted and how it
//! ended.

use vstd::prelude::*;

verus! {

/// How a process ended, as far as its handle knows.
#[derive(Clone, Copy, PartialEq, Eq, Structural, Debug)]
pub enum ExitStatus {
    /// the process has not ended yet
    Running,
    /// the process exited with the given exit code
    Exited(i32),
    /// the process was aborted by the core
    Aborted,
}

impl ExitStatus {
    /// Returns `true` if the process has not ended yet.
    pub fn is_none(&self) -> (b: bool)
        ensures
            b == (*self is Running),
    {
        match self {
            ExitStatus::Running => true,
            _ => false,
        }
    }
}

/// What polling the handle for its end gave.
#[derive(Clone, Copy, PartialEq, Eq, Structural, Debug)]
pub enum EndOutcome {
    /// the process task has not ended and was not aborted
    Pending,
    /// the process task ended with the given exit code; this is reported once
    Exited(i32),
    /// the process was aborted; the driver must abort the task; this is reported once
    Aborted,
}

/// The status of a handle to a running process.
pub struct HandleStatus {
    was_aborted: bool,
    exit_status: ExitStatus,
}

impl HandleStatus {
    pub closed spec fn aborted(self) -> bool {
        self.was_aborted
    }

    pub closed spec fn status(self) -> ExitStatus {
        self.exit_status
    }

    /// The status of a process that was just started.
    pub fn new() -> (h: Self)
        ensures
            !h.aborted(),
            h.status() == ExitStatus::Running,
    {
        Self { was_aborted: false, exit_status: ExitStatus::Running }
    }

    /// How the process ended, as far as the handle knows.
    pub fn exit_status(&self) -> (s: ExitStatus)
        ensures
            s == self.status(),
    {
        self.exit_status
    }

    /// The task that runs the process needs polling while the process has not ended.
    pub fn needs_task_poll(&self) -> (b: bool)
        ensures
            b == (self.status() is Running),
    {
        self.exit_status.is_none()
    }

    /// Records that the core aborted the process.
    pub fn terminate(&mut self)
        ensures
            final(self).aborted(),
            final(self).status() == old(self).status(),
    {
        self.was_aborted = true;
    }

    /// Records what polling the process task gave: `Some(result)` if it has ended, where
    /// `result` is its exit code or `None` if the task failed (which counts as exit code
    /// 1); `None` if it is still running. A pending task of an aborted process counts
    /// as aborted.
    pub fn on_task_poll(&mut self, task: Option<Option<i32>>) -> (o: EndOutcome)
        requires
            old(self).status() is Running,
        ensures
            final(self).aborted() == old(self).aborted(),
            match task {
                Some(result) => {
                    let code = match result {
                        Some(c) => c,
                        None => 1i32,
                    };
                    o == EndOutcome::Exited(code) && final(self).status() == ExitStatus::Exited(code)
                },
                None => if old(self).aborted() {
                    o == EndOutcome::Aborted && final(self).status() == ExitStatus::Aborted
                } else {
                    o == EndOutcome::Pending && final(self).status() == ExitStatus::Running
                },
            },
    {
        match task {
            Some(result) => {
                let code = match result {
                    Some(c) => c,
                    None => 1,
                };
                self.exit_status = ExitStatus::Exited(code);
                EndOutcome::Exited(code)
            },
            None => {
                if self.was_aborted {
                    self.exit_status = ExitStatus::Aborted;
                    EndOutcome::Aborted
                } else {
                    EndOutcome::Pending
                }
            },
        }
    }

    /// After all events were received, the handle is done once the process has ended.
    pub fn is_done(&self, events_closed_and_empty: bool) -> (b: bool)
        ensures
            b == (events_closed_and_empty && !(self.status() is Running)),
    {
        events_closed_and_empty && !self.exit_status.is_none()
    }

    /// The process has ended, aborted or not, and all its events were received.
    pub fn has_ended(&self, events_empty: bool) -> (b: bool)
        ensures
            b == (events_empty && !(self.status() is Running)),
    {
        if !events_empty {
            return false;
        }
        !self.exit_status.is_none()
    }

    /// The process has exited by itself and all its events were received; a finished
    /// process always has an exit code.
    pub fn has_finished(&self, events_empty: bool) -> (b: bool)
        ensures
            b == (events_empty && self.status() is Exited),
    {
        if !events_empty {
            return false;
        }
        match self.exit_status {
            ExitStatus::Exited(_) => true,
            _ => false,
        }
    }

    /// The exit code, if the process exited and was not aborted.
    pub fn exit_code(&self) -> (c: Option<i32>)
        ensures
            c == match self.status() {
                ExitStatus::Exited(code) => Some(code),
                _ => None::<i32>,
            },
    {
        match self.exit_status {
            ExitStatus::Running => None,
            ExitStatus::Exited(code) => Some(code),
            ExitStatus::Aborted => None,
        }
    }
}

/// A finished handle has an exit code: what `has_finished` says is `true` of, `exit_code`
/// gives a code for.
pub proof fn lemma_finished_has_code(h: HandleStatus, events_empty: bool)
    requires
        events_empty && h.status() is Exited,
    ensures
        match h.status() {
            ExitStatus::Exited(code) => Some(code),
            _ => None::<i32>,
        } is Some,
{
}

/// Once the handle knows that the process ended, it is not polled for its end again,
/// and a finished process always has an exit status other than running.
pub proof fn lemma_end_reported_once(h: HandleStatus, h2: HandleStatus, task: Option<Option<i32>>, o: EndOutcome)
    requires
        h.status() is Running,
        o != EndOutcome::Pending,
        h2.aborted() == h.aborted(),
        match task {
            Some(result) => {
                let code = match result {
                    Some(c) => c,
                    None => 1i32,
                };
                o == EndOutcome::Exited(code) && h2.status() == ExitStatus::Exited(code)
            },
            None => if h.aborted() {
                o == EndOutcome::Aborted && h2.status() == ExitStatus::Aborted
            } else {
                o == EndOutcome::Pending && h2.status() == ExitStatus::Running
            },
        },
    ensures
        !(h2.status() is Running),
{
}

} // verus!
