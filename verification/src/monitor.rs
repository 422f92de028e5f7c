//! The installation monitor's state machine.
//!
//! Two staged external dependencies are probed in the background; stage 2
//! can only be used once stage 1 is present.  When stage 1 becomes
//! available while stage 2 is not, an installer for stage 2 is started
//! exactly once per run.  Each installer reports into a one-shot result
//! cell that the polling caller drains exactly once.  The background
//! thread, its channel and the installer threads live outside the crate
//! and call into these functions with plain values.

use vstd::prelude::*;

verus! {

/// The dependency state the monitor maintains.
pub struct InstallationMonitor {
    /// Stage 1 (the interpreter environment) has been seen available.
    pub stage1_available: bool,
    /// Stage 2 (the fetch tool) has been seen available.
    pub stage2_available: bool,
    /// A stage-1 installer is running and has not been drained yet.
    pub installing_stage1: bool,
    /// A stage-2 installer is running and has not been drained yet.
    pub installing_stage2: bool,
    /// A stage-2 installer has been started at some point in this run.
    pub stage2_started: bool,
    /// One-shot cell the stage-1 installer reports into.
    pub stage1_result: Option<Result<(), String>>,
    /// One-shot cell the stage-2 installer reports into.
    pub stage2_result: Option<Result<(), String>>,
}

impl InstallationMonitor {
    /// Polling continues until both stages have been seen available.
    pub open spec fn polling_needed(&self) -> bool {
        !(self.stage1_available && self.stage2_available)
    }

    /// The condition under which a stage-2 installer is started: stage 1
    /// is there, stage 2 is not, and no installer is or was running.
    pub open spec fn stage2_trigger(&self) -> bool {
        &&& self.stage1_available
        &&& !self.stage2_available
        &&& !self.installing_stage2
        &&& !self.stage2_started
    }

    /// A fresh monitor: nothing known, nothing installing.
    pub fn new() -> (m: InstallationMonitor)
        ensures
            !m.stage1_available,
            !m.stage2_available,
            !m.installing_stage1,
            !m.installing_stage2,
            !m.stage2_started,
            m.stage1_result is None,
            m.stage2_result is None,
    {
        InstallationMonitor {
            stage1_available: false,
            stage2_available: false,
            installing_stage1: false,
            installing_stage2: false,
            stage2_started: false,
            stage1_result: None,
            stage2_result: None,
        }
    }

    /// Whether the background prober should keep sending reports.
    pub fn should_poll(&self) -> (r: bool)
        ensures
            r == self.polling_needed(),
    {
        !(self.stage1_available && self.stage2_available)
    }

    /// Apply one probe report.  A stage-2 sighting counts only while
    /// stage 1 is present, since stage 2 is probed through stage 1.
    pub fn record_probe(&mut self, stage1: bool, stage2: bool)
        ensures
            final(self).stage1_available == stage1,
            final(self).stage2_available == (stage1 && stage2),
            final(self).installing_stage1 == old(self).installing_stage1,
            final(self).installing_stage2 == old(self).installing_stage2,
            final(self).stage2_started == old(self).stage2_started,
            final(self).stage1_result == old(self).stage1_result,
            final(self).stage2_result == old(self).stage2_result,
    {
        self.stage1_available = stage1;
        self.stage2_available = stage1 && stage2;
    }

    /// Decide whether to start the stage-2 installer now.  Returns true
    /// at most once per run: the started flag never goes back.
    pub fn maybe_start_stage2(&mut self) -> (start: bool)
        ensures
            start == old(self).stage2_trigger(),
            start ==> *final(self) == (InstallationMonitor {
                installing_stage2: true,
                stage2_started: true,
                ..*old(self)
            }),
            !start ==> *final(self) == *old(self),
            final(self).stage2_started == (old(self).stage2_started || start),
    {
        if self.stage1_available && !self.stage2_available && !self.installing_stage2
            && !self.stage2_started {
            self.installing_stage2 = true;
            self.stage2_started = true;
            true
        } else {
            false
        }
    }

    /// Note that a stage-1 installer has been started by the caller.
    /// Refused while one is already running.
    pub fn begin_stage1_install(&mut self) -> (start: bool)
        ensures
            start == !old(self).installing_stage1,
            start ==> *final(self) == (InstallationMonitor {
                installing_stage1: true,
                ..*old(self)
            }),
            !start ==> *final(self) == *old(self),
    {
        if self.installing_stage1 {
            false
        } else {
            self.installing_stage1 = true;
            true
        }
    }

    /// The stage-1 installer reports its outcome, exactly once: the cell
    /// must be empty.
    pub fn set_stage1_result(&mut self, r: Result<(), String>)
        requires
            old(self).stage1_result is None,
        ensures
            *final(self) == (InstallationMonitor { stage1_result: Some(r), ..*old(self) }),
    {
        self.stage1_result = Some(r);
    }

    /// The stage-2 installer reports its outcome, exactly once: the cell
    /// must be empty.
    pub fn set_stage2_result(&mut self, r: Result<(), String>)
        requires
            old(self).stage2_result is None,
        ensures
            *final(self) == (InstallationMonitor { stage2_result: Some(r), ..*old(self) }),
    {
        self.stage2_result = Some(r);
    }

    /// Drain the stage-1 result cell.  On success stage 1 becomes
    /// available; either way the installing flag drops with the value.
    pub fn take_stage1_result(&mut self) -> (r: Option<Result<(), String>>)
        ensures
            r == old(self).stage1_result,
            final(self).stage1_result is None,
            final(self).stage2_result == old(self).stage2_result,
            final(self).stage2_available == old(self).stage2_available,
            final(self).installing_stage2 == old(self).installing_stage2,
            final(self).stage2_started == old(self).stage2_started,
            match old(self).stage1_result {
                Some(v) => {
                    &&& !final(self).installing_stage1
                    &&& final(self).stage1_available == (old(self).stage1_available || v is Ok)
                },
                None => {
                    &&& final(self).installing_stage1 == old(self).installing_stage1
                    &&& final(self).stage1_available == old(self).stage1_available
                },
            },
    {
        let r = self.stage1_result.take();
        match &r {
            Some(v) => {
                self.installing_stage1 = false;
                if v.is_ok() {
                    self.stage1_available = true;
                }
            },
            None => {},
        }
        r
    }

    /// Drain the stage-2 result cell.  On success stage 2 becomes
    /// available; either way the installing flag drops with the value.
    pub fn take_stage2_result(&mut self) -> (r: Option<Result<(), String>>)
        ensures
            r == old(self).stage2_result,
            final(self).stage2_result is None,
            final(self).stage1_result == old(self).stage1_result,
            final(self).stage1_available == old(self).stage1_available,
            final(self).installing_stage1 == old(self).installing_stage1,
            final(self).stage2_started == old(self).stage2_started,
            match old(self).stage2_result {
                Some(v) => {
                    &&& !final(self).installing_stage2
                    &&& final(self).stage2_available == (old(self).stage2_available || v is Ok)
                },
                None => {
                    &&& final(self).installing_stage2 == old(self).installing_stage2
                    &&& final(self).stage2_available == old(self).stage2_available
                },
            },
    {
        let r = self.stage2_result.take();
        match &r {
            Some(v) => {
                self.installing_stage2 = false;
                if v.is_ok() {
                    self.stage2_available = true;
                }
            },
            None => {},
        }
        r
    }

    /// Once both stages report available, the monitor is settled: no
    /// further polling is asked for and the stage-2 installer can never
    /// be triggered again.
    pub proof fn lemma_settled(&self)
        requires
            self.stage1_available,
            self.stage2_available,
        ensures
            !self.polling_needed(),
            !self.stage2_trigger(),
    {
    }
}

} // verus!
