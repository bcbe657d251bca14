//! The library scan as a sequence of remote calls: optionally clean, then
//! start a scan, then poll the scanning status until it reports idle.
//!
//! The session decides; its caller performs each action against the server
//! and reports what came back.
use vstd::prelude::*;

use crate::rpc::RpcError;

verus! {

/// Where a scan session stands.
#[derive(Clone, Copy, Debug, PartialEq, Eq, Structural)]
pub enum ScanStage {
    /// The clean request is out.
    Cleaning,
    /// The scan request is out.
    Starting,
    /// A status query is out.
    Polling,
    /// The session has finished.
    Done,
}

/// What the caller is to do next.
#[derive(Debug)]
pub enum ScanAction {
    /// Send the clean-library request.
    SendClean,
    /// Send the start-scan request.
    SendScan,
    /// Wait one poll interval, then query whether the library is scanning.
    WaitThenPoll,
    /// The session is over, with this outcome.
    Finish(Result<(), RpcError>),
    /// Nothing: the session had already finished.
    Idle,
}

/// What came back from the last action.
#[derive(Clone, Debug)]
pub enum ScanEvent {
    /// The clean or scan request was acknowledged.
    Acknowledged,
    /// The status query answered: whether the library is scanning, where the
    /// answer held that flag.
    Status(Option<bool>),
    /// The request failed.
    Failed(RpcError),
}

/// A scan in progress. `polls` counts the status answers that reported the
/// scan still running, and never exceeds `max_polls`: the next such answer
/// ends the session with an error, so that a server that never goes idle
/// cannot hold the caller forever.
pub struct ScanSession {
    pub stage: ScanStage,
    pub polls: u64,
    pub max_polls: u64,
}

/// The stage, poll count and action that follow an event.
pub open spec fn scan_next(stage: ScanStage, polls: u64, max_polls: u64, event: ScanEvent) -> (ScanStage, u64, ScanAction) {
    match stage {
        ScanStage::Done => (ScanStage::Done, polls, ScanAction::Idle),
        _ => match event {
            ScanEvent::Failed(e) => (ScanStage::Done, polls, ScanAction::Finish(Err(e))),
            ScanEvent::Acknowledged => match stage {
                ScanStage::Cleaning => (ScanStage::Starting, polls, ScanAction::SendScan),
                ScanStage::Starting => (ScanStage::Polling, 0, ScanAction::WaitThenPoll),
                _ => (stage, polls, ScanAction::WaitThenPoll),
            },
            ScanEvent::Status(status) => match stage {
                ScanStage::Polling => if status == Some(false) {
                    (ScanStage::Done, polls, ScanAction::Finish(Ok(())))
                } else if polls >= max_polls {
                    (ScanStage::Done, polls, ScanAction::Finish(Err(RpcError::ScanTimedOut)))
                } else {
                    (ScanStage::Polling, (polls + 1) as u64, ScanAction::WaitThenPoll)
                },
                _ => (stage, polls, ScanAction::WaitThenPoll),
            },
        },
    }
}

impl ScanSession {
    /// A session that cleans the library, then scans it and waits for the
    /// scan to finish; the first action is the clean request.
    pub fn clean_and_scan_kodi_library(max_polls: u64) -> (r: (ScanSession, ScanAction))
        ensures
            r.0.stage == ScanStage::Cleaning,
            r.0.polls == 0,
            r.0.max_polls == max_polls,
            r.1 is SendClean,
    {
        (ScanSession { stage: ScanStage::Cleaning, polls: 0, max_polls }, ScanAction::SendClean)
    }

    /// A session that scans the library and waits for the scan to finish;
    /// the first action is the scan request.
    pub fn scan_video_library_and_wait_for_done(max_polls: u64) -> (r: (ScanSession, ScanAction))
        ensures
            r.0.stage == ScanStage::Starting,
            r.0.polls == 0,
            r.0.max_polls == max_polls,
            r.1 is SendScan,
    {
        (ScanSession { stage: ScanStage::Starting, polls: 0, max_polls }, ScanAction::SendScan)
    }

    /// Takes in what came back from the last action and decides the next.
    /// A failure ends the session with that failure; an idle status ends it
    /// with success; a scan still running past `max_polls` answers ends it
    /// with `ScanTimedOut`.
    pub fn step(&mut self, event: ScanEvent) -> (action: ScanAction)
        requires
            old(self).polls <= old(self).max_polls,
        ensures
            (final(self).stage, final(self).polls, action) == scan_next(old(self).stage, old(self).polls, old(self).max_polls, event),
            final(self).max_polls == old(self).max_polls,
            final(self).polls <= final(self).max_polls,
    {
        match self.stage {
            ScanStage::Done => ScanAction::Idle,
            _ => match event {
                ScanEvent::Failed(e) => {
                    self.stage = ScanStage::Done;
                    ScanAction::Finish(Err(e))
                },
                ScanEvent::Acknowledged => match self.stage {
                    ScanStage::Cleaning => {
                        self.stage = ScanStage::Starting;
                        ScanAction::SendScan
                    },
                    ScanStage::Starting => {
                        self.stage = ScanStage::Polling;
                        self.polls = 0;
                        ScanAction::WaitThenPoll
                    },
                    _ => ScanAction::WaitThenPoll,
                },
                ScanEvent::Status(status) => match self.stage {
                    ScanStage::Polling => {
                        if status == Some(false) {
                            self.stage = ScanStage::Done;
                            ScanAction::Finish(Ok(()))
                        } else if self.polls >= self.max_polls {
                            self.stage = ScanStage::Done;
                            ScanAction::Finish(Err(RpcError::ScanTimedOut))
                        } else {
                            self.polls = self.polls + 1;
                            ScanAction::WaitThenPoll
                        }
                    },
                    _ => ScanAction::WaitThenPoll,
                },
            },
        }
    }
}

} // verus!
