//! Reading the completion queue.
use crate::constants::{
    CQ_SIZE, EAGAIN_ERROR, EAVAIL_ERROR, FI_CQ_FORMAT_DATA, FI_WAIT_FD,
};
use crate::error::FabricError;
use vstd::prelude::*;

verus! {

/// What a completion queue is opened with.
#[derive(Debug, Clone, Copy, PartialEq, Eq, Structural)]
pub struct CqAttr {
    /// How many entries it is sized for.
    pub size: usize,
    /// How its entries are laid out.
    pub format: u32,
    /// What a reader can wait on.
    pub wait_obj: u32,
}

impl CqAttr {
    /// The attributes of the queue of every endpoint: a descriptor can be waited on, and each
    /// entry tells the context and the length of what has completed.
    pub fn new() -> (attr: Self)
        ensures
            attr.size == CQ_SIZE,
            attr.format == FI_CQ_FORMAT_DATA,
            attr.wait_obj == FI_WAIT_FD,
    {
        CqAttr { size: CQ_SIZE, format: FI_CQ_FORMAT_DATA, wait_obj: FI_WAIT_FD }
    }
}

/// What a completion tells.
#[derive(Debug, Clone, Copy, PartialEq, Eq, Structural)]
pub struct CqEntry {
    /// The context that the operation was posted with.
    pub context: usize,
    /// How many bytes were transferred.
    pub len: usize,
}

/// What came of one read of the queue.
#[derive(Debug, Clone, Copy, PartialEq, Eq, Structural)]
pub enum CqReadResult {
    /// An operation has completed.
    CqReadSuccess(CqEntry),
    /// The queue is empty.
    CqErrorAgain,
    /// An operation has failed; the error queue tells which.
    CqErrorAvailable,
    /// The queue could not be read.
    CqError,
}

impl CqReadResult {
    /// What a read came to that returned `ret` and left `entry` behind.
    pub open spec fn of(ret: isize, entry: CqEntry) -> CqReadResult {
        if ret > 0 {
            CqReadResult::CqReadSuccess(entry)
        } else if ret == EAGAIN_ERROR {
            CqReadResult::CqErrorAgain
        } else if ret == EAVAIL_ERROR {
            CqReadResult::CqErrorAvailable
        } else {
            CqReadResult::CqError
        }
    }
}

/// What a read of the queue came to that returned `ret` and left `entry` behind. The entry
/// counts only where `ret` is positive.
pub fn read_cq_entry(ret: isize, entry: CqEntry) -> (result: CqReadResult)
    ensures
        result == CqReadResult::of(ret, entry),
        ret > 0 ==> result == CqReadResult::CqReadSuccess(entry),
        ret == EAGAIN_ERROR ==> result == CqReadResult::CqErrorAgain,
        ret == EAVAIL_ERROR ==> result == CqReadResult::CqErrorAvailable,
        ret <= 0 && ret != EAGAIN_ERROR && ret != EAVAIL_ERROR ==> result == CqReadResult::CqError,
{
    if ret > 0 {
        CqReadResult::CqReadSuccess(entry)
    } else if ret == EAGAIN_ERROR {
        CqReadResult::CqErrorAgain
    } else if ret == EAVAIL_ERROR {
        CqReadResult::CqErrorAvailable
    } else {
        CqReadResult::CqError
    }
}

/// Whether `fi_trywait`, having returned `ret`, allows a wait on the descriptor.
pub fn cq_waitable(ret: i32) -> (waitable: bool)
    ensures
        waitable == (ret == 0),
{
    ret == 0
}

/// The descriptor by which the queue announces that it has entries.
#[derive(Debug, Clone, Copy, PartialEq, Eq, Structural)]
pub struct CompletionQueueFd(i32);

impl CompletionQueueFd {
    /// The number of the descriptor.
    pub closed spec fn spec_fd(&self) -> i32 {
        self.0
    }

    /// The descriptor `fd` that `fi_control` gave, having returned `ret`.
    pub fn new(ret: i32, fd: i32) -> (cq_fd: Result<Self, FabricError>)
        ensures
            ret == 0 ==> (cq_fd matches Ok(f) && f.spec_fd() == fd),
            ret != 0 ==> cq_fd == Err::<Self, FabricError>(FabricError::Control),
    {
        if ret != 0 {
            return Err(FabricError::Control);
        }
        Ok(CompletionQueueFd(fd))
    }

    /// The number of the descriptor.
    pub fn as_raw_fd(&self) -> (fd: i32)
        ensures
            fd == self.spec_fd(),
    {
        self.0
    }
}

/// What the reader of the queue does next.
#[derive(Debug, Clone, Copy, PartialEq, Eq, Structural)]
pub enum CqStep {
    /// Ask `fi_trywait` whether the descriptor may be waited on.
    TryWait,
    /// Wait until the descriptor is readable.
    AwaitReadable,
    /// Read one entry.
    ReadEntry {
        /// Whether a wait on the descriptor has led here.
        woken: bool,
    },
    /// Read the error entry of an operation that has failed.
    ReadError {
        /// Whether a wait on the descriptor has led here.
        woken: bool,
    },
    /// Mark the descriptor as not readable.
    ClearReady,
    /// Give up: the descriptor could not be waited on.
    Failed,
}

/// What came of the last step of the reader.
#[derive(Debug, Clone, Copy, PartialEq, Eq, Structural)]
pub enum CqEvent {
    /// `fi_trywait` returned this.
    TryWaited(i32),
    /// The descriptor is readable.
    Readable,
    /// The wait failed.
    WaitFailed,
    /// The read returned `ret` and left `entry` behind.
    Read {
        /// What the read returned.
        ret: isize,
        /// What it left behind.
        entry: CqEntry,
    },
    /// The read of the error entry returned `ret`, and the entry tells of the failure `err`.
    ErrorRead {
        /// What the read returned.
        ret: isize,
        /// The context that the operation was posted with.
        context: usize,
        /// Why it failed.
        err: i32,
    },
    /// The descriptor is marked.
    Cleared,
}

impl CqStep {
    /// What follows once there is nothing left to read.
    pub open spec fn after_reading(woken: bool) -> CqStep {
        if woken {
            CqStep::ClearReady
        } else {
            CqStep::TryWait
        }
    }

    /// What follows this step when `event` came of it. An event that is no answer to this step
    /// changes nothing.
    pub open spec fn next(self, event: CqEvent) -> CqStep {
        match (self, event) {
            (CqStep::TryWait, CqEvent::TryWaited(ret)) => if ret == 0 {
                CqStep::AwaitReadable
            } else {
                CqStep::ReadEntry { woken: false }
            },
            (CqStep::AwaitReadable, CqEvent::Readable) => CqStep::ReadEntry { woken: true },
            (CqStep::AwaitReadable, CqEvent::WaitFailed) => CqStep::Failed,
            (CqStep::ReadEntry { woken }, CqEvent::Read { ret, entry }) => match CqReadResult::of(
                ret,
                entry,
            ) {
                CqReadResult::CqReadSuccess(_) => self,
                CqReadResult::CqErrorAvailable => CqStep::ReadError { woken },
                _ => CqStep::after_reading(woken),
            },
            (CqStep::ReadError { woken }, CqEvent::ErrorRead { ret, .. }) => if ret > 0 {
                CqStep::ReadEntry { woken }
            } else {
                CqStep::after_reading(woken)
            },
            (CqStep::ClearReady, CqEvent::Cleared) => CqStep::TryWait,
            _ => self,
        }
    }

    /// The operation whose completion this step brings to light when `event` comes of it.
    pub open spec fn completed(self, event: CqEvent) -> Option<CqEntry> {
        match (self, event) {
            (CqStep::ReadEntry { .. }, CqEvent::Read { ret, entry }) => match CqReadResult::of(
                ret,
                entry,
            ) {
                CqReadResult::CqReadSuccess(found) => Some(found),
                _ => None,
            },
            _ => None,
        }
    }

    /// The operation whose failure this step brings to light when `event` comes of it, by its
    /// context, and why it failed.
    pub open spec fn failed(self, event: CqEvent) -> Option<(usize, i32)> {
        match (self, event) {
            (CqStep::ReadError { .. }, CqEvent::ErrorRead { ret, context, err }) => if ret > 0 {
                Some((context, err))
            } else {
                None
            },
            _ => None,
        }
    }

    /// What follows once there is nothing left to read.
    pub fn stop_reading(woken: bool) -> (step: CqStep)
        ensures
            step == CqStep::after_reading(woken),
            step is ClearReady <==> woken,
            step is TryWait <==> !woken,
    {
        if woken {
            CqStep::ClearReady
        } else {
            CqStep::TryWait
        }
    }
}

} // verus!
