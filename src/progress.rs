use vstd::prelude::*;

verus! {

/// The display phase of one transfer, with its last known percentage where
/// the phase carries one.
#[derive(Debug, Clone, Copy, PartialEq, Eq, Structural)]
pub enum TransferProgress {
    Starting,
    Progress(u8),
    Finishing,
    Paused(u8),
    Cancelling(u8),
    Error(u8),
}

/// The percentage carried by a phase, or 0 for a phase that carries none.
pub open spec fn progress_of(p: TransferProgress) -> u8 {
    match p {
        TransferProgress::Progress(n) => n,
        TransferProgress::Paused(n) => n,
        TransferProgress::Cancelling(n) => n,
        TransferProgress::Error(n) => n,
        _ => 0,
    }
}

impl TransferProgress {
    pub fn get_progress(&self) -> (r: u8)
        ensures
            r == progress_of(*self),
    {
        match self {
            TransferProgress::Progress(p) => *p,
            TransferProgress::Paused(p) => *p,
            TransferProgress::Cancelling(p) => *p,
            TransferProgress::Error(p) => *p,
            _ => 0,
        }
    }
}

/// Which of the two collections of a tracker an operation addresses.
#[derive(Debug, Clone, Copy, PartialEq, Eq, Structural)]
pub enum TrackerType {
    FileUpload,
    FileDownload,
}

} // verus!
