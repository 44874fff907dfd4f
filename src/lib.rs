//! Transfer-progress tracking: a pause/cancel control cell per transfer, the
//! progress status of each upload and download, aggregate progress, and the
//! formatting of byte counts into human-readable magnitudes.

mod progress;
mod size_display;
mod tracker;
mod tracker_laws;
mod transfer_state;

pub use progress::{progress_of, TrackerType, TransferProgress};
pub use transfer_state::{
    after_requests, lemma_cancel_always_cancels, lemma_cancel_is_final, lemma_pause_twice_restores,
    next_state, TransferState, TransferStates,
};
pub use size_display::{
    amount_text, current_text, decimal_size_text, decimal_text, digit_char, hundredths_text,
    pow1000, scale_index, total_text, unit_name, SCALE_COUNT,
};
pub use tracker::{
    absent, active_count, active_sum, cancelling, changed_first, entries_wf, errored, is_active,
    is_first, new_total, paused, percent_of, progressed, redescribed, rounded_mean, same_transfer,
    without_id, Description, DescriptionView, FileProgress, FileProgression, TransferId,
    TransferTracker,
};
pub use tracker_laws::{
    lemma_removed_id_is_absent, lemma_repeated_progress_report, lemma_update_after_remove_is_noop,
};
