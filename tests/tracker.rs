use data_transfer::{
    Description, FileProgression, TrackerType, TransferId, TransferProgress, TransferState,
    TransferStates, TransferTracker,
};

const U1: TransferId = TransferId(1);
const U2: TransferId = TransferId(2);

fn started(ids: &[TransferId], tracker: TrackerType) -> TransferTracker {
    let mut t = TransferTracker::default();
    for id in ids {
        t.start_file_transfer(*id, format!("file-{}", id.0), TransferState::new(), tracker);
    }
    t
}

fn current(current: usize, total: Option<usize>) -> FileProgression {
    FileProgression::CurrentProgress { name: "a.txt".to_string(), current, total }
}

#[test]
fn start_adds_a_starting_entry() {
    let mut t = TransferTracker::default();
    t.start_file_transfer(U1, "a.txt".to_string(), TransferState::new(), TrackerType::FileUpload);
    let entries = t.get_tracker(TrackerType::FileUpload);
    assert_eq!(entries.len(), 1);
    assert_eq!(entries[0].id, U1);
    assert_eq!(entries[0].file, "a.txt");
    assert_eq!(entries[0].progress, TransferProgress::Starting);
    assert_eq!((entries[0].size, entries[0].total_size), (0, 0));
    assert!(entries[0].description == Description::Starting);
    assert!(t.get_tracker(TrackerType::FileDownload).is_empty());
}

#[test]
fn transfer_scenario_upload() {
    let cell = TransferState::new();
    let mut t = TransferTracker::default();
    t.start_file_transfer(U1, "a.txt".to_string(), cell.clone(), TrackerType::FileUpload);
    t.update_file_upload(U1, current(50, Some(100)), TrackerType::FileUpload);
    {
        let e = &t.get_tracker(TrackerType::FileUpload)[0];
        assert_eq!(e.progress, TransferProgress::Progress(50));
        assert_eq!((e.size, e.total_size), (50, 100));
        assert!(
            e.description
                == Description::Progress {
                    tracker: TrackerType::FileUpload,
                    progress: 50,
                    size: "50".to_string(),
                    total: "100 B".to_string(),
                }
        );
    }
    t.pause_file_upload(U1, TrackerType::FileUpload);
    let e = &t.get_tracker(TrackerType::FileUpload)[0];
    assert_eq!(e.progress, TransferProgress::Paused(50));
    assert!(
        e.description
            == Description::Paused {
                progress: 50,
                size: "50".to_string(),
                total: "100 B".to_string(),
            }
    );
    assert!(std::sync::Arc::ptr_eq(&e.state.inner, &cell.inner));
    assert_eq!(*cell.inner.try_lock().unwrap(), TransferStates::Normal);
}

#[test]
fn progress_without_total_keeps_the_known_total() {
    let mut t = started(&[U1], TrackerType::FileDownload);
    t.update_file_upload(U1, current(10, Some(2_000_000)), TrackerType::FileDownload);
    t.update_file_upload(U1, current(1_500_000, None), TrackerType::FileDownload);
    let e = &t.get_tracker(TrackerType::FileDownload)[0];
    assert_eq!((e.size, e.total_size), (1_500_000, 2_000_000));
    assert_eq!(e.progress, TransferProgress::Progress(0));
    assert!(
        e.description
            == Description::Progress {
                tracker: TrackerType::FileDownload,
                progress: 0,
                size: "1.50".to_string(),
                total: "2 MB".to_string(),
            }
    );
}

#[test]
fn percent_rounds_down_and_is_clamped() {
    let mut t = started(&[U1], TrackerType::FileUpload);
    t.update_file_upload(U1, current(29, Some(100)), TrackerType::FileUpload);
    assert_eq!(t.get_tracker(TrackerType::FileUpload)[0].progress, TransferProgress::Progress(29));
    t.update_file_upload(U1, current(2, Some(3)), TrackerType::FileUpload);
    assert_eq!(t.get_tracker(TrackerType::FileUpload)[0].progress, TransferProgress::Progress(66));
    t.update_file_upload(U1, current(150, Some(100)), TrackerType::FileUpload);
    assert_eq!(t.get_tracker(TrackerType::FileUpload)[0].progress, TransferProgress::Progress(100));
    t.update_file_upload(U1, current(5, Some(0)), TrackerType::FileUpload);
    assert_eq!(t.get_tracker(TrackerType::FileUpload)[0].progress, TransferProgress::Progress(100));
    t.update_file_upload(U1, current(0, Some(0)), TrackerType::FileUpload);
    assert_eq!(t.get_tracker(TrackerType::FileUpload)[0].progress, TransferProgress::Progress(0));
}

#[test]
fn complete_reports_the_total_size() {
    let mut t = started(&[U1], TrackerType::FileUpload);
    t.update_file_upload(U1, current(100, Some(100)), TrackerType::FileUpload);
    t.update_file_upload(
        U1,
        FileProgression::ProgressComplete { name: "a.txt".to_string(), total: Some(2_000_000) },
        TrackerType::FileUpload,
    );
    let e = &t.get_tracker(TrackerType::FileUpload)[0];
    assert_eq!(e.progress, TransferProgress::Finishing);
    assert_eq!((e.size, e.total_size), (100, 2_000_000));
    assert!(e.description == Description::Finishing { size: "2 MB".to_string() });
}

#[test]
fn complete_without_total_uses_the_known_total() {
    let mut t = started(&[U1], TrackerType::FileUpload);
    t.update_file_upload(U1, current(10, Some(1500)), TrackerType::FileUpload);
    t.update_file_upload(
        U1,
        FileProgression::ProgressComplete { name: "a.txt".to_string(), total: None },
        TrackerType::FileUpload,
    );
    let e = &t.get_tracker(TrackerType::FileUpload)[0];
    assert!(e.description == Description::Finishing { size: "1.50 kB".to_string() });
}

#[test]
fn failure_keeps_the_last_percent() {
    let mut t = started(&[U1], TrackerType::FileUpload);
    t.update_file_upload(U1, current(40, Some(100)), TrackerType::FileUpload);
    t.update_file_upload(
        U1,
        FileProgression::ProgressFailed {
            name: "a.txt".to_string(),
            last_size: Some(45),
            error: "connection lost".to_string(),
        },
        TrackerType::FileUpload,
    );
    let e = &t.get_tracker(TrackerType::FileUpload)[0];
    assert_eq!(e.progress, TransferProgress::Error(40));
    assert_eq!((e.size, e.total_size), (40, 45));
    assert!(e.description == Description::Failed { error: "connection lost".to_string() });
}

#[test]
fn unknown_identity_changes_nothing() {
    let mut t = started(&[U1], TrackerType::FileUpload);
    let before = t.clone();
    t.update_file_upload(U2, current(50, Some(100)), TrackerType::FileUpload);
    t.update_file_upload(U1, current(50, Some(100)), TrackerType::FileDownload);
    t.pause_file_upload(U2, TrackerType::FileUpload);
    t.cancel_file_upload(U2, TrackerType::FileUpload);
    t.error_file_upload(U2, TrackerType::FileUpload);
    t.update_file_description(U2, "x".to_string(), TrackerType::FileUpload);
    assert!(t.file_progress_upload == before.file_progress_upload);
    assert!(t.file_progress_download.is_empty());
}

#[test]
fn update_after_remove_is_ignored() {
    let mut t = started(&[U1], TrackerType::FileUpload);
    t.remove_file_upload(U1, TrackerType::FileUpload);
    assert!(t.get_tracker(TrackerType::FileUpload).is_empty());
    t.update_file_upload(U1, current(50, Some(100)), TrackerType::FileUpload);
    assert!(t.get_tracker(TrackerType::FileUpload).is_empty());
}

#[test]
fn remove_keeps_the_order_of_the_others() {
    let mut t = started(&[U1, U2, TransferId(3)], TrackerType::FileDownload);
    t.remove_file_upload(U2, TrackerType::FileDownload);
    let ids: Vec<u128> = t.get_tracker(TrackerType::FileDownload).iter().map(|e| e.id.0).collect();
    assert_eq!(ids, vec![1, 3]);
}

#[test]
fn same_identity_in_both_directions() {
    let mut t = started(&[U1], TrackerType::FileUpload);
    t.start_file_transfer(U1, "b.txt".to_string(), TransferState::new(), TrackerType::FileDownload);
    t.update_file_upload(U1, current(30, Some(100)), TrackerType::FileDownload);
    assert_eq!(t.get_tracker(TrackerType::FileUpload)[0].progress, TransferProgress::Starting);
    assert_eq!(t.get_tracker(TrackerType::FileDownload)[0].progress, TransferProgress::Progress(30));
}

#[test]
fn repeated_report_gives_the_same_description() {
    let mut t = started(&[U1], TrackerType::FileUpload);
    t.update_file_upload(U1, current(1234, Some(5678)), TrackerType::FileUpload);
    let first = t.get_tracker(TrackerType::FileUpload)[0].clone();
    t.update_file_upload(U1, current(1234, Some(5678)), TrackerType::FileUpload);
    let second = &t.get_tracker(TrackerType::FileUpload)[0];
    assert!(first == *second);
    assert!(
        second.description
            == Description::Progress {
                tracker: TrackerType::FileUpload,
                progress: 21,
                size: "1.23".to_string(),
                total: "5.68 kB".to_string(),
            }
    );
}

#[test]
fn cancel_and_error_keep_the_percent() {
    let mut t = started(&[U1, U2], TrackerType::FileUpload);
    t.update_file_upload(U1, current(70, Some(100)), TrackerType::FileUpload);
    t.update_file_upload(U2, current(20, Some(100)), TrackerType::FileUpload);
    t.cancel_file_upload(U1, TrackerType::FileUpload);
    t.error_file_upload(U2, TrackerType::FileUpload);
    let e = t.get_tracker(TrackerType::FileUpload);
    assert_eq!(e[0].progress, TransferProgress::Cancelling(70));
    assert!(e[0].description == Description::Cancelling);
    assert_eq!(e[1].progress, TransferProgress::Error(20));
    assert!(e[1].description == Description::UploadError);
}

#[test]
fn description_can_be_set_directly() {
    let mut t = started(&[U1], TrackerType::FileUpload);
    t.update_file_description(U1, "waiting".to_string(), TrackerType::FileUpload);
    let e = &t.get_tracker(TrackerType::FileUpload)[0];
    assert!(e.description == Description::Text("waiting".to_string()));
    assert_eq!(e.progress, TransferProgress::Starting);
}

#[test]
fn entries_equal_without_regard_to_counts() {
    let t = started(&[U1], TrackerType::FileUpload);
    let mut other = t.get_tracker(TrackerType::FileUpload)[0].clone();
    other.size = 99;
    other.total_size = 1000;
    assert!(t.get_tracker(TrackerType::FileUpload)[0] == other);
    other.file = "other.txt".to_string();
    assert!(t.get_tracker(TrackerType::FileUpload)[0] != other);
}

#[test]
fn aggregate_progress_of_nothing_is_minus_one() {
    assert_eq!(TransferTracker::default().total_progress(), -1);
    let t = started(&[U1], TrackerType::FileUpload);
    assert_eq!(t.total_progress(), -1);
}

#[test]
fn aggregate_progress_averages_active_entries() {
    let mut t = started(&[U1], TrackerType::FileUpload);
    t.update_file_upload(U1, current(50, Some(100)), TrackerType::FileUpload);
    assert_eq!(t.total_progress(), 50);
    t.start_file_transfer(U2, "b".to_string(), TransferState::new(), TrackerType::FileDownload);
    t.update_file_upload(U1, current(40, Some(100)), TrackerType::FileUpload);
    t.update_file_upload(U2, current(60, Some(100)), TrackerType::FileDownload);
    assert_eq!(t.total_progress(), 50);
}

#[test]
fn aggregate_progress_counts_paused_and_rounds() {
    let mut t = started(&[U1, U2, TransferId(3)], TrackerType::FileUpload);
    t.update_file_upload(U1, current(10, Some(100)), TrackerType::FileUpload);
    t.update_file_upload(U2, current(11, Some(100)), TrackerType::FileUpload);
    t.update_file_upload(TransferId(3), current(90, Some(100)), TrackerType::FileUpload);
    t.pause_file_upload(U2, TrackerType::FileUpload);
    t.cancel_file_upload(TransferId(3), TrackerType::FileUpload);
    // (10 + 11) / 2 = 10.5 rounds up; the cancelling entry does not count.
    assert_eq!(t.total_progress(), 11);
}

#[test]
fn progress_of_each_phase() {
    assert_eq!(TransferProgress::Starting.get_progress(), 0);
    assert_eq!(TransferProgress::Finishing.get_progress(), 0);
    assert_eq!(TransferProgress::Progress(7).get_progress(), 7);
    assert_eq!(TransferProgress::Paused(8).get_progress(), 8);
    assert_eq!(TransferProgress::Cancelling(9).get_progress(), 9);
    assert_eq!(TransferProgress::Error(10).get_progress(), 10);
}
