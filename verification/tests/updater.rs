// Scenario tests that drive the download machine exactly as the surrounding
// process does: perform the owed action, feed back the event, observe the
// shared cell.

use kramp_updater::downloader::{
    destination_path, failure_dialog_title, release_url, startup_delay_secs, success_delay_secs,
    DownloadAction, DownloadError, DownloadEvent, DownloadState,
};
use kramp_updater::progress::SharedProgress;

const INITIAL_TITLE: &str = "Downloading update...";
const COMPLETED_TITLE: &str = "Update completed! Launching KrampUI in 3 seconds...";

fn fresh() -> (DownloadState, SharedProgress) {
    (DownloadState::new(), SharedProgress::new())
}

#[test]
fn initial_cell_has_initial_title_and_zero_fraction() {
    let (_, sh) = fresh();
    assert_eq!(sh.title_str(), INITIAL_TITLE);
    assert_eq!(sh.progress.fraction_parts(), (0, 1));
}

#[test]
fn fixed_strings_are_exact() {
    assert_eq!(
        release_url(),
        "https://github.com/Pixeluted/KrampUI/releases/latest/download/KrampUI.exe"
    );
    assert_eq!(destination_path(), "KrampUI.exe");
    assert_eq!(failure_dialog_title(), "Download failed!");
    assert_eq!(startup_delay_secs(), 1);
    assert_eq!(success_delay_secs(), 3);
}

#[test]
fn error_messages_are_exact() {
    assert_eq!(
        DownloadError::Request.message(),
        "Failed to download latest version"
    );
    assert_eq!(
        DownloadError::FileOpen.message(),
        "Failed to open file for writing!"
    );
    assert_eq!(
        DownloadError::Stream.message(),
        "Downloading failed for unknown reason!"
    );
    assert_eq!(DownloadError::ChunkWrite.message(), "Failed to write chunk!");
    assert_eq!(
        DownloadError::Flush.message(),
        "Failed to flush out the file content!"
    );
    assert_eq!(
        DownloadError::Sync.message(),
        "Failed to sync all the file content!"
    );
}

#[test]
fn full_download_ten_chunks_reaches_exactly_one() {
    let (mut st, mut sh) = fresh();
    let total: u64 = 10 * 1024 * 1024;
    let chunk: u64 = 1024 * 1024;
    st.step(
        DownloadEvent::ResponseOk {
            content_length: Some(total),
        },
        &mut sh,
    );
    assert_eq!(st.next_action(), DownloadAction::OpenFile);
    st.step(DownloadEvent::FileOpened, &mut sh);
    for _ in 0..10 {
        assert_eq!(st.next_action(), DownloadAction::ReadChunk);
        st.step(DownloadEvent::ChunkReceived { len: chunk }, &mut sh);
        assert_eq!(st.next_action(), DownloadAction::WriteChunk);
        st.step(DownloadEvent::ChunkWritten, &mut sh);
    }
    st.step(DownloadEvent::StreamEnded, &mut sh);
    assert_eq!(st.next_action(), DownloadAction::FlushFile);
    st.step(DownloadEvent::Flushed, &mut sh);
    assert_eq!(st.next_action(), DownloadAction::SyncFile);
    st.step(DownloadEvent::Synced, &mut sh);

    let (num, den) = sh.progress.fraction_parts();
    assert_eq!((num, den), (total, total));
    assert_eq!(num as f32 / den as f32, 1.0);
    assert_eq!(st.outcome(), (true, None));
    assert_eq!(st.next_action(), DownloadAction::ReportSuccess);
    assert_eq!(sh.title_str(), COMPLETED_TITLE);
}

#[test]
fn uneven_chunks_summing_to_total_reach_exactly_one() {
    let (mut st, mut sh) = fresh();
    st.step(
        DownloadEvent::ResponseOk {
            content_length: Some(10),
        },
        &mut sh,
    );
    st.step(DownloadEvent::FileOpened, &mut sh);
    for len in [5u64, 3, 2] {
        st.step(DownloadEvent::ChunkReceived { len }, &mut sh);
        st.step(DownloadEvent::ChunkWritten, &mut sh);
    }
    st.step(DownloadEvent::StreamEnded, &mut sh);
    st.step(DownloadEvent::Flushed, &mut sh);
    st.step(DownloadEvent::Synced, &mut sh);
    let (num, den) = sh.progress.fraction_parts();
    assert_eq!((num, den), (10, 10));
    assert_eq!(num as f32 / den as f32, 1.0);
    assert_eq!(st.outcome(), (true, None));
}

#[test]
fn connection_refused_reports_request_failure_and_never_opens_file() {
    let (mut st, mut sh) = fresh();
    // The only action requested before the failure is the request itself:
    // the machine never asks for the destination file, so none is created.
    assert_eq!(st.next_action(), DownloadAction::SendRequest);
    st.step(DownloadEvent::ResponseFailed, &mut sh);
    assert_eq!(
        st.outcome(),
        (
            false,
            Some("Failed to download latest version".to_string())
        )
    );
    assert_eq!(
        st.next_action(),
        DownloadAction::ReportFailure(DownloadError::Request)
    );
    assert_eq!(sh.title_str(), INITIAL_TITLE);
}

#[test]
fn unwritable_destination_reports_file_open_failure() {
    let (mut st, mut sh) = fresh();
    st.step(
        DownloadEvent::ResponseOk {
            content_length: Some(100),
        },
        &mut sh,
    );
    assert_eq!(st.next_action(), DownloadAction::OpenFile);
    st.step(DownloadEvent::FileOpenFailed, &mut sh);
    assert_eq!(
        st.outcome(),
        (false, Some("Failed to open file for writing!".to_string()))
    );
    assert_eq!(
        st.next_action(),
        DownloadAction::ReportFailure(DownloadError::FileOpen)
    );
}

#[test]
fn stream_error_reports_stream_failure() {
    let (mut st, mut sh) = fresh();
    st.step(
        DownloadEvent::ResponseOk {
            content_length: Some(100),
        },
        &mut sh,
    );
    st.step(DownloadEvent::FileOpened, &mut sh);
    st.step(DownloadEvent::StreamFailed, &mut sh);
    assert_eq!(
        st.outcome(),
        (
            false,
            Some("Downloading failed for unknown reason!".to_string())
        )
    );
}

#[test]
fn write_error_reports_chunk_write_failure() {
    let (mut st, mut sh) = fresh();
    st.step(
        DownloadEvent::ResponseOk {
            content_length: Some(100),
        },
        &mut sh,
    );
    st.step(DownloadEvent::FileOpened, &mut sh);
    st.step(DownloadEvent::ChunkReceived { len: 10 }, &mut sh);
    st.step(DownloadEvent::ChunkWriteFailed, &mut sh);
    assert_eq!(
        st.outcome(),
        (false, Some("Failed to write chunk!".to_string()))
    );
    // The failed write published nothing.
    assert_eq!(sh.progress.fraction_parts(), (0, 1));
}

#[test]
fn flush_error_reports_flush_failure() {
    let (mut st, mut sh) = fresh();
    st.step(
        DownloadEvent::ResponseOk {
            content_length: Some(100),
        },
        &mut sh,
    );
    st.step(DownloadEvent::FileOpened, &mut sh);
    st.step(DownloadEvent::StreamEnded, &mut sh);
    st.step(DownloadEvent::FlushFailed, &mut sh);
    assert_eq!(
        st.outcome(),
        (
            false,
            Some("Failed to flush out the file content!".to_string())
        )
    );
}

#[test]
fn sync_error_reports_sync_failure_and_title_stays_initial() {
    let (mut st, mut sh) = fresh();
    st.step(
        DownloadEvent::ResponseOk {
            content_length: Some(100),
        },
        &mut sh,
    );
    st.step(DownloadEvent::FileOpened, &mut sh);
    st.step(DownloadEvent::StreamEnded, &mut sh);
    st.step(DownloadEvent::Flushed, &mut sh);
    st.step(DownloadEvent::SyncFailed, &mut sh);
    assert_eq!(
        st.outcome(),
        (
            false,
            Some("Failed to sync all the file content!".to_string())
        )
    );
    assert_eq!(sh.title_str(), INITIAL_TITLE);
}

#[test]
fn failure_is_terminal_no_later_event_reaches_success() {
    let (mut st, mut sh) = fresh();
    st.step(DownloadEvent::ResponseFailed, &mut sh);
    for ev in [
        DownloadEvent::FileOpened,
        DownloadEvent::ChunkReceived { len: 7 },
        DownloadEvent::ChunkWritten,
        DownloadEvent::StreamEnded,
        DownloadEvent::Flushed,
        DownloadEvent::Synced,
    ] {
        st.step(ev, &mut sh);
    }
    assert_eq!(
        st.next_action(),
        DownloadAction::ReportFailure(DownloadError::Request)
    );
    assert_eq!(sh.title_str(), INITIAL_TITLE);
    assert_eq!(sh.progress.fraction_parts(), (0, 1));
}

#[test]
fn success_is_terminal_later_events_change_nothing() {
    let (mut st, mut sh) = fresh();
    st.step(
        DownloadEvent::ResponseOk {
            content_length: Some(4),
        },
        &mut sh,
    );
    st.step(DownloadEvent::FileOpened, &mut sh);
    st.step(DownloadEvent::ChunkReceived { len: 4 }, &mut sh);
    st.step(DownloadEvent::ChunkWritten, &mut sh);
    st.step(DownloadEvent::StreamEnded, &mut sh);
    st.step(DownloadEvent::Flushed, &mut sh);
    st.step(DownloadEvent::Synced, &mut sh);
    st.step(DownloadEvent::ResponseFailed, &mut sh);
    st.step(DownloadEvent::SyncFailed, &mut sh);
    assert_eq!(st.outcome(), (true, None));
    assert_eq!(sh.title_str(), COMPLETED_TITLE);
    assert_eq!(sh.progress.fraction_parts(), (4, 4));
}

#[test]
fn unknown_total_publishes_defined_zero_fraction() {
    let (mut st, mut sh) = fresh();
    st.step(
        DownloadEvent::ResponseOk {
            content_length: None,
        },
        &mut sh,
    );
    st.step(DownloadEvent::FileOpened, &mut sh);
    st.step(DownloadEvent::ChunkReceived { len: 100 }, &mut sh);
    st.step(DownloadEvent::ChunkWritten, &mut sh);
    let (num, den) = sh.progress.fraction_parts();
    assert_eq!((num, den), (0, 1));
    let value = num as f32 / den as f32;
    assert!(value.is_finite());
    assert_eq!(value, 0.0);
}

#[test]
fn published_fraction_is_monotone_and_in_unit_interval() {
    let (mut st, mut sh) = fresh();
    let total: u64 = 10;
    st.step(
        DownloadEvent::ResponseOk {
            content_length: Some(total),
        },
        &mut sh,
    );
    st.step(DownloadEvent::FileOpened, &mut sh);
    let mut seen: Vec<(u64, u64)> = vec![sh.progress.fraction_parts()];
    for len in [1u64, 2, 3, 4] {
        st.step(DownloadEvent::ChunkReceived { len }, &mut sh);
        st.step(DownloadEvent::ChunkWritten, &mut sh);
        seen.push(sh.progress.fraction_parts());
    }
    for window in seen.windows(2) {
        let (n0, d0) = window[0];
        let (n1, d1) = window[1];
        // n0/d0 <= n1/d1, compared without division.
        assert!((n0 as u128) * (d1 as u128) <= (n1 as u128) * (d0 as u128));
    }
    for &(n, d) in &seen {
        assert!(d > 0);
        assert!(n <= d);
    }
    assert_eq!(*seen.last().unwrap(), (10, 10));
}

#[test]
fn title_flips_exactly_once_on_the_successful_sync() {
    let (mut st, mut sh) = fresh();
    let mut flips: u32 = 0;
    let mut last = sh.title_str().to_owned();
    let events = [
        DownloadEvent::ResponseOk {
            content_length: Some(6),
        },
        DownloadEvent::FileOpened,
        DownloadEvent::ChunkReceived { len: 6 },
        DownloadEvent::ChunkWritten,
        DownloadEvent::StreamEnded,
        DownloadEvent::Flushed,
        DownloadEvent::Synced,
        DownloadEvent::Flushed,
    ];
    for ev in events {
        st.step(ev, &mut sh);
        if sh.title_str() != last {
            flips += 1;
            last = sh.title_str().to_owned();
        }
    }
    assert_eq!(flips, 1);
    assert_eq!(sh.title_str(), COMPLETED_TITLE);
}

#[test]
fn byte_counter_saturates_instead_of_wrapping() {
    let (mut st, mut sh) = fresh();
    st.step(
        DownloadEvent::ResponseOk {
            content_length: Some(5),
        },
        &mut sh,
    );
    st.step(DownloadEvent::FileOpened, &mut sh);
    st.step(DownloadEvent::ChunkReceived { len: u64::MAX }, &mut sh);
    st.step(DownloadEvent::ChunkWritten, &mut sh);
    st.step(DownloadEvent::ChunkReceived { len: 1 }, &mut sh);
    st.step(DownloadEvent::ChunkWritten, &mut sh);
    assert_eq!(sh.progress.fraction_parts(), (u64::MAX, 5));
}

#[test]
fn mismatched_event_changes_nothing() {
    let (mut st, mut sh) = fresh();
    st.step(DownloadEvent::Flushed, &mut sh);
    st.step(DownloadEvent::ChunkWritten, &mut sh);
    assert_eq!(st.next_action(), DownloadAction::SendRequest);
    assert_eq!(st.outcome(), (false, None));
    assert_eq!(sh.title_str(), INITIAL_TITLE);
    assert_eq!(sh.progress.fraction_parts(), (0, 1));
}
