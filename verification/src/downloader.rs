//! The download protocol as a state machine. The machine decides; the
//! surrounding process performs each action it asks for (the HTTP request,
//! the file writes) and feeds the result back as an event. One step of the
//! machine is one decision of the download loop, so every decision — which
//! state follows, what gets published to the shared cell, which error ends
//! the run — is verified.

use vstd::prelude::*;
use crate::progress::{Progress, SharedProgress, completed_title};

verus! {

/// The six terminal failures of a download, one per failure point of the
/// protocol, each carrying exactly one fixed message.
#[derive(Clone, Copy, PartialEq, Eq, Debug)]
pub enum DownloadError {
    /// The HTTP request could not be issued or completed.
    Request,
    /// The destination file could not be created for writing.
    FileOpen,
    /// Reading the response body stream failed.
    Stream,
    /// Writing a received chunk to the file failed.
    ChunkWrite,
    /// Flushing buffered writes failed.
    Flush,
    /// The durable sync to storage failed.
    Sync,
}

/// The fixed message paired with each failure.
pub open spec fn error_message_spec(e: DownloadError) -> Seq<char> {
    match e {
        DownloadError::Request => "Failed to download latest version"@,
        DownloadError::FileOpen => "Failed to open file for writing!"@,
        DownloadError::Stream => "Downloading failed for unknown reason!"@,
        DownloadError::ChunkWrite => "Failed to write chunk!"@,
        DownloadError::Flush => "Failed to flush out the file content!"@,
        DownloadError::Sync => "Failed to sync all the file content!"@,
    }
}

impl DownloadError {
    /// The message shown to the user for this failure.
    pub fn message(&self) -> (r: String)
        ensures
            r@ == error_message_spec(*self),
    {
        match self {
            DownloadError::Request => "Failed to download latest version".to_string(),
            DownloadError::FileOpen => "Failed to open file for writing!".to_string(),
            DownloadError::Stream => "Downloading failed for unknown reason!".to_string(),
            DownloadError::ChunkWrite => "Failed to write chunk!".to_string(),
            DownloadError::Flush => "Failed to flush out the file content!".to_string(),
            DownloadError::Sync => "Failed to sync all the file content!".to_string(),
        }
    }
}

/// What the outside world reports back to the machine: the outcome of the
/// action it last asked for.
#[derive(Clone, Copy, PartialEq, Eq, Debug)]
pub enum DownloadEvent {
    /// The request went through; the declared content length, if any.
    ResponseOk { content_length: Option<u64> },
    /// The request failed.
    ResponseFailed,
    /// The destination file is open for writing.
    FileOpened,
    /// The destination file could not be opened.
    FileOpenFailed,
    /// The stream yielded a chunk of this many bytes.
    ChunkReceived { len: u64 },
    /// The stream yielded an error.
    StreamFailed,
    /// The stream ended.
    StreamEnded,
    /// The pending chunk was written to the file.
    ChunkWritten,
    /// Writing the pending chunk failed.
    ChunkWriteFailed,
    /// Buffered writes were flushed.
    Flushed,
    /// Flushing failed.
    FlushFailed,
    /// The durable sync completed.
    Synced,
    /// The durable sync failed.
    SyncFailed,
}

/// Where the machine stands in the protocol. Byte counts ride along so that
/// each published progress value is determined by the state alone.
#[derive(Clone, Copy, PartialEq, Eq, Debug)]
pub enum DownloadState {
    /// Before the HTTP request is issued.
    Requesting,
    /// Response received; the destination file is about to be opened.
    Opening { total: u64 },
    /// Waiting for the next chunk of the body stream.
    Reading { total: u64, downloaded: u64 },
    /// A chunk of `chunk_len` bytes is being written to the file.
    Writing { total: u64, downloaded: u64, chunk_len: u64 },
    /// The stream ended; buffered writes are being flushed.
    Flushing { total: u64, downloaded: u64 },
    /// Flushed; the durable sync is running.
    Syncing { total: u64, downloaded: u64 },
    /// The download fully succeeded.
    Succeeded,
    /// The download ended at one of the six failure points.
    Failed(DownloadError),
}

/// What the outside world must do next in a given state.
#[derive(Clone, Copy, PartialEq, Eq, Debug)]
pub enum DownloadAction {
    /// Issue the HTTP GET to the release URL.
    SendRequest,
    /// Create the destination file, truncating any existing one.
    OpenFile,
    /// Poll the body stream for its next item.
    ReadChunk,
    /// Write the pending chunk to the file.
    WriteChunk,
    /// Flush buffered writes.
    FlushFile,
    /// Sync the file durably to storage.
    SyncFile,
    /// Show the failure dialog with this error's message.
    ReportFailure(DownloadError),
    /// Wait, launch the downloaded executable, and exit.
    ReportSuccess,
}

/// The total the machine works with: the declared content length, or zero
/// when the server declared none.
pub open spec fn declared_total(content_length: Option<u64>) -> u64 {
    match content_length {
        Some(n) => n,
        None => 0,
    }
}

/// 64-bit addition that stops at the largest representable count instead of
/// wrapping. A real transfer never reaches it; it keeps the byte counter
/// total on every input.
pub open spec fn sat_add(a: u64, b: u64) -> u64 {
    if a + b <= u64::MAX {
        (a + b) as u64
    } else {
        u64::MAX
    }
}

/// The machine's transition function. An event that cannot occur in the
/// current state changes nothing; the two terminal states absorb every
/// event.
pub open spec fn step_state(s: DownloadState, e: DownloadEvent) -> DownloadState {
    match (s, e) {
        (DownloadState::Requesting, DownloadEvent::ResponseOk { content_length }) =>
            DownloadState::Opening { total: declared_total(content_length) },
        (DownloadState::Requesting, DownloadEvent::ResponseFailed) =>
            DownloadState::Failed(DownloadError::Request),
        (DownloadState::Opening { total }, DownloadEvent::FileOpened) =>
            DownloadState::Reading { total, downloaded: 0 },
        (DownloadState::Opening { .. }, DownloadEvent::FileOpenFailed) =>
            DownloadState::Failed(DownloadError::FileOpen),
        (DownloadState::Reading { total, downloaded }, DownloadEvent::ChunkReceived { len }) =>
            DownloadState::Writing { total, downloaded, chunk_len: len },
        (DownloadState::Reading { .. }, DownloadEvent::StreamFailed) =>
            DownloadState::Failed(DownloadError::Stream),
        (DownloadState::Reading { total, downloaded }, DownloadEvent::StreamEnded) =>
            DownloadState::Flushing { total, downloaded },
        (DownloadState::Writing { total, downloaded, chunk_len }, DownloadEvent::ChunkWritten) =>
            DownloadState::Reading { total, downloaded: sat_add(downloaded, chunk_len) },
        (DownloadState::Writing { .. }, DownloadEvent::ChunkWriteFailed) =>
            DownloadState::Failed(DownloadError::ChunkWrite),
        (DownloadState::Flushing { total, downloaded }, DownloadEvent::Flushed) =>
            DownloadState::Syncing { total, downloaded },
        (DownloadState::Flushing { .. }, DownloadEvent::FlushFailed) =>
            DownloadState::Failed(DownloadError::Flush),
        (DownloadState::Syncing { .. }, DownloadEvent::Synced) => DownloadState::Succeeded,
        (DownloadState::Syncing { .. }, DownloadEvent::SyncFailed) =>
            DownloadState::Failed(DownloadError::Sync),
        _ => s,
    }
}

/// What a step publishes to the shared byte counts: a newly written chunk
/// replaces them; every other step leaves them alone.
pub open spec fn step_progress(s: DownloadState, e: DownloadEvent, p: Progress) -> Progress {
    match (s, e) {
        (DownloadState::Writing { total, downloaded, chunk_len }, DownloadEvent::ChunkWritten) =>
            Progress { downloaded: sat_add(downloaded, chunk_len), total },
        _ => p,
    }
}

/// What a step publishes to the shared title: the completion title on the
/// one successful sync, the old title otherwise.
pub open spec fn step_title(s: DownloadState, e: DownloadEvent, t: Seq<char>) -> Seq<char> {
    if s is Syncing && e is Synced {
        completed_title()
    } else {
        t
    }
}

/// The action owed in each state.
pub open spec fn action_spec(s: DownloadState) -> DownloadAction {
    match s {
        DownloadState::Requesting => DownloadAction::SendRequest,
        DownloadState::Opening { .. } => DownloadAction::OpenFile,
        DownloadState::Reading { .. } => DownloadAction::ReadChunk,
        DownloadState::Writing { .. } => DownloadAction::WriteChunk,
        DownloadState::Flushing { .. } => DownloadAction::FlushFile,
        DownloadState::Syncing { .. } => DownloadAction::SyncFile,
        DownloadState::Succeeded => DownloadAction::ReportSuccess,
        DownloadState::Failed(e) => DownloadAction::ReportFailure(e),
    }
}

impl DownloadState {
    /// The machine before anything has happened.
    pub fn new() -> (s: DownloadState)
        ensures
            s == DownloadState::Requesting,
    {
        DownloadState::Requesting
    }

    /// Advance by one event and publish the step's effects to the shared
    /// cell: exactly the transition, byte counts and title that the three
    /// step functions give, nothing else.
    pub fn step(&mut self, event: DownloadEvent, shared: &mut SharedProgress)
        ensures
            *final(self) == step_state(*old(self), event),
            final(shared).progress == step_progress(*old(self), event, old(shared).progress),
            final(shared).title@ == step_title(*old(self), event, old(shared).title@),
    {
        match (*self, event) {
            (DownloadState::Requesting, DownloadEvent::ResponseOk { content_length }) => {
                let total: u64 = match content_length {
                    Some(n) => n,
                    None => 0,
                };
                *self = DownloadState::Opening { total };
            },
            (DownloadState::Requesting, DownloadEvent::ResponseFailed) => {
                *self = DownloadState::Failed(DownloadError::Request);
            },
            (DownloadState::Opening { total }, DownloadEvent::FileOpened) => {
                *self = DownloadState::Reading { total, downloaded: 0 };
            },
            (DownloadState::Opening { .. }, DownloadEvent::FileOpenFailed) => {
                *self = DownloadState::Failed(DownloadError::FileOpen);
            },
            (DownloadState::Reading { total, downloaded }, DownloadEvent::ChunkReceived { len }) => {
                *self = DownloadState::Writing { total, downloaded, chunk_len: len };
            },
            (DownloadState::Reading { .. }, DownloadEvent::StreamFailed) => {
                *self = DownloadState::Failed(DownloadError::Stream);
            },
            (DownloadState::Reading { total, downloaded }, DownloadEvent::StreamEnded) => {
                *self = DownloadState::Flushing { total, downloaded };
            },
            (DownloadState::Writing { total, downloaded, chunk_len }, DownloadEvent::ChunkWritten) => {
                let new_downloaded: u64 = if chunk_len <= u64::MAX - downloaded {
                    downloaded + chunk_len
                } else {
                    u64::MAX
                };
                shared.set_progress(new_downloaded, total);
                *self = DownloadState::Reading { total, downloaded: new_downloaded };
            },
            (DownloadState::Writing { .. }, DownloadEvent::ChunkWriteFailed) => {
                *self = DownloadState::Failed(DownloadError::ChunkWrite);
            },
            (DownloadState::Flushing { total, downloaded }, DownloadEvent::Flushed) => {
                *self = DownloadState::Syncing { total, downloaded };
            },
            (DownloadState::Flushing { .. }, DownloadEvent::FlushFailed) => {
                *self = DownloadState::Failed(DownloadError::Flush);
            },
            (DownloadState::Syncing { .. }, DownloadEvent::Synced) => {
                shared.mark_completed();
                *self = DownloadState::Succeeded;
            },
            (DownloadState::Syncing { .. }, DownloadEvent::SyncFailed) => {
                *self = DownloadState::Failed(DownloadError::Sync);
            },
            _ => {},
        }
    }

    /// The action the outside world owes the machine next.
    pub fn next_action(&self) -> (a: DownloadAction)
        ensures
            a == action_spec(*self),
    {
        match self {
            DownloadState::Requesting => DownloadAction::SendRequest,
            DownloadState::Opening { .. } => DownloadAction::OpenFile,
            DownloadState::Reading { .. } => DownloadAction::ReadChunk,
            DownloadState::Writing { .. } => DownloadAction::WriteChunk,
            DownloadState::Flushing { .. } => DownloadAction::FlushFile,
            DownloadState::Syncing { .. } => DownloadAction::SyncFile,
            DownloadState::Succeeded => DownloadAction::ReportSuccess,
            DownloadState::Failed(e) => DownloadAction::ReportFailure(*e),
        }
    }

    /// The whole operation's result pair: `(true, None)` exactly on
    /// success, and `false` paired with exactly the failure's fixed message
    /// on each failure. A machine still mid-protocol reports no message.
    pub fn outcome(&self) -> (r: (bool, Option<String>))
        ensures
            r.0 <==> *self is Succeeded,
            match *self {
                DownloadState::Failed(e) => r.1 matches Some(m) && m@ == error_message_spec(e),
                _ => r.1 is None,
            },
    {
        match self {
            DownloadState::Succeeded => (true, None),
            DownloadState::Failed(e) => (false, Some(e.message())),
            _ => (false, None),
        }
    }
}

/// Seconds the window gets to render before the download starts: the grace
/// period of the startup sequencing.
pub fn startup_delay_secs() -> (r: u64)
    ensures
        r == 1,
{
    1
}

/// Seconds the completion message stays visible before the downloaded
/// executable is launched and the updater exits.
pub fn success_delay_secs() -> (r: u64)
    ensures
        r == 3,
{
    3
}

/// The fixed title of the failure dialog.
pub fn failure_dialog_title() -> (r: String)
    ensures
        r@ == "Download failed!"@,
{
    "Download failed!".to_string()
}

/// The fixed URL the update is fetched from.
pub fn release_url() -> (r: String)
    ensures
        r@ == "https://github.com/Pixeluted/KrampUI/releases/latest/download/KrampUI.exe"@,
{
    "https://github.com/Pixeluted/KrampUI/releases/latest/download/KrampUI.exe".to_string()
}

/// The fixed path the update is written to and launched from, relative to
/// the working directory.
pub fn destination_path() -> (r: String)
    ensures
        r@ == "KrampUI.exe"@,
{
    "KrampUI.exe".to_string()
}

} // verus!
