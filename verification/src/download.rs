//! The streaming download protocol, as a state machine over the outcomes the
//! surrounding process observes: delete any pre-existing destination, make
//! sure its parent directory exists, probe the directory for write access,
//! judge the HTTP response, account for every received chunk with a progress
//! event per chunk, and judge the finished file's size. The bytes themselves
//! flow through the caller; the session fixes every decision along the way.

use vstd::prelude::*;
use vstd::string::StringExecFns;
use crate::errors::DownloadError;
use crate::progress::MilestoneTracker;
use crate::progress::ProgressEvent;
use crate::progress::milestone_of;
use crate::progress::percent_hundredths;
use crate::progress::percent_hundredths_of;
use crate::strutil::contains_seq;
use crate::strutil::str_contains;

verus! {

/// How many redirects one transfer may follow.
pub const REDIRECT_LIMIT: u32 = 10;

/// How long establishing the connection may take, in seconds.
pub const CONNECT_TIMEOUT_SECS: u64 = 30;

/// How long the whole transfer may take, in seconds.
pub const TOTAL_TIMEOUT_SECS: u64 = 300;

/// The fixed user-agent string a transfer identifies itself with.
pub fn user_agent() -> (ua: String)
    ensures
        ua@ == "updater-core/0.1"@,
{
    String::from_str("updater-core/0.1")
}

/// What one download was asked to do; immutable once issued.
#[derive(Debug)]
pub struct DownloadRequest {
    pub url: String,
    pub destination_path: String,
    pub display_name: String,
}

/// What a finished download left on disk.
#[derive(Debug)]
pub struct FileArtifact {
    pub path: String,
    pub size_bytes: u64,
    pub exists: bool,
}

/// Where one download stands in its protocol. The steps run strictly in this
/// order; a failed step ends the download.
#[derive(Debug, Clone, Copy, PartialEq, Eq, Structural)]
pub enum DownloadPhase {
    /// About to delete whatever already sits at the destination.
    CheckExisting,
    /// About to make sure the destination's parent directory exists.
    EnsureParent,
    /// About to probe the parent directory for write access.
    ProbeParent,
    /// Waiting for the HTTP response head.
    AwaitResponse,
    /// Receiving body chunks.
    Streaming,
    /// Finished successfully.
    Complete,
    /// Ended in an error.
    Failed,
}

/// The bytes of the given chunks, in order.
pub open spec fn concat_bytes(cs: Seq<Seq<u8>>) -> Seq<u8>
    decreases cs.len(),
{
    if cs.len() == 0 {
        Seq::empty()
    } else {
        concat_bytes(cs.drop_last()) + cs.last()
    }
}

/// The summed lengths of the given chunks.
pub open spec fn sum_len(cs: Seq<Seq<u8>>) -> int
    decreases cs.len(),
{
    if cs.len() == 0 {
        0int
    } else {
        sum_len(cs.drop_last()) + cs.last().len()
    }
}

/// Concatenated chunks hold exactly as many bytes as their lengths sum to.
pub proof fn lemma_concat_len(cs: Seq<Seq<u8>>)
    ensures
        concat_bytes(cs).len() == sum_len(cs),
    decreases cs.len(),
{
    if cs.len() > 0 {
        lemma_concat_len(cs.drop_last());
    }
}

/// One download in flight. All of its progress and milestone state is its
/// own: concurrent downloads are independent sessions.
pub struct DownloadSession {
    pub request: DownloadRequest,
    pub phase: DownloadPhase,
    /// The announced content length; zero while unknown.
    pub total: u64,
    /// How many body bytes have been received so far.
    pub downloaded: u64,
    /// The milestone log throttle of this one download.
    pub tracker: MilestoneTracker,
    /// Every body chunk received so far, in order.
    pub chunks: Ghost<Seq<Seq<u8>>>,
    /// The bytes written to the destination so far: the chunks, in order,
    /// and nothing else — the destination starts empty.
    pub content: Ghost<Seq<u8>>,
}

impl DownloadSession {
    /// The received bytes are exactly the received chunks, in order, and the
    /// byte count is their summed length.
    pub open spec fn wf(&self) -> bool {
        &&& self.content@ == concat_bytes(self.chunks@)
        &&& self.downloaded == sum_len(self.chunks@)
        &&& self.tracker.wf()
    }

    /// Starts a fresh download: nothing received, nothing written, total
    /// still unknown.
    pub fn new(request: DownloadRequest) -> (s: Self)
        ensures
            s.wf(),
            s.phase == DownloadPhase::CheckExisting,
            s.request == request,
            s.total == 0,
            s.downloaded == 0,
            s.chunks@ =~= Seq::<Seq<u8>>::empty(),
            s.content@ =~= Seq::<u8>::empty(),
    {
        DownloadSession {
            request,
            phase: DownloadPhase::CheckExisting,
            total: 0,
            downloaded: 0,
            tracker: MilestoneTracker::new(),
            chunks: Ghost(Seq::empty()),
            content: Ghost(Seq::empty()),
        }
    }

    /// Judges the first step: any pre-existing file at the destination must
    /// have been deleted. `existed` says whether one was there, `removed`
    /// whether its deletion succeeded; a file that was there and stayed ends
    /// the download.
    pub fn on_existing(&mut self, existed: bool, removed: bool, detail: String) -> (r: Result<
        (),
        DownloadError,
    >)
        requires
            old(self).wf(),
            old(self).phase == DownloadPhase::CheckExisting,
        ensures
            final(self).wf(),
            *final(self) == (DownloadSession { phase: final(self).phase, ..*old(self) }),
            if existed && !removed {
                &&& r matches Err(e) && e == DownloadError::CannotRemoveExisting(detail)
                &&& final(self).phase == DownloadPhase::Failed
            } else {
                &&& r is Ok
                &&& final(self).phase == DownloadPhase::EnsureParent
            },
    {
        if existed && !removed {
            self.phase = DownloadPhase::Failed;
            Err(DownloadError::CannotRemoveExisting(detail))
        } else {
            self.phase = DownloadPhase::EnsureParent;
            Ok(())
        }
    }

    /// Judges the second step: the destination's parent directory must exist,
    /// either already or freshly created.
    pub fn on_parent(&mut self, parent_existed: bool, created: bool, detail: String) -> (r: Result<
        (),
        DownloadError,
    >)
        requires
            old(self).wf(),
            old(self).phase == DownloadPhase::EnsureParent,
        ensures
            final(self).wf(),
            *final(self) == (DownloadSession { phase: final(self).phase, ..*old(self) }),
            if parent_existed || created {
                &&& r is Ok
                &&& final(self).phase == DownloadPhase::ProbeParent
            } else {
                &&& r matches Err(e) && e == DownloadError::DirectoryCreateFailed(detail)
                &&& final(self).phase == DownloadPhase::Failed
            },
    {
        if parent_existed || created {
            self.phase = DownloadPhase::ProbeParent;
            Ok(())
        } else {
            self.phase = DownloadPhase::Failed;
            Err(DownloadError::DirectoryCreateFailed(detail))
        }
    }

    /// Judges the third step: the parent directory must have accepted a
    /// create-and-delete write probe.
    pub fn on_probe(&mut self, probe_ok: bool, detail: String) -> (r: Result<(), DownloadError>)
        requires
            old(self).wf(),
            old(self).phase == DownloadPhase::ProbeParent,
        ensures
            final(self).wf(),
            *final(self) == (DownloadSession { phase: final(self).phase, ..*old(self) }),
            if probe_ok {
                &&& r is Ok
                &&& final(self).phase == DownloadPhase::AwaitResponse
            } else {
                &&& r matches Err(e) && e == DownloadError::PermissionDenied(detail)
                &&& final(self).phase == DownloadPhase::Failed
            },
    {
        if probe_ok {
            self.phase = DownloadPhase::AwaitResponse;
            Ok(())
        } else {
            self.phase = DownloadPhase::Failed;
            Err(DownloadError::PermissionDenied(detail))
        }
    }

    /// Judges the HTTP response head: only a 2xx status opens the stream.
    /// `content_length` is the announced body size, zero when the server
    /// announced none.
    pub fn on_response(&mut self, status: u16, reason: String, content_length: u64) -> (r: Result<
        (),
        DownloadError,
    >)
        requires
            old(self).wf(),
            old(self).phase == DownloadPhase::AwaitResponse,
        ensures
            final(self).wf(),
            *final(self) == (DownloadSession {
                phase: final(self).phase,
                total: final(self).total,
                ..*old(self)
            }),
            if 200 <= status < 300 {
                &&& r is Ok
                &&& final(self).phase == DownloadPhase::Streaming
                &&& final(self).total == content_length
            } else {
                &&& r matches Err(e) && e == (DownloadError::HttpStatus { status, reason })
                &&& final(self).phase == DownloadPhase::Failed
                &&& final(self).total == old(self).total
            },
    {
        if 200 <= status && status < 300 {
            self.phase = DownloadPhase::Streaming;
            self.total = content_length;
            Ok(())
        } else {
            self.phase = DownloadPhase::Failed;
            Err(DownloadError::HttpStatus { status, reason })
        }
    }

    /// Accounts for one received body chunk, after the caller appended it to
    /// the destination file. Returns the progress event to notify, carrying a
    /// percentage exactly when the total is known, and the milestone to log,
    /// exactly when the transfer just passed one it had not logged before.
    pub fn on_chunk(&mut self, chunk: &Vec<u8>) -> (r: (ProgressEvent, Option<u8>))
        requires
            old(self).wf(),
            old(self).phase == DownloadPhase::Streaming,
            old(self).downloaded + chunk@.len() <= u64::MAX,
        ensures
            final(self).wf(),
            final(self).phase == DownloadPhase::Streaming,
            final(self).request == old(self).request,
            final(self).total == old(self).total,
            final(self).downloaded == old(self).downloaded + chunk@.len(),
            final(self).chunks@ == old(self).chunks@.push(chunk@),
            final(self).content@ == old(self).content@ + chunk@,
            r.0.downloaded == final(self).downloaded,
            r.0.total == old(self).total,
            r.0.percent_hundredths == if old(self).total > 0 {
                Some(
                    percent_hundredths_of(
                        final(self).downloaded as int,
                        old(self).total as int,
                    ) as u32,
                )
            } else {
                None::<u32>
            },
            ({
                let m = milestone_of(final(self).downloaded as int, old(self).total as int);
                if old(self).total > 0 && m > old(self).tracker.last {
                    r.1 == Some(m as u8) && final(self).tracker.last == m
                } else {
                    r.1 is None && final(self).tracker.last == old(self).tracker.last
                }
            }),
    {
        proof {
            lemma_concat_len(self.chunks@);
        }
        self.downloaded = self.downloaded + (chunk.len() as u64);
        self.chunks = Ghost(self.chunks@.push(chunk@));
        self.content = Ghost(self.content@ + chunk@);
        proof {
            assert(self.chunks@.drop_last() =~= old(self).chunks@);
            assert(self.chunks@.last() =~= chunk@);
        }
        let (percent, log) = if self.total > 0 {
            let p = percent_hundredths(self.downloaded, self.total);
            let log = self.tracker.note(self.downloaded, self.total);
            (Some(p), log)
        } else {
            (None, None)
        };
        let event = ProgressEvent { downloaded: self.downloaded, total: self.total, percent_hundredths: percent };
        (event, log)
    }

    /// Judges the finished file once the stream is exhausted, flushed and
    /// closed: an empty file is an error, and so is a size other than the
    /// announced total when one was announced.
    pub fn finish(&mut self, on_disk_size: u64) -> (r: Result<FileArtifact, DownloadError>)
        requires
            old(self).wf(),
            old(self).phase == DownloadPhase::Streaming,
        ensures
            final(self).wf(),
            *final(self) == (DownloadSession { phase: final(self).phase, ..*old(self) }),
            if on_disk_size == 0 {
                &&& r matches Err(e) && e == DownloadError::EmptyDownload
                &&& final(self).phase == DownloadPhase::Failed
            } else if old(self).total > 0 && on_disk_size != old(self).total {
                &&& r matches Err(e) && e == (DownloadError::IncompleteDownload {
                    expected: old(self).total,
                    actual: on_disk_size,
                })
                &&& final(self).phase == DownloadPhase::Failed
            } else {
                &&& r matches Ok(a) && a.path == old(self).request.destination_path
                    && a.size_bytes == on_disk_size && a.exists
                &&& final(self).phase == DownloadPhase::Complete
            },
    {
        if on_disk_size == 0 {
            self.phase = DownloadPhase::Failed;
            Err(DownloadError::EmptyDownload)
        } else if self.total > 0 && on_disk_size != self.total {
            self.phase = DownloadPhase::Failed;
            Err(DownloadError::IncompleteDownload { expected: self.total, actual: on_disk_size })
        } else {
            self.phase = DownloadPhase::Complete;
            let path = self.request.destination_path.clone();
            Ok(FileArtifact { path, size_bytes: on_disk_size, exists: true })
        }
    }
}

/// Byte accounting: however a download got here, the bytes it has received
/// are the summed lengths of its chunks, and the bytes at the destination
/// are exactly that many. Together with `on_chunk`, which reports this very
/// count in each progress event, the count in the last event equals the
/// on-disk size that the caller's writes produced.
pub proof fn lemma_byte_accounting(s: DownloadSession)
    requires
        s.wf(),
    ensures
        s.downloaded == sum_len(s.chunks@),
        s.content@.len() == s.downloaded,
{
    lemma_concat_len(s.chunks@);
}

/// Fresh overwrite: the destination's bytes are exactly the chunks of this
/// one download, in order. A download starts with an empty destination —
/// the protocol deletes any pre-existing file before the transfer — so no
/// earlier content can leak into the result, and downloading again replaces
/// the bytes with the second transfer's chunks alone.
pub proof fn lemma_overwrite_content(s: DownloadSession)
    requires
        s.wf(),
    ensures
        s.content@ == concat_bytes(s.chunks@),
{
}

/// Sorts transport diagnostic text into the error taxonomy: permission
/// failures, disk exhaustion and name-resolution failures are recognized by
/// their conventional wording; everything else stays a generic failure with
/// its text preserved.
pub open spec fn classified(detail: String) -> DownloadError {
    if contains_seq(detail@, "Permission denied"@) || contains_seq(
        detail@,
        "Operation not permitted"@,
    ) {
        DownloadError::PermissionDenied(detail)
    } else if contains_seq(detail@, "No space left"@) {
        DownloadError::DiskSpaceExhausted(detail)
    } else if contains_seq(detail@, "Could not resolve host"@) {
        DownloadError::NetworkUnreachable(detail)
    } else {
        DownloadError::DownloadFailed(detail)
    }
}

/// Classifies the diagnostic text of a failed transfer or write.
pub fn classify_failure(detail: String) -> (e: DownloadError)
    ensures
        e == classified(detail),
{
    if str_contains(detail.as_str(), "Permission denied") || str_contains(
        detail.as_str(),
        "Operation not permitted",
    ) {
        DownloadError::PermissionDenied(detail)
    } else if str_contains(detail.as_str(), "No space left") {
        DownloadError::DiskSpaceExhausted(detail)
    } else if str_contains(detail.as_str(), "Could not resolve host") {
        DownloadError::NetworkUnreachable(detail)
    } else {
        DownloadError::DownloadFailed(detail)
    }
}

/// The success message of a finished download, naming the destination.
pub fn download_success_message(path: &str) -> (m: String)
    ensures
        m@ == "Downloaded successfully to: "@ + path@,
{
    String::from_str("Downloaded successfully to: ").concat(path)
}

} // verus!
