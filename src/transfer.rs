use vstd::prelude::*;
use crate::text::prefixed;
use crate::notify::Notification;

verus! {

/// One progress message of an upload.
#[derive(Debug, Clone)]
pub struct UploadUpdate {
    pub files_uploaded: String,
    pub current_file: Option<String>,
    pub current_progress: Option<String>,
}

/// One progress message of a download.
#[derive(Debug, Clone)]
pub struct DownloadUpdate {
    pub progress: i32,
    pub file_downloaded: String,
}

/// An optional text, or `default` where it is absent.
pub open spec fn text_or(t: Option<String>, default: Seq<char>) -> Seq<char> {
    match t {
        Some(s) => s@,
        None => default,
    }
}

fn take_or(t: Option<String>, default: &str) -> (r: String)
    ensures
        r@ == text_or(t, default@),
{
    match t {
        Some(s) => s,
        None => String::from_str(default),
    }
}

/// Whether `n` is the progress notification for `u`.
pub open spec fn is_upload_note(n: Notification, u: UploadUpdate) -> bool {
    n matches Notification::UploadProgress { files_uploaded, current_file, current_progress }
        && files_uploaded == u.files_uploaded
        && current_file@ == text_or(u.current_file, "No file"@)
        && current_progress@ == text_or(u.current_progress, "No progress"@)
}

/// Drives one upload: it turns what the stream delivers into notifications
/// and keeps the latest list of uploaded files.
pub struct UploadSession {
    files_uploaded: String,
}

impl UploadSession {
    /// The latest list of uploaded files; empty before any progress.
    pub closed spec fn uploaded(&self) -> Seq<char> {
        self.files_uploaded@
    }

    /// A session before any progress.
    pub fn new() -> (r: Self)
        ensures
            r.uploaded() == Seq::<char>::empty(),
    {
        UploadSession { files_uploaded: String::new() }
    }

    /// A progress message has arrived; absent parts read "No file" and
    /// "No progress".
    pub fn on_progress(&mut self, update: UploadUpdate) -> (r: Notification)
        ensures
            is_upload_note(r, update),
            final(self).uploaded() == update.files_uploaded@,
    {
        proof {
            reveal_strlit("No file");
            reveal_strlit("No progress");
        }
        let UploadUpdate { files_uploaded, current_file, current_progress } = update;
        self.files_uploaded = files_uploaded.clone();
        Notification::UploadProgress {
            files_uploaded,
            current_file: take_or(current_file, "No file"),
            current_progress: take_or(current_progress, "No progress"),
        }
    }

    /// The stream has ended: the completion notification, and the list of
    /// uploaded files that the upload returns.
    pub fn on_stream_end(self) -> (r: (Notification, String))
        ensures
            r.0 matches Notification::UploadCompleted(s) && s@ == self.uploaded(),
            r.1@ == self.uploaded(),
    {
        let result = self.files_uploaded.clone();
        (Notification::UploadCompleted(self.files_uploaded), result)
    }

    /// The stream has failed with `reason`: the error the upload returns.
    pub fn on_stream_error(self, reason: &str) -> (r: String)
        ensures
            r@ == "Stream error: "@ + reason@,
    {
        prefixed("Stream error: ", reason)
    }
}

/// The error of an upload whose request could not be sent.
pub fn upload_open_failure(detail: &str) -> (r: String)
    ensures
        r@ == "Failed to upload file: "@ + detail@,
{
    prefixed("Failed to upload file: ", detail)
}

/// Whether `n` is the progress notification of a download of `url` at `progress`.
pub open spec fn is_download_note(n: Notification, url: Seq<char>, progress: i32) -> bool {
    n matches Notification::DownloadProgress { file_url, progress: p } && file_url@ == url
        && p == progress
}

/// How a download goes over a run of progress messages, `last` being the
/// file reported before them: how many messages are read, and the outcome.
/// It succeeds with the file reported at the first progress of 100 and reads
/// nothing after it; if the run ends before, it fails with the last file.
pub open spec fn download_outcome(last: Seq<char>, events: Seq<DownloadUpdate>) -> (
    nat,
    Result<Seq<char>, Seq<char>>,
)
    decreases events.len(),
{
    if events.len() == 0 {
        (0, Err(last))
    } else if events[0].progress == 100 {
        (1, Ok(events[0].file_downloaded@))
    } else {
        let (k, o) = download_outcome(events[0].file_downloaded@, events.drop_first());
        (k + 1, o)
    }
}

/// Drives one download of `file_url`.
pub struct DownloadSession {
    file_url: String,
    last_file: String,
    finished: bool,
    received: Ghost<Seq<DownloadUpdate>>,
}

impl DownloadSession {
    /// The locator being downloaded.
    pub closed spec fn url(&self) -> Seq<char> {
        self.file_url@
    }

    /// The file named by the latest progress message; empty before any.
    pub closed spec fn last_downloaded(&self) -> Seq<char> {
        self.last_file@
    }

    /// Whether a progress of 100 has been seen.
    pub closed spec fn is_finished(&self) -> bool {
        self.finished
    }

    /// The progress messages received so far, in order.
    pub closed spec fn received(&self) -> Seq<DownloadUpdate> {
        self.received@
    }

    /// While the download runs, no message so far reported 100, and the
    /// last file is the one the latest message named.
    pub closed spec fn wf(&self) -> bool {
        !self.finished ==> (forall|j: int|
            0 <= j < self.received@.len() ==> (#[trigger] self.received@[j]).progress != 100)
            && self.last_file@ == (if self.received@.len() == 0 {
            Seq::<char>::empty()
        } else {
            self.received@.last().file_downloaded@
        })
    }

    /// A session before any progress.
    pub fn new(file_url: String) -> (r: Self)
        ensures
            r.wf(),
            r.url() == file_url@,
            r.last_downloaded() == Seq::<char>::empty(),
            !r.is_finished(),
            r.received() == Seq::<DownloadUpdate>::empty(),
    {
        DownloadSession {
            file_url,
            last_file: String::new(),
            finished: false,
            received: Ghost(Seq::empty()),
        }
    }

    /// A progress message has arrived: its notification, and the downloaded
    /// file when the progress is exactly 100, which ends the download. The
    /// file is then the outcome of the whole run of messages so far.
    pub fn on_progress(&mut self, update: DownloadUpdate) -> (r: (Notification, Option<String>))
        requires
            old(self).wf(),
            !old(self).is_finished(),
        ensures
            final(self).wf(),
            is_download_note(r.0, old(self).url(), update.progress),
            r.1 is Some <==> update.progress == 100,
            r.1 matches Some(f) ==> f@ == update.file_downloaded@,
            final(self).is_finished() == (update.progress == 100),
            final(self).last_downloaded() == update.file_downloaded@,
            final(self).url() == old(self).url(),
            final(self).received() == old(self).received().push(update),
            r.1 matches Some(f) ==> download_outcome(Seq::empty(), final(self).received()) == (
                final(self).received().len(),
                Ok::<Seq<char>, Seq<char>>(f@),
            ),
    {
        let note = Notification::DownloadProgress {
            file_url: self.file_url.clone(),
            progress: update.progress,
        };
        self.last_file = update.file_downloaded.clone();
        let ghost before = self.received@;
        proof {
            self.received@ = self.received@.push(update);
        }
        if update.progress == 100 {
            self.finished = true;
            proof {
                let run = self.received@;
                assert forall|j: int| 0 <= j < run.len() - 1 implies #[trigger] run[j].progress
                    != 100 by {
                    assert(run[j] == before[j]);
                }
                download_completes_at_first_hundred(Seq::empty(), run, run.len() - 1);
            }
            (note, Some(update.file_downloaded))
        } else {
            proof {
                let run = self.received@;
                assert forall|j: int| 0 <= j < run.len() implies (#[trigger] run[j]).progress
                    != 100 by {
                    if j < before.len() {
                        assert(run[j] == before[j]);
                    }
                }
            }
            (note, None)
        }
    }

    /// The stream has ended before a progress of 100: the download fails
    /// with the last file reported as its detail, the outcome of the run.
    pub fn on_stream_end(self) -> (r: String)
        requires
            self.wf(),
            !self.is_finished(),
        ensures
            r@ == self.last_downloaded(),
            download_outcome(Seq::empty(), self.received()) == (
                self.received().len(),
                Err::<Seq<char>, Seq<char>>(r@),
            ),
    {
        proof {
            download_fails_without_hundred(Seq::empty(), self.received@);
        }
        self.last_file
    }

    /// The stream has failed with `reason`: the error the download returns.
    pub fn on_stream_error(self, reason: &str) -> (r: String)
        ensures
            r@ == "Error receiving download progress: "@ + reason@,
    {
        prefixed("Error receiving download progress: ", reason)
    }
}

/// The error of a download whose request could not be sent.
pub fn download_open_failure(detail: &str) -> (r: String)
    ensures
        r@ == "Failed to download file: "@ + detail@,
{
    prefixed("Failed to download file: ", detail)
}

/// A download whose progress first reaches exactly 100 at message `k`
/// succeeds with that message's file and reads no message after it.
pub proof fn download_completes_at_first_hundred(
    last: Seq<char>,
    events: Seq<DownloadUpdate>,
    k: int,
)
    requires
        0 <= k < events.len(),
        events[k].progress == 100,
        forall|j: int| 0 <= j < k ==> #[trigger] events[j].progress != 100,
    ensures
        download_outcome(last, events) == (
            (k + 1) as nat,
            Ok::<Seq<char>, Seq<char>>(events[k].file_downloaded@),
        ),
    decreases k,
{
    if k > 0 {
        let rest = events.drop_first();
        assert forall|j: int| 0 <= j < k - 1 implies #[trigger] rest[j].progress != 100 by {
            assert(rest[j] == events[j + 1]);
        }
        download_completes_at_first_hundred(events[0].file_downloaded@, rest, k - 1);
        assert(events[0].progress != 100);
    }
}

/// A download whose progress never reaches 100 reads every message and
/// fails, with the file of the last message (or `last` if there was none).
pub proof fn download_fails_without_hundred(last: Seq<char>, events: Seq<DownloadUpdate>)
    requires
        forall|j: int| 0 <= j < events.len() ==> #[trigger] events[j].progress != 100,
    ensures
        download_outcome(last, events) == (
            events.len(),
            Err::<Seq<char>, Seq<char>>(
                if events.len() == 0 {
                    last
                } else {
                    events[events.len() - 1].file_downloaded@
                },
            ),
        ),
    decreases events.len(),
{
    if events.len() > 0 {
        let rest = events.drop_first();
        assert forall|j: int| 0 <= j < rest.len() implies #[trigger] rest[j].progress != 100 by {
            assert(rest[j] == events[j + 1]);
        }
        assert(events[0].progress != 100);
        download_fails_without_hundred(events[0].file_downloaded@, rest);
        if rest.len() > 0 {
            assert(rest[rest.len() - 1] == events[events.len() - 1]);
        }
    }
}

} // verus!
