use vstd::prelude::*;

verus! {

/// A source that a chat answer cites; each part is optional.
#[derive(Debug, Clone)]
pub struct SourceReference {
    pub file: Option<String>,
    pub page: Option<i32>,
    pub sheet: Option<String>,
}

/// One message of a streamed chat answer.
#[derive(Debug, Clone)]
pub struct ChatReply {
    pub message: String,
    pub references: Vec<SourceReference>,
}

/// A notification for the user interface, named by `event_name`.
#[derive(Debug, Clone)]
pub enum Notification {
    /// The first message of a chat answer has arrived.
    FirstToken,
    /// One message of a chat answer.
    NewMessage(ChatReply),
    /// A chat answer is over, whichever way it ended.
    StreamCompleted,
    /// Progress of an upload.
    UploadProgress { files_uploaded: String, current_file: String, current_progress: String },
    /// An upload is over; the final list of uploaded files.
    UploadCompleted(String),
    /// Progress of a download of `file_url`, in percent.
    DownloadProgress { file_url: String, progress: i32 },
    /// A prompt handed in by another process on this machine.
    ExternalPrompt { text: String, chat_id: Option<i32> },
}

/// The event name under which a notification is delivered.
pub open spec fn event_name_of(n: Notification) -> Seq<char> {
    match n {
        Notification::FirstToken => "first_word"@,
        Notification::NewMessage(_) => "new_message"@,
        Notification::StreamCompleted => "stream-completed"@,
        Notification::UploadProgress { .. } => "upload-progress"@,
        Notification::UploadCompleted(_) => "upload-completed"@,
        Notification::DownloadProgress { .. } => "download-progress"@,
        Notification::ExternalPrompt { .. } => "external_prompt"@,
    }
}

impl Notification {
    /// The event name under which this notification is delivered.
    pub fn event_name(&self) -> (r: &'static str)
        ensures
            r@ == event_name_of(*self),
    {
        match self {
            Notification::FirstToken => "first_word",
            Notification::NewMessage(_) => "new_message",
            Notification::StreamCompleted => "stream-completed",
            Notification::UploadProgress { .. } => "upload-progress",
            Notification::UploadCompleted(_) => "upload-completed",
            Notification::DownloadProgress { .. } => "download-progress",
            Notification::ExternalPrompt { .. } => "external_prompt",
        }
    }
}

} // verus!
