use vstd::prelude::*;
use crate::text::prefixed;

verus! {

/// The ways a command against the remote service can fail.
#[derive(Debug, Clone, PartialEq, Eq)]
pub enum ClientError {
    /// No connection handle exists yet.
    NotInitialized,
    /// A connection could not be established.
    ConnectFailure,
    /// A call or a stream failed after a handle existed; the text says which.
    Transport(String),
    /// The remote service answered with a failure of its own.
    RemoteRejected(String),
    /// An input from outside was malformed.
    Validation(String),
}

/// The text shown to the user for an error.
pub open spec fn error_message(e: ClientError) -> Seq<char> {
    match e {
        ClientError::NotInitialized => "Client not initialized"@,
        ClientError::ConnectFailure => "Failed to connect to middleware."@,
        ClientError::Transport(m) => m@,
        ClientError::RemoteRejected(m) => m@,
        ClientError::Validation(m) => m@,
    }
}

/// The text of a failed call: `Failed to <action>: <detail>`.
pub open spec fn failure_text(action: Seq<char>, detail: Seq<char>) -> Seq<char> {
    "Failed to "@ + action + ": "@ + detail
}

impl ClientError {
    /// A transport failure of the call named by `action`.
    pub fn transport(action: &str, detail: &str) -> (r: ClientError)
        ensures
            r matches ClientError::Transport(m) && m@ == failure_text(action@, detail@),
    {
        let mut m = prefixed("Failed to ", action);
        m.append(": ");
        m.append(detail);
        proof {
            reveal_strlit("Failed to ");
            reveal_strlit(": ");
        }
        ClientError::Transport(m)
    }

    /// The text shown to the user for this error.
    pub fn message(&self) -> (r: String)
        ensures
            r@ == error_message(*self),
    {
        match self {
            ClientError::NotInitialized => String::from_str("Client not initialized"),
            ClientError::ConnectFailure => String::from_str("Failed to connect to middleware."),
            ClientError::Transport(m) => m.clone(),
            ClientError::RemoteRejected(m) => m.clone(),
            ClientError::Validation(m) => m.clone(),
        }
    }
}

/// The handle held after a connection attempt: the new one if the attempt
/// succeeded, else the one held before.
pub open spec fn after_attempt<H>(current: Option<H>, attempt: Result<H, String>) -> Option<H> {
    match attempt {
        Ok(h) => Some(h),
        Err(_) => current,
    }
}

/// The kind of streamed operation a stop request is for.
#[derive(Debug, Clone, Copy, PartialEq, Eq, Structural)]
pub enum StopKind {
    Chat,
    Upload,
}

/// The call that a stop request of this kind makes, as named in errors.
pub open spec fn stop_action(k: StopKind) -> Seq<char> {
    match k {
        StopKind::Chat => "stop chat"@,
        StopKind::Upload => "stop upload file"@,
    }
}

impl StopKind {
    /// The error when the stop call of this kind fails with `detail`.
    pub fn failure(self, detail: &str) -> (r: ClientError)
        ensures
            r matches ClientError::Transport(m) && m@ == failure_text(stop_action(self), detail@),
    {
        proof {
            reveal_strlit("stop chat");
            reveal_strlit("stop upload file");
        }
        match self {
            StopKind::Chat => ClientError::transport("stop chat", detail),
            StopKind::Upload => ClientError::transport("stop upload file", detail),
        }
    }
}

/// The slot that holds the single live handle to the remote service.
///
/// The owner keeps it behind a lock and holds the lock only for `install`
/// or `acquire`: a handle is copied out under the lock and used after the
/// lock is released, so a long stream never blocks other callers.
pub struct ConnectionState<H> {
    handle: Option<H>,
}

impl<H: Clone> ConnectionState<H> {
    /// The handle held now, if any.
    pub closed spec fn current(&self) -> Option<H> {
        self.handle
    }

    /// A slot that holds no handle yet.
    pub fn new() -> (r: Self)
        ensures
            r.current() is None,
    {
        ConnectionState { handle: None }
    }

    /// Whether a handle is held.
    pub fn is_connected(&self) -> (r: bool)
        ensures
            r == self.current() is Some,
    {
        self.handle.is_some()
    }

    /// Records the outcome of a connection attempt. A new handle replaces the
    /// old one wholesale; a failed attempt leaves the old one in place.
    pub fn install(&mut self, attempt: Result<H, String>) -> (r: Result<(), ClientError>)
        ensures
            final(self).current() == after_attempt(old(self).current(), attempt),
            attempt is Ok ==> r is Ok,
            attempt is Err ==> r == Err::<(), ClientError>(ClientError::ConnectFailure),
    {
        match attempt {
            Ok(h) => {
                self.handle = Some(h);
                Ok(())
            },
            Err(_) => Err(ClientError::ConnectFailure),
        }
    }

    /// A copy of the current handle, for use once the lock is released.
    /// Fails with `NotInitialized` exactly when no handle is held.
    pub fn acquire(&self) -> (r: Result<H, ClientError>)
        ensures
            self.current() is None <==> r == Err::<H, ClientError>(ClientError::NotInitialized),
            self.current() is Some <==> r is Ok,
            r matches Ok(h) ==> cloned(self.current()->0, h),
    {
        match &self.handle {
            Some(h) => Ok(h.clone()),
            None => Err(ClientError::NotInitialized),
        }
    }
}

/// The handle held after a run of connection attempts.
pub open spec fn after_attempts<H>(current: Option<H>, attempts: Seq<Result<H, String>>) -> Option<
    H,
>
    decreases attempts.len(),
{
    if attempts.len() == 0 {
        current
    } else {
        after_attempts(after_attempt(current, attempts[0]), attempts.drop_first())
    }
}

/// Until a connection attempt succeeds no handle is held, so every operation
/// that needs one fails with `NotInitialized` (see `acquire`).
pub proof fn uninitialized_until_connected<H>(attempts: Seq<Result<H, String>>)
    requires
        forall|i: int| 0 <= i < attempts.len() ==> (#[trigger] attempts[i]) is Err,
    ensures
        after_attempts(None, attempts) is None,
    decreases attempts.len(),
{
    if attempts.len() > 0 {
        let rest = attempts.drop_first();
        assert forall|i: int| 0 <= i < rest.len() implies (#[trigger] rest[i]) is Err by {
            assert(rest[i] == attempts[i + 1]);
        }
        assert(attempts[0] is Err);
        uninitialized_until_connected(rest);
    }
}

/// A second successful connection replaces the first, whatever was held
/// before: the handle held afterwards is the second one, and a later failed
/// attempt leaves it in place. A copy taken from the first stays a separate
/// value and plays no part in what is held.
pub proof fn reconnect_replaces_handle<H>(before: Option<H>, first: H, second: H, failure: String)
    ensures
        after_attempt(after_attempt(before, Ok(first)), Ok(second)) == Some(second),
        after_attempt(Some(second), Err(failure)) == Some(second),
{
}

} // verus!
