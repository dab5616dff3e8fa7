use vstd::prelude::*;
use crate::connection::ClientError;
use crate::text::prefixed;
use crate::text::same_text;

verus! {

/// An answer that carries a success flag and a message: the message is the
/// result on success and the remote service's refusal otherwise.
pub fn flagged_reply(success: bool, message: String) -> (r: Result<String, ClientError>)
    ensures
        success ==> r == Ok::<String, ClientError>(message),
        !success ==> r == Err::<String, ClientError>(ClientError::RemoteRejected(message)),
{
    if success {
        Ok(message)
    } else {
        Err(ClientError::RemoteRejected(message))
    }
}

/// The answer to importing a configuration: success, or the refusal's message.
pub fn import_reply(success: bool, message: String) -> (r: Result<bool, ClientError>)
    ensures
        success ==> r == Ok::<bool, ClientError>(true),
        !success ==> r == Err::<bool, ClientError>(ClientError::RemoteRejected(message)),
{
    if success {
        Ok(true)
    } else {
        Err(ClientError::RemoteRejected(message))
    }
}

/// An answer whose message is empty on success and says what went wrong otherwise.
pub fn empty_means_success(message: String) -> (r: Result<String, ClientError>)
    ensures
        message@.len() == 0 ==> r == Ok::<String, ClientError>(message),
        message@.len() != 0 ==> r == Err::<String, ClientError>(
            ClientError::RemoteRejected(message),
        ),
{
    if message.as_str().unicode_len() == 0 {
        Ok(message)
    } else {
        Err(ClientError::RemoteRejected(message))
    }
}

/// The refusal shown when an uploaded model's folder name is taken.
pub open spec fn duplicate_folder_text() -> Seq<char> {
    "*Error, duplicate folder name. Please use a unique folder name*"@
}

/// The answer to uploading a model: "Already exists" is a refusal for a
/// duplicate folder name; any other message is the result.
pub fn upload_model_reply(message: String) -> (r: Result<String, ClientError>)
    ensures
        message@ == "Already exists"@ ==> (r matches Err(ClientError::RemoteRejected(m))
            && m@ == duplicate_folder_text()),
        message@ != "Already exists"@ ==> r == Ok::<String, ClientError>(message),
{
    if same_text(message.as_str(), "Already exists") {
        Err(
            ClientError::RemoteRejected(
                String::from_str("*Error, duplicate folder name. Please use a unique folder name*"),
            ),
        )
    } else {
        Ok(message)
    }
}

/// The answer to removing a model: an empty message confirms the removal
/// of `model_name`; any other message is the refusal.
pub fn remove_model_reply(model_name: &str, message: String) -> (r: Result<String, ClientError>)
    ensures
        message@.len() == 0 ==> (r matches Ok(m) && m@ == "Successfully removed model: "@
            + model_name@),
        message@.len() != 0 ==> r == Err::<String, ClientError>(
            ClientError::RemoteRejected(message),
        ),
{
    if message.as_str().unicode_len() == 0 {
        Ok(prefixed("Successfully removed model: ", model_name))
    } else {
        Err(ClientError::RemoteRejected(message))
    }
}

/// The answer to setting the assistant's view model: "success" or a refusal.
pub fn view_model_reply(message: String) -> (r: Result<String, ClientError>)
    ensures
        message@ == "success"@ ==> r == Ok::<String, ClientError>(message),
        message@ != "success"@ ==> r == Err::<String, ClientError>(
            ClientError::RemoteRejected(message),
        ),
{
    if same_text(message.as_str(), "success") {
        Ok(message)
    } else {
        Err(ClientError::RemoteRejected(message))
    }
}

} // verus!
