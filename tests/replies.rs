use superbuilder_client::connection::ClientError;
use superbuilder_client::replies::{
    empty_means_success, flagged_reply, import_reply, remove_model_reply, upload_model_reply, view_model_reply,
};

#[test]
fn flagged_reply_success_and_refusal() {
    assert_eq!(flagged_reply(true, "done".to_string()), Ok("done".to_string()));
    assert_eq!(
        flagged_reply(false, "duplicate name".to_string()),
        Err(ClientError::RemoteRejected("duplicate name".to_string()))
    );
}

#[test]
fn import_reply_success_and_refusal() {
    assert_eq!(import_reply(true, "ignored".to_string()), Ok(true));
    assert_eq!(
        import_reply(false, "bad file".to_string()).map_err(|e| e.message()),
        Err("bad file".to_string())
    );
}

#[test]
fn convert_reply_empty_is_success() {
    assert_eq!(empty_means_success(String::new()), Ok(String::new()));
    assert_eq!(
        empty_means_success("no space".to_string()),
        Err(ClientError::RemoteRejected("no space".to_string()))
    );
}

#[test]
fn upload_model_duplicate_is_refused() {
    assert_eq!(
        upload_model_reply("Already exists".to_string()).map_err(|e| e.message()),
        Err("*Error, duplicate folder name. Please use a unique folder name*".to_string())
    );
    assert_eq!(upload_model_reply("Uploaded".to_string()), Ok("Uploaded".to_string()));
    assert_eq!(upload_model_reply("already exists".to_string()), Ok("already exists".to_string()));
}

#[test]
fn remove_model_reply_texts() {
    assert_eq!(remove_model_reply("phi", String::new()), Ok("Successfully removed model: phi".to_string()));
    assert_eq!(
        remove_model_reply("phi", "in use".to_string()),
        Err(ClientError::RemoteRejected("in use".to_string()))
    );
}

#[test]
fn view_model_reply_success_word() {
    assert_eq!(view_model_reply("success".to_string()), Ok("success".to_string()));
    assert_eq!(
        view_model_reply("invalid".to_string()),
        Err(ClientError::RemoteRejected("invalid".to_string()))
    );
}
