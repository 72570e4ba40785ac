use record_store::{
    empty_list_token, load_response, save_response, ReadOutcome, SaveRequest, WriteOutcome,
};

#[test]
fn empty_list_token_is_the_two_character_sentinel() {
    assert_eq!(empty_list_token(), "[]".to_string());
}

#[test]
fn load_absent_yields_sentinel() {
    let r = load_response(ReadOutcome::Absent);
    assert_eq!(r, Ok("[]".to_string()));
}

#[test]
fn save_then_load_round_trip() {
    let data = "[{\"id\":1}]".to_string();
    let saved = save_response(WriteOutcome::Done);
    assert_eq!(saved, Ok(()));
    let loaded = load_response(ReadOutcome::Content(data.clone()));
    assert_eq!(loaded, Ok(data));
}

#[test]
fn load_empty_content_is_empty_not_sentinel() {
    let saved = save_response(WriteOutcome::Done);
    assert_eq!(saved, Ok(()));
    let loaded = load_response(ReadOutcome::Content(String::new()));
    assert_eq!(loaded, Ok(String::new()));
    assert_ne!(loaded, Ok("[]".to_string()));
}

#[test]
fn write_failure_surfaces_the_message() {
    let message = "No such file or directory (os error 2)".to_string();
    let r = save_response(WriteOutcome::Failure(message.clone()));
    assert_eq!(r, Err(message));
    assert!(!r.unwrap_err().is_empty());
}

#[test]
fn read_failure_is_an_error_distinct_from_absence() {
    let message = "Permission denied (os error 13)".to_string();
    let r = load_response(ReadOutcome::Failure(message.clone()));
    assert_eq!(r, Err(message));
    assert!(!r.clone().unwrap_err().is_empty());
    assert_ne!(r, load_response(ReadOutcome::Absent));
}

#[test]
fn save_request_carries_path_and_data_verbatim() {
    let req = SaveRequest {
        path: "/tmp/x.json".to_string(),
        data: "[{\"id\":1}]".to_string(),
    };
    assert_eq!(req.path, "/tmp/x.json");
    assert_eq!(req.data, "[{\"id\":1}]");
}
