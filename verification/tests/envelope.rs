use tgbotapi::bot::{APIResponse, Error};
use tgbotapi::json::JsonValue;
use tgbotapi::types::{InputFile, InputFileResult, ResponseParameters};

fn envelope(ok: bool) -> APIResponse {
    APIResponse { ok, error_code: None, result: None, description: None, parameters: None }
}

#[test]
fn ok_envelope_hands_back_the_result() {
    let mut env = envelope(true);
    env.result = Some(JsonValue::Int(42));
    match env.parse() {
        Ok(e) => match e.result {
            Some(JsonValue::Int(i)) => assert_eq!(i, 42),
            _ => panic!("the raw result is kept for the caller to decode"),
        },
        Err(_) => panic!("ok means success"),
    }
}

#[test]
fn failed_envelope_becomes_a_typed_error() {
    let mut env = envelope(false);
    env.error_code = Some(403);
    env.description = Some(String::from("Forbidden"));
    match env.parse() {
        Ok(_) => panic!("ok=false is authoritative"),
        Err(e) => {
            assert_eq!(e.code, 403);
            assert_eq!(e.message, "Forbidden");
            assert!(e.parameters.is_none());
        },
    }
}

#[test]
fn failed_envelope_defaults_code_and_message() {
    match envelope(false).parse() {
        Ok(_) => panic!("ok=false is authoritative"),
        Err(e) => {
            assert_eq!(e.code, 400);
            assert_eq!(e.message, "server inter error.");
        },
    }
}

#[test]
fn failure_wins_over_a_present_result() {
    let mut env = envelope(false);
    env.result = Some(JsonValue::Bool(true));
    env.error_code = Some(420);
    assert!(env.parse().is_err());
}

#[test]
fn hints_ride_along_on_errors() {
    let mut env = envelope(false);
    env.error_code = Some(429);
    env.parameters = Some(ResponseParameters { migrate_to_chat_id: None, retry_after: Some(35) });
    match env.parse() {
        Ok(_) => panic!("ok=false is authoritative"),
        Err(e) => {
            assert_eq!(e.parameters.unwrap().retry_after, Some(35));
        },
    }
}

#[test]
fn error_constructors_fill_the_defaults() {
    let e = Error::new(500, String::from("boom"));
    assert_eq!(e.code, 500);
    assert_eq!(e.message, "boom");
    let e = Error::new_option(None, None, None);
    assert_eq!(e.code, 400);
    assert_eq!(e.message, "server inter error.");
    let e = Error::not_found();
    assert_eq!(e.code, 404);
    assert_eq!(e.message, "not found");
}

#[test]
fn resolving_a_file_id_is_pure_and_repeatable() {
    let f = InputFile::FileID(String::from("abc"));
    for _ in 0..3 {
        match f.data() {
            InputFileResult::Text(t) => assert_eq!(t, "abc"),
            InputFileResult::Part(_) => panic!("a file id resolves to text"),
        }
    }
    match f {
        InputFile::FileID(s) => assert_eq!(s, "abc"),
        _ => panic!("resolution leaves the reference unchanged"),
    }
}

#[test]
fn resolving_a_path_names_the_part_from_the_base_name() {
    let f = InputFile::FilePath(String::from("/var/tmp/photo.png"));
    match f.data() {
        InputFileResult::Part(p) => assert_eq!(p.file_name, "photo.png"),
        InputFileResult::Text(_) => panic!("a path must be uploaded"),
    }
    let bare = InputFile::FilePath(String::from("plain.bin"));
    match bare.data() {
        InputFileResult::Part(p) => assert_eq!(p.file_name, "plain.bin"),
        InputFileResult::Text(_) => panic!("a path must be uploaded"),
    }
}

#[test]
fn need_upload_is_tag_based() {
    assert!(!InputFile::FileID(String::from("x")).need_upload());
    assert!(!InputFile::FileURL(String::from("x")).need_upload());
    assert!(!InputFile::FileAttach(String::from("x")).need_upload());
    assert!(InputFile::FileBytes(String::from("x"), vec![]).need_upload());
    assert!(InputFile::FilePath(String::from("x")).need_upload());
}
